//! A minimal dead-reckoning model: a thirteen-field kinematic state
//! vector and the three transforms that advance it one time step under a
//! commanded heading, roll or turn rate.
//!
//! Every scalar of the model is an IEEE-754 binary64 value, carried
//! throughout as its raw `u64` bit pattern. The arithmetic the updates
//! perform on those scalars — addition, subtraction, multiplication,
//! division and the ordered comparison — goes through a software
//! IEEE-754 implementation behind the trusted wrappers of [`ieee`], and
//! each contract states the result exactly in terms of those five named
//! operations. The transcendental scalars the algorithms read (the speed
//! of the input state and the sine and cosine of its angles) are
//! evaluated by the caller and handed in as plain bit patterns; the
//! updates are verified for every value of them.

pub mod ieee;
pub mod state;
pub mod text;
pub mod update;
