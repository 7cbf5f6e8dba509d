//! The xoshiro family: "xor, shift, rotate" generators over four or eight
//! state words, with one of four output scramblers applied to selected
//! words before the state advances.

pub mod xoshiro128;
pub mod xoshiro256;
pub mod xoshiro512;
