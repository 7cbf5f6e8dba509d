//! The xoroshiro family: "rotate, xor, shift, rotate" generators over two
//! or sixteen state words, with one of four output scramblers applied to
//! selected words before the state advances.

pub mod xoroshiro1024;
pub mod xoroshiro128;
pub mod xoroshiro64;
