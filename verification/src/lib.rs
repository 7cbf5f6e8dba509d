//! A family of deterministic, seedable pseudo-random number generators.
//!
//! Each generator owns a fixed-size block of unsigned integers and produces
//! a stream of 32- or 64-bit values by a documented state transition; all
//! arithmetic is fixed-width wraparound, so a seed determines the stream
//! bit for bit.  Stateless avalanche finalizers serve as scramblers and as
//! output whitening, a splitmix walk expands small seeds into wide state
//! vectors, and a tagged facade exposes one capability set over a subset
//! of the family, with bounded sampling on top.  None of the generators is
//! cryptographic.

pub mod bitmixer;
pub mod pcg;
pub mod raw;
pub mod scramble;
pub mod splitmix;
pub mod squares;
pub mod util;
pub mod xoroshiro;
pub mod xorshift;
pub mod xoshiro;
