//! Audio: what the devices deliver, and how it waits to be streamed.
//!
//! A sample is the bit pattern of an IEEE 754 single. The library moves samples
//! and compares how loud they are; it does no arithmetic on them.
pub mod buffers;
pub mod capture;
pub mod pcm;
