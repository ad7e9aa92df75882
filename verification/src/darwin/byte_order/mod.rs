//! Bitmap byte orders.
//!
//! A bitmap context hands out pixels as 32-bit words of alpha, red, green
//! and blue in the byte order of the host, so which byte holds which channel
//! depends on the machine. Each module holds the extraction for one order.

pub mod big_endian;
pub mod little_endian;
