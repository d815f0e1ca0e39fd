//! Integer core of a small tile-parallel ray tracer: primality helpers, a
//! nanosecond timer, the render configuration, the partition of the pixel
//! buffer into chunks and the plain-text PPM layout of a finished buffer.
pub mod chunk;
pub mod config;
pub mod ppm;
pub mod prime;
pub mod timer;
