//! Decoding of the MNIST handwritten-digit files and the decisions of the
//! on-disk cache that provides them.

pub mod decode;
pub mod artifact;
pub mod gzip;
pub mod resolve;
pub mod clean;
