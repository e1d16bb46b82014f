//! Geotagging of images: an angle codec between signed fixed-point angles and
//! the degree/minute/second rationals of the GPS tags, the read and write
//! steps over an image's metadata, and the choice of files to work on.

pub mod coord;
pub mod exif;
pub mod read;
pub mod utils;
pub mod write;
