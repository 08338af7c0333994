//! Reading of Fujifilm RAF raw image containers, their metadata records and
//! the Exif segment of the embedded JPEG preview, from an in-memory byte image.

pub mod binary;
pub mod exif;
pub mod tags;
pub mod raf;
pub mod text;
pub mod laws;
