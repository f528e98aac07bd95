//! The parts of an image: header, tags, and the image itself.

pub mod informational;
pub mod qoi_header;
pub mod qoi_image;
pub mod tag;
