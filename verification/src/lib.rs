//! Verified core of a web view widget for iced: the bookkeeping of views, the pixel frames
//! they are painted into, and the decisions of the Blitz engine that do not depend on the
//! document itself.
pub mod engines;
pub mod image_info;

pub use engines::{PageType, PixelFormat, ViewId};
pub use image_info::ImageInfo;
