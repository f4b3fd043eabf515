//! Types shared by the engines, and the engine state that is verified.
use vstd::prelude::*;

pub mod view_manager;
pub mod blitz;
pub mod input;
pub mod text;

verus! {

/// Identifier of a view held by an engine.
pub type ViewId = usize;

/// Byte order of the pixels an engine hands over.
#[derive(Clone, Copy, Debug, PartialEq, Eq, Structural)]
pub enum PixelFormat {
    /// Red, green, blue, alpha.
    Rgba,
    /// Blue, green, red, alpha.
    Bgra,
}

/// What a view is asked to show.
#[derive(Debug)]
pub enum PageType {
    /// A page to be fetched from this address.
    Url(String),
    /// A page given as HTML text.
    Html(String),
}

} // verus!
