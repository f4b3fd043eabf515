//! Frames: the RGBA pixels of a rendered view with the image handle that draws them.
use std::sync::Arc;
use vstd::prelude::*;

use iced::advanced::image::Handle;

use crate::engines::PixelFormat;

verus! {

#[verifier::external_type_specification]
#[verifier::external_body]
pub struct ExHandle(Handle);

/// Width of the frame shown before anything has been rendered.
pub const DEFAULT_WIDTH: u32 = 800;

/// Height of the frame shown before anything has been rendered.
pub const DEFAULT_HEIGHT: u32 = 800;

/// The bytes of a blank (white, opaque) frame of `width` by `height` pixels.
pub open spec fn blank_pixels(width: nat, height: nat) -> Seq<u8> {
    Seq::new(width * height * 4, |i: int| 255u8)
}

/// `pixels` with the first and third byte of every four-byte pixel exchanged, which turns
/// blue-green-red-alpha into red-green-blue-alpha and back.
pub open spec fn swap_red_blue(pixels: Seq<u8>) -> Seq<u8> {
    Seq::new(
        pixels.len(),
        |i: int|
            if i % 4 == 0 && i + 2 < pixels.len() {
                pixels[i + 2]
            } else if i % 4 == 2 {
                pixels[i - 2]
            } else {
                pixels[i]
            },
    )
}

/// Law: exchanging red and blue twice gives back the pixels, and keeps their number.
pub proof fn law_swap_red_blue_twice(pixels: Seq<u8>)
    requires
        pixels.len() % 4 == 0,
    ensures
        swap_red_blue(pixels).len() == pixels.len(),
        swap_red_blue(swap_red_blue(pixels)) == pixels,
{
    let once = swap_red_blue(pixels);
    let twice = swap_red_blue(once);
    assert forall|i: int| 0 <= i < pixels.len() implies #[trigger] twice[i] == pixels[i] by {
        if i % 4 == 0 {
            assert((i + 2) % 4 == 2);
        } else if i % 4 == 2 {
            assert((i - 2) % 4 == 0);
        }
    }
    assert(twice =~= pixels);
}

/// Law: the exchange swaps the first and third byte of every pixel and leaves the second and
/// fourth where they are.
pub proof fn law_swap_red_blue_per_pixel(pixels: Seq<u8>, k: int)
    requires
        pixels.len() % 4 == 0,
        0 <= k,
        4 * k + 3 < pixels.len(),
    ensures
        swap_red_blue(pixels)[4 * k] == pixels[4 * k + 2],
        swap_red_blue(pixels)[4 * k + 1] == pixels[4 * k + 1],
        swap_red_blue(pixels)[4 * k + 2] == pixels[4 * k],
        swap_red_blue(pixels)[4 * k + 3] == pixels[4 * k + 3],
{
    assert((4 * k) % 4 == 0 && (4 * k + 1) % 4 == 1 && (4 * k + 2) % 4 == 2 && (4 * k + 3) % 4 == 3);
}

/// Law: a blank frame has four bytes per pixel, all 255 (opaque white).
pub proof fn law_blank_is_white(width: nat, height: nat, i: int)
    ensures
        blank_pixels(width, height).len() == width * height * 4,
        0 <= i < blank_pixels(width, height).len() ==> blank_pixels(width, height)[i] == 255,
{
}

/// The pixels in red-green-blue-alpha order, given their order `format`.
pub open spec fn to_rgba(pixels: Seq<u8>, format: PixelFormat) -> Seq<u8> {
    match format {
        PixelFormat::Rgba => pixels,
        PixelFormat::Bgra => swap_red_blue(pixels),
    }
}

/// What an RGBA handle holds: its width, its height and its pixel bytes.
pub uninterp spec fn rgba_handle_content(handle: Handle) -> (u32, u32, Seq<u8>);

/// Calls `Handle::from_rgba` of iced, which wraps the pixels, with their dimensions, in a
/// handle with a fresh identifier: the handle holds exactly the dimensions and bytes given.
///
/// The identifier is not stated: it comes from a process-wide counter.
#[verifier::external_body]
fn handle_from_rgba(width: u32, height: u32, pixels: Vec<u8>) -> (handle: Handle)
    ensures
        rgba_handle_content(handle) == (width, height, pixels@),
{
    Handle::from_rgba(width, height, pixels)
}

/// The derived `Clone` of iced's `Handle` copies the identifier and dimensions and shares the
/// pixel bytes, so the copy is the same handle.
pub assume_specification[ <Handle as Clone>::clone ](handle: &Handle) -> (copy: Handle)
    ensures
        copy == *handle,
;

/// Calls `Arc::clone`: a second owner of the same pixels.
#[verifier::external_body]
fn share_pixels(pixels: &Arc<Vec<u8>>) -> (shared: Arc<Vec<u8>>)
    ensures
        shared@ == pixels@,
{
    Arc::clone(pixels)
}

/// A copy of a byte buffer.
fn copy_bytes(bytes: &Vec<u8>) -> (copy: Vec<u8>)
    ensures
        copy@ == bytes@,
{
    bytes.clone()
}

/// A buffer of `len` bytes that are all 255.
fn filled_white(len: usize) -> (bytes: Vec<u8>)
    ensures
        bytes@ == Seq::new(len as nat, |i: int| 255u8),
{
    let mut bytes: Vec<u8> = Vec::with_capacity(len);
    let mut i: usize = 0;
    while i < len
        invariant
            i <= len,
            bytes@ == Seq::new(i as nat, |j: int| 255u8),
        decreases len - i,
    {
        bytes.push(255u8);
        i = i + 1;
        assert(bytes@ =~= Seq::new(i as nat, |j: int| 255u8));
    }
    bytes
}

/// Exchanges the first and third byte of every four-byte pixel, in place.
pub fn bgra_to_rgba(pixels: &mut Vec<u8>)
    requires
        old(pixels)@.len() % 4 == 0,
    ensures
        final(pixels)@ == swap_red_blue(old(pixels)@),
{
    let ghost start = pixels@;
    let len: usize = pixels.len();
    let n: usize = len / 4;
    let mut k: usize = 0;
    while k < n
        invariant
            n * 4 == len,
            len == start.len(),
            k <= n,
            pixels@.len() == start.len(),
            forall|i: int| 0 <= i < 4 * k ==> pixels@[i] == swap_red_blue(start)[i],
            forall|i: int| 4 * k <= i < start.len() ==> pixels@[i] == start[i],
        decreases n - k,
    {
        assert(4 * k + 3 < len) by (nonlinear_arith)
            requires
                k < n,
                n * 4 == len,
        ;
        let base: usize = 4 * k;
        let first = pixels[base];
        let third = pixels[base + 2];
        pixels.set(base, third);
        pixels.set(base + 2, first);
        k = k + 1;
        assert forall|i: int| 0 <= i < 4 * k implies pixels@[i] == swap_red_blue(start)[i] by {
            if i >= base {
                assert(i - base < 4);
            }
        }
    }
    assert(pixels@ =~= swap_red_blue(start));
}

/// A rendered frame: its dimensions, its pixels in RGBA order, and the handle that draws them.
#[derive(Clone, Debug)]
pub struct ImageInfo {
    width: u32,
    height: u32,
    handle: Handle,
    raw_pixels: Arc<Vec<u8>>,
}

impl ImageInfo {
    /// The frame's width in pixels.
    pub closed spec fn spec_width(&self) -> u32 {
        self.width
    }

    /// The frame's height in pixels.
    pub closed spec fn spec_height(&self) -> u32 {
        self.height
    }

    /// The frame's bytes, four per pixel, in RGBA order.
    pub closed spec fn spec_pixels(&self) -> Seq<u8> {
        self.raw_pixels@
    }

    /// The handle that draws the frame.
    pub closed spec fn spec_handle(&self) -> Handle {
        self.handle
    }

    /// A frame of `width` by `height` pixels from `pixels`, whose byte order is `format`;
    /// blue-green-red-alpha pixels are brought into RGBA order.
    pub fn new(pixels: Vec<u8>, format: PixelFormat, width: u32, height: u32) -> (frame: Self)
        requires
            pixels@.len() % 4 == 0,
        ensures
            frame.spec_width() == width,
            frame.spec_height() == height,
            frame.spec_pixels() == to_rgba(pixels@, format),
            rgba_handle_content(frame.spec_handle()) == (width, height, to_rgba(pixels@, format)),
    {
        let mut pixels = pixels;
        if format == PixelFormat::Bgra {
            bgra_to_rgba(&mut pixels);
        }
        let raw_pixels = Arc::new(pixels);
        let handle = handle_from_rgba(width, height, copy_bytes(&*raw_pixels));
        ImageInfo { width, height, handle, raw_pixels }
    }

    /// A white frame of `width` by `height` pixels.
    pub fn blank(width: u32, height: u32) -> (frame: Self)
        requires
            width as int * height as int * 4 <= usize::MAX,
        ensures
            frame.spec_width() == width,
            frame.spec_height() == height,
            frame.spec_pixels() == blank_pixels(width as nat, height as nat),
            rgba_handle_content(frame.spec_handle()) == (width, height, blank_pixels(
                width as nat,
                height as nat,
            )),
    {
        let len: usize = (width as usize * height as usize) * 4;
        let pixels = filled_white(len);
        let raw_pixels = Arc::new(copy_bytes(&pixels));
        let handle = handle_from_rgba(width, height, pixels);
        ImageInfo { width, height, handle, raw_pixels }
    }

    /// The handle that draws the frame.
    pub fn as_handle(&self) -> (handle: Handle)
        ensures
            handle == self.spec_handle(),
    {
        self.handle.clone()
    }

    /// The frame's width in pixels.
    pub fn image_width(&self) -> (width: u32)
        ensures
            width == self.spec_width(),
    {
        self.width
    }

    /// The frame's height in pixels.
    pub fn image_height(&self) -> (height: u32)
        ensures
            height == self.spec_height(),
    {
        self.height
    }

    /// The frame's RGBA bytes, shared.
    pub fn pixels(&self) -> (pixels: Arc<Vec<u8>>)
        ensures
            pixels@ == self.spec_pixels(),
    {
        share_pixels(&self.raw_pixels)
    }
}

impl Default for ImageInfo {
    /// A white frame of the default size.
    fn default() -> (frame: Self)
        ensures
            frame.spec_width() == DEFAULT_WIDTH,
            frame.spec_height() == DEFAULT_HEIGHT,
            frame.spec_pixels() == blank_pixels(DEFAULT_WIDTH as nat, DEFAULT_HEIGHT as nat),
            rgba_handle_content(frame.spec_handle()) == (DEFAULT_WIDTH, DEFAULT_HEIGHT, blank_pixels(
                DEFAULT_WIDTH as nat,
                DEFAULT_HEIGHT as nat,
            )),
    {
        ImageInfo::blank(DEFAULT_WIDTH, DEFAULT_HEIGHT)
    }
}

} // verus!
