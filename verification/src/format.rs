//! Negotiated media formats.
//!
//! A candidate format arrives from the host pipeline as a structured
//! capability descriptor: a pixel-layout code together with a width and a
//! height.  Negotiation parses both the input and the output candidate into a
//! [`FormatDescriptor`] and rejects a candidate whose layout code is not
//! recognized or whose dimensions are zero.

use vstd::prelude::*;

verus! {

/// Layout code for 32-bit blue/green/red/alpha pixels.
pub const LAYOUT_BGRA: u32 = 1;

/// Layout code for 32-bit red/green/blue/alpha pixels.
pub const LAYOUT_RGBA: u32 = 2;

/// Layout code for 24-bit red/green/blue pixels.
pub const LAYOUT_RGB: u32 = 3;

/// Layout code for planar luma with interleaved chroma.
pub const LAYOUT_NV12: u32 = 4;

/// Layout code for fully planar luma and chroma.
pub const LAYOUT_I420: u32 = 5;

/// The pixel layouts this element can negotiate.
#[derive(Clone, Copy, Debug, PartialEq, Eq, Structural)]
pub enum PixelLayout {
    Bgra,
    Rgba,
    Rgb,
    Nv12,
    I420,
}

/// A candidate format as proposed by the host pipeline: a raw capability
/// descriptor whose layout code may be unrecognized and whose dimensions may
/// be zero.
#[derive(Clone, Copy, Debug, PartialEq, Eq, Structural)]
pub struct RawCaps {
    /// One of the `LAYOUT_*` codes, or any other value for a layout this
    /// element does not support.
    pub layout_code: u32,
    /// Frame width in pixels.
    pub width: u32,
    /// Frame height in pixels.
    pub height: u32,
}

/// Why a proposed format was rejected during negotiation.
#[derive(Clone, Copy, Debug, PartialEq, Eq, Structural)]
pub enum NegotiationError {
    /// The layout code matches none of the supported pixel layouts.
    UnsupportedLayout,
    /// The width or the height is zero.
    InvalidDimensions,
}

/// A successfully parsed media format.
#[derive(Clone, Copy, Debug, PartialEq, Eq, Structural)]
pub struct FormatDescriptor {
    pub layout: PixelLayout,
    pub width: u32,
    pub height: u32,
}

impl FormatDescriptor {
    /// A parsed format always has positive dimensions.
    pub open spec fn wf(self) -> bool {
        self.width > 0 && self.height > 0
    }
}

/// The negotiated pair of input and output formats.
#[derive(Clone, Copy, Debug, PartialEq, Eq, Structural)]
pub struct FormatPair {
    pub input: FormatDescriptor,
    pub output: FormatDescriptor,
}

impl FormatPair {
    pub open spec fn wf(self) -> bool {
        self.input.wf() && self.output.wf()
    }
}

/// The pixel layout a code stands for, if any.
pub open spec fn spec_layout_of_code(code: u32) -> Option<PixelLayout> {
    if code == LAYOUT_BGRA {
        Some(PixelLayout::Bgra)
    } else if code == LAYOUT_RGBA {
        Some(PixelLayout::Rgba)
    } else if code == LAYOUT_RGB {
        Some(PixelLayout::Rgb)
    } else if code == LAYOUT_NV12 {
        Some(PixelLayout::Nv12)
    } else if code == LAYOUT_I420 {
        Some(PixelLayout::I420)
    } else {
        None
    }
}

/// A candidate is valid when its layout code is recognized and both
/// dimensions are positive.
pub open spec fn caps_valid(c: RawCaps) -> bool {
    spec_layout_of_code(c.layout_code) is Some && c.width > 0 && c.height > 0
}

/// What parsing a candidate yields: the descriptor, or the error naming the
/// first reason the candidate is invalid (an unrecognized layout is reported
/// before zero dimensions).
pub open spec fn spec_parse_caps(c: RawCaps) -> Result<FormatDescriptor, NegotiationError> {
    match spec_layout_of_code(c.layout_code) {
        None => Err(NegotiationError::UnsupportedLayout),
        Some(layout) => if c.width == 0 || c.height == 0 {
            Err(NegotiationError::InvalidDimensions)
        } else {
            Ok(FormatDescriptor { layout, width: c.width, height: c.height })
        },
    }
}

/// What negotiating a pair of candidates yields: the parsed pair, or the
/// error of the first candidate that fails to parse (input before output).
pub open spec fn spec_negotiate(i: RawCaps, o: RawCaps) -> Result<FormatPair, NegotiationError> {
    match spec_parse_caps(i) {
        Err(e) => Err(e),
        Ok(input) => match spec_parse_caps(o) {
            Err(e) => Err(e),
            Ok(output) => Ok(FormatPair { input, output }),
        },
    }
}

/// Maps a layout code to the layout it stands for.
pub fn parse_pixel_layout(code: u32) -> (r: Option<PixelLayout>)
    ensures
        r == spec_layout_of_code(code),
{
    if code == LAYOUT_BGRA {
        Some(PixelLayout::Bgra)
    } else if code == LAYOUT_RGBA {
        Some(PixelLayout::Rgba)
    } else if code == LAYOUT_RGB {
        Some(PixelLayout::Rgb)
    } else if code == LAYOUT_NV12 {
        Some(PixelLayout::Nv12)
    } else if code == LAYOUT_I420 {
        Some(PixelLayout::I420)
    } else {
        None
    }
}

/// Parses one candidate format.
pub fn parse_caps(c: &RawCaps) -> (r: Result<FormatDescriptor, NegotiationError>)
    ensures
        r == spec_parse_caps(*c),
        r is Ok <==> caps_valid(*c),
        r matches Ok(d) ==> d.wf(),
{
    match parse_pixel_layout(c.layout_code) {
        None => Err(NegotiationError::UnsupportedLayout),
        Some(layout) => {
            if c.width == 0 || c.height == 0 {
                Err(NegotiationError::InvalidDimensions)
            } else {
                Ok(FormatDescriptor { layout, width: c.width, height: c.height })
            }
        },
    }
}

/// Parses both candidates of a negotiation event.
pub fn negotiate(incaps: &RawCaps, outcaps: &RawCaps) -> (r: Result<
    FormatPair,
    NegotiationError,
>)
    ensures
        r == spec_negotiate(*incaps, *outcaps),
        r is Ok <==> caps_valid(*incaps) && caps_valid(*outcaps),
        r matches Ok(p) ==> p.wf(),
{
    let input = match parse_caps(incaps) {
        Err(e) => {
            return Err(e);
        },
        Ok(d) => d,
    };
    let output = match parse_caps(outcaps) {
        Err(e) => {
            return Err(e);
        },
        Ok(d) => d,
    };
    Ok(FormatPair { input, output })
}

/// Negotiation succeeds exactly on valid candidate pairs, and then yields the
/// parsed input/output pair; an invalid pair yields a [`NegotiationError`]
/// and no format descriptor.
pub proof fn lemma_negotiation_exact(i: RawCaps, o: RawCaps)
    ensures
        spec_negotiate(i, o) is Ok <==> caps_valid(i) && caps_valid(o),
        caps_valid(i) && caps_valid(o) ==> spec_negotiate(i, o) == Ok::<
            FormatPair,
            NegotiationError,
        >(
            (FormatPair {
                input: FormatDescriptor {
                    layout: spec_layout_of_code(i.layout_code)->0,
                    width: i.width,
                    height: i.height,
                },
                output: FormatDescriptor {
                    layout: spec_layout_of_code(o.layout_code)->0,
                    width: o.width,
                    height: o.height,
                },
            }),
        ),
        spec_negotiate(i, o) matches Ok(p) ==> p.wf(),
{
}

} // verus!
