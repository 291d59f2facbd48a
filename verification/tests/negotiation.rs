use streamid::format::FormatDescriptor;
use streamid::format::FormatPair;
use streamid::format::LAYOUT_BGRA;
use streamid::format::LAYOUT_I420;
use streamid::format::LAYOUT_NV12;
use streamid::format::LAYOUT_RGB;
use streamid::format::LAYOUT_RGBA;
use streamid::format::NegotiationError;
use streamid::format::PixelLayout;
use streamid::format::RawCaps;
use streamid::format::negotiate;
use streamid::format::parse_caps;
use streamid::format::parse_pixel_layout;
use streamid::streamid::StreamIdElement;

fn bgra_caps(width: u32, height: u32) -> RawCaps {
    RawCaps {
        layout_code: LAYOUT_BGRA,
        width,
        height,
    }
}

#[test]
fn parse_every_supported_layout() {
    assert_eq!(parse_pixel_layout(LAYOUT_BGRA), Some(PixelLayout::Bgra));
    assert_eq!(parse_pixel_layout(LAYOUT_RGBA), Some(PixelLayout::Rgba));
    assert_eq!(parse_pixel_layout(LAYOUT_RGB), Some(PixelLayout::Rgb));
    assert_eq!(parse_pixel_layout(LAYOUT_NV12), Some(PixelLayout::Nv12));
    assert_eq!(parse_pixel_layout(LAYOUT_I420), Some(PixelLayout::I420));
    assert_eq!(parse_pixel_layout(0), None);
    assert_eq!(parse_pixel_layout(6), None);
    assert_eq!(parse_pixel_layout(u32::MAX), None);
}

#[test]
fn parse_caps_exact_descriptor() {
    let r = parse_caps(&bgra_caps(128, 72));
    assert_eq!(
        r,
        Ok(FormatDescriptor {
            layout: PixelLayout::Bgra,
            width: 128,
            height: 72,
        })
    );
}

#[test]
fn parse_caps_rejects_unknown_layout() {
    let c = RawCaps {
        layout_code: 99,
        width: 128,
        height: 128,
    };
    assert_eq!(parse_caps(&c), Err(NegotiationError::UnsupportedLayout));
}

#[test]
fn parse_caps_rejects_zero_dimensions() {
    assert_eq!(
        parse_caps(&bgra_caps(0, 128)),
        Err(NegotiationError::InvalidDimensions)
    );
    assert_eq!(
        parse_caps(&bgra_caps(128, 0)),
        Err(NegotiationError::InvalidDimensions)
    );
    assert_eq!(
        parse_caps(&bgra_caps(0, 0)),
        Err(NegotiationError::InvalidDimensions)
    );
}

#[test]
fn unknown_layout_reported_before_zero_dimensions() {
    let c = RawCaps {
        layout_code: 99,
        width: 0,
        height: 0,
    };
    assert_eq!(parse_caps(&c), Err(NegotiationError::UnsupportedLayout));
}

#[test]
fn negotiate_valid_pair_yields_parsed_pair() {
    let i = bgra_caps(128, 128);
    let o = RawCaps {
        layout_code: LAYOUT_RGBA,
        width: 64,
        height: 32,
    };
    let r = negotiate(&i, &o);
    assert_eq!(
        r,
        Ok(FormatPair {
            input: FormatDescriptor {
                layout: PixelLayout::Bgra,
                width: 128,
                height: 128,
            },
            output: FormatDescriptor {
                layout: PixelLayout::Rgba,
                width: 64,
                height: 32,
            },
        })
    );
}

#[test]
fn negotiate_reports_first_bad_candidate() {
    let good = bgra_caps(128, 128);
    let bad_layout = RawCaps {
        layout_code: 0,
        width: 128,
        height: 128,
    };
    let bad_dims = bgra_caps(128, 0);
    assert_eq!(
        negotiate(&bad_layout, &bad_dims),
        Err(NegotiationError::UnsupportedLayout)
    );
    assert_eq!(
        negotiate(&good, &bad_dims),
        Err(NegotiationError::InvalidDimensions)
    );
}

#[test]
fn set_caps_success_retains_parsed_pair() {
    let mut elem = StreamIdElement::new(false);
    let caps = bgra_caps(128, 128);
    assert_eq!(elem.set_caps(&caps, &caps), Ok(()));
    let pair = elem.state.expect("negotiation should retain the formats");
    assert_eq!(pair.input.layout, PixelLayout::Bgra);
    assert_eq!(pair.input.width, 128);
    assert_eq!(pair.input.height, 128);
    assert_eq!(pair.input, pair.output);
    assert!(!elem.running);
}

#[test]
fn renegotiation_reenters_negotiated_and_keeps_settings() {
    let mut elem = StreamIdElement::new(false);
    let caps = bgra_caps(128, 128);
    elem.set_caps(&caps, &caps).expect("valid formats");
    elem.start().expect("negotiated");
    elem.set_stream_id(9);
    assert!(elem.running);

    // Renegotiating while running re-enters the negotiated state: the
    // pipeline must start the element again before buffers flow.
    let wider = bgra_caps(256, 128);
    assert_eq!(elem.set_caps(&wider, &wider), Ok(()));
    assert!(!elem.running);
    assert_eq!(elem.state.map(|p| p.input.width), Some(256));
    assert_eq!(elem.get_stream_id(), 9);
    assert_eq!(elem.start(), Ok(()));
}

#[test]
fn set_caps_failure_retains_no_descriptor() {
    let mut elem = StreamIdElement::new(false);
    let good = bgra_caps(128, 128);
    assert_eq!(elem.set_caps(&good, &good), Ok(()));
    assert!(elem.state.is_some());

    // A failed renegotiation clears the previously retained formats.
    let bad = bgra_caps(0, 128);
    assert_eq!(
        elem.set_caps(&good, &bad),
        Err(NegotiationError::InvalidDimensions)
    );
    assert!(elem.state.is_none());
    assert!(!elem.running);
}
