use streamid::buffer::Buffer;
use streamid::buffer::FlowError;
use streamid::format::LAYOUT_BGRA;
use streamid::format::RawCaps;
use streamid::plugin_init;
use streamid::registry::Registry;
use streamid::streamid::PrepareOutputBufferSuccess;
use streamid::streamid::Settings;
use streamid::streamid::StreamIdElement;
use streamid::streamid::register;

fn bgra_128() -> RawCaps {
    RawCaps {
        layout_code: LAYOUT_BGRA,
        width: 128,
        height: 128,
    }
}

fn running_element(in_place_mode: bool) -> StreamIdElement {
    let mut elem = StreamIdElement::new(in_place_mode);
    let caps = bgra_128();
    elem.set_caps(&caps, &caps).expect("valid formats");
    elem.start().expect("negotiated");
    elem
}

#[test]
fn default_settings_carry_stream_id_zero() {
    let s: Settings = Default::default();
    assert_eq!(s.stream_id, 0);
    let elem = StreamIdElement::new(false);
    assert_eq!(elem.get_stream_id(), 0);
}

#[test]
fn plugin_init_registers_the_element() {
    let mut reg = Registry::new();
    assert!(!reg.element_registered);
    plugin_init(&mut reg).expect("registration cannot fail");
    assert!(reg.element_registered);
    // Metadata kinds register lazily, not at plugin load.
    assert_eq!(reg.stream_id_registrations, 0);
}

#[test]
fn register_is_idempotent_for_the_element() {
    let mut reg = Registry::new();
    register(&mut reg).expect("first registration");
    register(&mut reg).expect("second registration");
    assert!(reg.element_registered);
}

#[test]
fn start_before_negotiation_is_refused() {
    let mut elem = StreamIdElement::new(false);
    assert_eq!(elem.start().unwrap_err(), FlowError::NotNegotiated);
    assert!(!elem.running);
}

#[test]
fn stop_releases_the_formats_but_keeps_settings() {
    let mut elem = running_element(false);
    elem.set_stream_id(5);
    elem.stop();
    assert!(elem.state.is_none());
    assert!(!elem.running);
    assert_eq!(elem.get_stream_id(), 5);
    // Processing after stop is refused again.
    let mut reg = Registry::new();
    let mut buf = Buffer::new(1, 16);
    assert_eq!(
        elem.prepare_output_buffer(&mut reg, &mut buf).unwrap_err(),
        FlowError::NotNegotiated
    );
}

#[test]
fn processing_before_negotiation_is_a_flow_error() {
    let elem = StreamIdElement::new(true);
    let mut reg = Registry::new();
    let mut buf = Buffer::new(1, 16);
    assert_eq!(
        elem.prepare_output_buffer(&mut reg, &mut buf).unwrap_err(),
        FlowError::NotNegotiated
    );
    // The buffer was not touched.
    assert!(buf.metas.is_empty());
    assert_eq!(
        elem.transform_ip(&mut buf).unwrap_err(),
        FlowError::NotNegotiated
    );
}

#[test]
fn shared_buffer_is_copied_not_mutated() {
    let elem = running_element(true);
    let mut reg = Registry::new();
    let mut buf = Buffer::new(42, 4096);
    buf.acquire(); // a second owner holds the buffer
    let out = elem
        .prepare_output_buffer(&mut reg, &mut buf)
        .expect("running");
    match out {
        PrepareOutputBufferSuccess::Buffer(b) => {
            // Structurally distinct, sharing the payload region.
            assert_eq!(b.data_id, 42);
            assert_eq!(b.region_offset, 0);
            assert_eq!(b.region_length, 4096);
            assert_eq!(b.ref_count, 1);
            assert_eq!(b.get_meta_stream_id(), Some(0));
        }
        PrepareOutputBufferSuccess::InputBuffer => {
            panic!("a shared buffer must not be mutated in place")
        }
    }
    // The input kept its identity and gained no metadata.
    assert_eq!(buf.ref_count, 2);
    assert!(buf.metas.is_empty());
}

#[test]
fn unique_buffer_is_tagged_in_place_when_mode_permits() {
    let elem = running_element(true);
    let mut reg = Registry::new();
    let mut buf = Buffer::new(42, 4096);
    let out = elem
        .prepare_output_buffer(&mut reg, &mut buf)
        .expect("running");
    match out {
        PrepareOutputBufferSuccess::InputBuffer => {
            assert_eq!(buf.get_meta_stream_id(), Some(0));
            assert_eq!(buf.ref_count, 1);
        }
        PrepareOutputBufferSuccess::Buffer(_) => {
            panic!("a uniquely owned buffer should keep its identity")
        }
    }
}

#[test]
fn unique_buffer_is_still_copied_when_mode_forbids_in_place() {
    let elem = running_element(false);
    let mut reg = Registry::new();
    let mut buf = Buffer::new(42, 4096);
    let out = elem
        .prepare_output_buffer(&mut reg, &mut buf)
        .expect("running");
    match out {
        PrepareOutputBufferSuccess::Buffer(b) => {
            assert_eq!(b.data_id, 42);
            assert!(buf.metas.is_empty());
        }
        PrepareOutputBufferSuccess::InputBuffer => {
            panic!("in-place mutation is forbidden in this mode")
        }
    }
}

#[test]
fn transform_ip_is_a_no_op_while_running() {
    let elem = running_element(true);
    let mut buf = Buffer::new(1, 16);
    elem.transform_ip(&mut buf).expect("running");
    assert!(buf.metas.is_empty());
    assert_eq!(buf.ref_count, 1);
}

fn tag_of(elem: &StreamIdElement, reg: &mut Registry, data_id: u64) -> Option<u32> {
    let mut buf = Buffer::new(data_id, 4096);
    buf.acquire(); // upstream keeps its reference, forcing the copy path
    match elem.prepare_output_buffer(reg, &mut buf).expect("running") {
        PrepareOutputBufferSuccess::Buffer(b) => b.get_meta_stream_id(),
        PrepareOutputBufferSuccess::InputBuffer => buf.get_meta_stream_id(),
    }
}

#[test]
fn scenario_tagging_follows_the_configured_stream_id() {
    let mut reg = Registry::new();
    plugin_init(&mut reg).expect("plugin load");
    let mut elem = StreamIdElement::new(false);
    let caps = bgra_128();
    elem.set_caps(&caps, &caps).expect("BGRA 128x128 is valid");
    elem.start().expect("negotiated");

    elem.set_stream_id(32323);
    assert_eq!(tag_of(&elem, &mut reg, 1), Some(32323));
    // A second buffer without reconfiguring carries the same value.
    assert_eq!(tag_of(&elem, &mut reg, 2), Some(32323));

    elem.set_stream_id(7);
    assert_eq!(tag_of(&elem, &mut reg, 3), Some(7));

    // The registration side effect ran once for all three buffers.
    assert_eq!(reg.stream_id_registrations, 1);
}
