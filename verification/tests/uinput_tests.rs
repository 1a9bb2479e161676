use evdev::attribute_set::AttributeSet;
use evdev::constants::{EventType, Key, RelativeAxisType};
use evdev::uinput::{
    default_id, events_to_bytes, BuilderError, Declaration, InputEvent, InputId,
    VirtualDeviceBuilder, UINPUT_MAX_NAME_SIZE,
};

fn event_wire_bytes(e: &InputEvent) -> Vec<u8> {
    let mut out = Vec::new();
    out.extend_from_slice(&(e.time_sec as u64).to_le_bytes());
    out.extend_from_slice(&(e.time_usec as u64).to_le_bytes());
    out.extend_from_slice(&e.event_type.to_le_bytes());
    out.extend_from_slice(&e.code.to_le_bytes());
    out.extend_from_slice(&(e.value as u32).to_le_bytes());
    out
}

#[test]
fn event_serialization_is_width_and_order_exact() {
    let e = InputEvent { time_sec: 1, time_usec: 2, event_type: 1, code: 30, value: -1 };
    let bytes = events_to_bytes(&[e]);
    let expected: Vec<u8> = vec![
        1, 0, 0, 0, 0, 0, 0, 0, // seconds, 64-bit little-endian
        2, 0, 0, 0, 0, 0, 0, 0, // microseconds
        1, 0, // category
        30, 0, // code
        0xff, 0xff, 0xff, 0xff, // value -1, two's complement
    ];
    assert_eq!(bytes, expected);
}

#[test]
fn negative_timestamps_serialize_as_twos_complement() {
    let e = InputEvent { time_sec: -1, time_usec: -2, event_type: 0, code: 0, value: 0 };
    let bytes = events_to_bytes(&[e]);
    assert_eq!(&bytes[0..8], &[0xff; 8]);
    assert_eq!(&bytes[8..16], &[0xfe, 0xff, 0xff, 0xff, 0xff, 0xff, 0xff, 0xff]);
}

#[test]
fn emit_puts_exactly_three_records_on_the_wire() {
    let mut builder = VirtualDeviceBuilder::new().name(b"test device");
    let device = builder.build().expect("name fits");
    let e1 = InputEvent::new(EventType::key(), 30, 1);
    let e2 = InputEvent::new(EventType::key(), 30, 0);
    let plan = device.emit(&[e1, e2]);
    // the batch write: exactly the two events, contiguous
    let mut expected_batch = event_wire_bytes(&e1);
    expected_batch.extend_from_slice(&event_wire_bytes(&e2));
    assert_eq!(plan.batch, expected_batch);
    assert_eq!(plan.batch.len(), 48);
    // the separate synchronization write: one record, category
    // SYNCHRONIZATION (0), code 0, value 0, zero timestamp
    assert_eq!(plan.sync, vec![0u8; 24]);
}

#[test]
fn emit_of_empty_batch_still_emits_the_sync_record() {
    let mut builder = VirtualDeviceBuilder::new().name(b"d");
    let device = builder.build().expect("name fits");
    let plan = device.emit(&[]);
    assert!(plan.batch.is_empty());
    assert_eq!(plan.sync, vec![0u8; 24]);
}

#[test]
fn build_succeeds_iff_name_and_terminator_fit() {
    // L + 1 < M: the longest name that fits
    let long_ok = vec![b'a'; UINPUT_MAX_NAME_SIZE - 2];
    let mut builder = VirtualDeviceBuilder::new().name(&long_ok);
    assert!(builder.build().is_ok());

    // L + 1 == M: rejected before any kernel call would be issued
    let too_long = vec![b'a'; UINPUT_MAX_NAME_SIZE - 1];
    let mut builder = VirtualDeviceBuilder::new().name(&too_long);
    assert_eq!(builder.build().unwrap_err(), BuilderError::NameTooLong);

    let way_too_long = vec![b'a'; UINPUT_MAX_NAME_SIZE + 5];
    let mut builder = VirtualDeviceBuilder::new().name(&way_too_long);
    assert_eq!(builder.build().unwrap_err(), BuilderError::NameTooLong);
}

#[test]
fn setup_record_is_zero_padded_and_terminated() {
    let mut builder = VirtualDeviceBuilder::new().name(b"virtual keyboard");
    let device = builder.build().expect("name fits");
    let setup = device.setup_record();
    assert_eq!(setup.name.len(), UINPUT_MAX_NAME_SIZE);
    assert_eq!(&setup.name[..16], b"virtual keyboard");
    assert!(setup.name[16..].iter().all(|&b| b == 0));
    assert_eq!(setup.ff_effects_max, 0);
}

#[test]
fn default_identification_is_used_when_none_is_set() {
    let mut builder = VirtualDeviceBuilder::new().name(b"d");
    let device = builder.build().expect("name fits");
    assert_eq!(device.setup_record().id, default_id());
    assert_eq!(
        default_id(),
        InputId { bustype: 0x03, vendor: 0x1234, product: 0x5678, version: 0x111 }
    );
}

#[test]
fn explicit_identification_overrides_the_default() {
    let id = InputId { bustype: 0x06, vendor: 1, product: 2, version: 3 };
    let mut builder = VirtualDeviceBuilder::new().name(b"d").input_id(id);
    let device = builder.build().expect("name fits");
    assert_eq!(device.setup_record().id, id);
}

#[test]
fn with_keys_declares_category_then_codes() {
    let buf: Vec<u8> = vec![0b0010_0100, 0b0000_0010];
    let keys: AttributeSet<'_, Key> = AttributeSet::new(&buf);
    let builder = VirtualDeviceBuilder::new();
    let decls = builder.with_keys(&keys).expect("builder is fresh");
    assert_eq!(
        decls,
        vec![
            Declaration::EventCategory(1),
            Declaration::KeyCode(2),
            Declaration::KeyCode(5),
            Declaration::KeyCode(9),
        ]
    );
}

#[test]
fn with_relative_axes_declares_category_then_codes() {
    let buf: Vec<u8> = vec![0b0000_0011];
    let axes: AttributeSet<'_, RelativeAxisType> = AttributeSet::new(&buf);
    let builder = VirtualDeviceBuilder::new();
    let decls = builder.with_relative_axes(&axes).expect("builder is fresh");
    assert_eq!(
        decls,
        vec![
            Declaration::EventCategory(2),
            Declaration::RelativeAxisCode(0),
            Declaration::RelativeAxisCode(1),
        ]
    );
}

#[test]
fn empty_key_set_still_declares_the_category() {
    let buf: Vec<u8> = vec![0, 0];
    let keys: AttributeSet<'_, Key> = AttributeSet::new(&buf);
    let builder = VirtualDeviceBuilder::new();
    let decls = builder.with_keys(&keys).expect("builder is fresh");
    assert_eq!(decls, vec![Declaration::EventCategory(1)]);
}

#[test]
fn a_finalized_builder_cannot_be_reused() {
    let mut builder = VirtualDeviceBuilder::new().name(b"d");
    assert!(builder.build().is_ok());
    // a second finalize is rejected, successful or not
    assert_eq!(builder.build().unwrap_err(), BuilderError::AlreadyConsumed);
    // and so is every further declaration
    let buf: Vec<u8> = vec![0xff];
    let keys: AttributeSet<'_, Key> = AttributeSet::new(&buf);
    assert_eq!(builder.with_keys(&keys).unwrap_err(), BuilderError::AlreadyConsumed);
}

#[test]
fn an_aborted_builder_cannot_be_reused() {
    let mut builder = VirtualDeviceBuilder::new().name(b"d");
    // a failed declaration aborts the whole chain
    builder.abort();
    assert_eq!(builder.build().unwrap_err(), BuilderError::AlreadyConsumed);
    let buf: Vec<u8> = vec![0xff];
    let keys: AttributeSet<'_, Key> = AttributeSet::new(&buf);
    assert_eq!(builder.with_keys(&keys).unwrap_err(), BuilderError::AlreadyConsumed);
}

#[test]
fn a_failed_finalize_also_consumes_the_builder() {
    let too_long = vec![b'a'; UINPUT_MAX_NAME_SIZE];
    let mut builder = VirtualDeviceBuilder::new().name(&too_long);
    assert_eq!(builder.build().unwrap_err(), BuilderError::NameTooLong);
    assert_eq!(builder.build().unwrap_err(), BuilderError::AlreadyConsumed);
}

#[test]
fn sync_event_record_is_category_zero_code_zero_value_zero() {
    let syn = InputEvent::new(EventType::synchronization(), 0, 0);
    assert_eq!(syn.event_type, 0);
    assert_eq!(syn.code, 0);
    assert_eq!(syn.value, 0);
    assert_eq!(syn.time_sec, 0);
    assert_eq!(syn.time_usec, 0);
}
