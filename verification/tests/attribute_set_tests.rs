use evdev::attribute_set::{AttributeSet, EvdevEnum};
use evdev::constants::{Key, RelativeAxisType};

#[test]
fn contains_reports_set_bits() {
    // bits 2 and 5 of byte 0, bit 1 of byte 1: indices {2, 5, 9}
    let buf: Vec<u8> = vec![0b0010_0100, 0b0000_0010];
    let set: AttributeSet<'_, Key> = AttributeSet::new(&buf);
    assert!(set.contains(Key(2)));
    assert!(set.contains(Key(5)));
    assert!(set.contains(Key(9)));
    assert!(!set.contains(Key(0)));
    assert!(!set.contains(Key(1)));
    assert!(!set.contains(Key(3)));
    assert!(!set.contains(Key(8)));
    assert!(!set.contains(Key(10)));
    assert!(!set.contains(Key(15)));
}

#[test]
fn contains_is_false_past_the_buffer_never_an_error() {
    let buf: Vec<u8> = vec![0xff, 0xff];
    let set: AttributeSet<'_, Key> = AttributeSet::new(&buf);
    // every in-range bit is set ...
    assert!(set.contains(Key(0)));
    assert!(set.contains(Key(15)));
    // ... and indices at or beyond the buffer simply read as absent
    assert!(!set.contains(Key(16)));
    assert!(!set.contains(Key(17)));
    assert!(!set.contains(Key(1000)));
    assert!(!set.contains(Key(u16::MAX)));
}

#[test]
fn iter_yields_set_bits_ascending() {
    let buf: Vec<u8> = vec![0b0010_0100, 0b0000_0010];
    let set: AttributeSet<'_, Key> = AttributeSet::new(&buf);
    let codes = set.iter();
    assert_eq!(codes, vec![Key(2), Key(5), Key(9)]);
}

#[test]
fn iter_is_restartable() {
    let buf: Vec<u8> = vec![0b0010_0100, 0b0000_0010];
    let set: AttributeSet<'_, Key> = AttributeSet::new(&buf);
    let first = set.iter();
    let second = set.iter();
    assert_eq!(first, second);
}

#[test]
fn iter_of_empty_buffer_is_empty() {
    let buf: Vec<u8> = vec![];
    let set: AttributeSet<'_, Key> = AttributeSet::new(&buf);
    assert_eq!(set.iter(), vec![]);
    let buf2: Vec<u8> = vec![0, 0, 0];
    let set2: AttributeSet<'_, Key> = AttributeSet::new(&buf2);
    assert_eq!(set2.iter(), vec![]);
}

#[test]
fn round_trip_from_index_of_to_index() {
    for raw in [0u16, 1, 2, 30, 272, 767, 1000, u16::MAX] {
        let key = Key(raw);
        assert_eq!(Key::from_index(key.to_index()), key);
        let axis = RelativeAxisType(raw);
        assert_eq!(RelativeAxisType::from_index(axis.to_index()), axis);
    }
}

#[test]
fn round_trip_to_index_of_from_index() {
    for idx in [0usize, 1, 5, 9, 767, 65535] {
        assert_eq!(Key::from_index(idx).to_index(), idx);
        assert_eq!(RelativeAxisType::from_index(idx).to_index(), idx);
    }
}

#[test]
fn display_names_with_fallback() {
    assert_eq!(Key(1).display_name(), "KEY_ESC");
    assert_eq!(Key(30).display_name(), "KEY_A");
    assert_eq!(Key(57).display_name(), "KEY_SPACE");
    assert_eq!(Key(272).display_name(), "BTN_LEFT");
    assert_eq!(Key(999).display_name(), "unknown key: 999");
    assert_eq!(Key(0).display_name(), "unknown key: 0");
    assert_eq!(Key(65535).display_name(), "unknown key: 65535");
    assert_eq!(RelativeAxisType(0).display_name(), "REL_X");
    assert_eq!(RelativeAxisType(1).display_name(), "REL_Y");
    assert_eq!(RelativeAxisType(8).display_name(), "REL_WHEEL");
    assert_eq!(RelativeAxisType(77).display_name(), "unknown axis: 77");
}
