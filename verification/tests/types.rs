use rsutil::types::{probe_is_little, ByteOrder, Encoding};

#[test]
fn little_and_big_are_fixed() {
    let order = ByteOrder::Little;
    assert!(order.is_little());
    assert!(!order.is_big());
    let order = ByteOrder::Big;
    assert!(!order.is_little());
    assert!(order.is_big());
}

#[test]
fn native_is_always_native() {
    assert!(ByteOrder::Native.is_native());
    assert_ne!(ByteOrder::Native.is_little(), ByteOrder::Native.is_big());
    assert_ne!(ByteOrder::Big.is_native(), ByteOrder::Little.is_native());
}

#[test]
fn native_follows_the_machine() {
    let little = 1u16.to_ne_bytes() == 1u16.to_le_bytes();
    assert_eq!(ByteOrder::Native.is_little(), little);
    assert_eq!(ByteOrder::Native.is_big(), !little);
    assert_eq!(ByteOrder::Little.is_native(), little);
    assert_eq!(ByteOrder::Big.is_native(), !little);
}

#[test]
fn order_on_a_given_machine() {
    assert!(ByteOrder::Native.is_little_on(true));
    assert!(!ByteOrder::Native.is_little_on(false));
    assert!(ByteOrder::Native.is_big_on(false));
    assert!(!ByteOrder::Native.is_big_on(true));
    assert!(ByteOrder::Big.is_native_on(false));
    assert!(!ByteOrder::Big.is_native_on(true));
    assert!(ByteOrder::Little.is_native_on(true));
    assert!(!ByteOrder::Little.is_native_on(false));
    assert!(ByteOrder::Native.is_native_on(true));
    assert!(ByteOrder::Native.is_native_on(false));
    assert!(ByteOrder::Little.is_little_on(false));
    assert!(ByteOrder::Big.is_big_on(true));
}

#[test]
fn defaults() {
    assert_eq!(ByteOrder::default(), ByteOrder::Little);
    assert_eq!(Encoding::default(), Encoding::Utf8);
    assert_ne!(Encoding::Ascii, Encoding::Utf8);
}

#[test]
fn probe_tells_the_order() {
    assert!(probe_is_little(1u16.to_le_bytes()));
    assert!(!probe_is_little(1u16.to_be_bytes()));
    assert!(probe_is_little([1, 0]));
    assert!(!probe_is_little([0, 1]));
    assert_eq!(probe_is_little(1u16.to_ne_bytes()), ByteOrder::Native.is_little());
}
