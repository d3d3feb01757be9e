use bytewise::endian::{BigEndian, ByteOrder, Endian, LittleEndian, NativeEndian, BE, LE};

#[test]
fn inverse_swaps_the_order() {
    assert_eq!(Endian::Little.to_inverse(), Endian::Big);
    assert_eq!(Endian::Big.to_inverse(), Endian::Little);
    assert_eq!(!Endian::Little, Endian::Big);
    assert_eq!(!Endian::Big, Endian::Little);
    assert_eq!(Endian::Big.to_inverse().to_inverse(), Endian::Big);
}

#[test]
fn little_and_big_tell_themselves_apart() {
    assert!(Endian::Little.is_little());
    assert!(!Endian::Little.is_big());
    assert!(Endian::Big.is_big());
    assert!(!Endian::Big.is_little());
    assert!(Endian::Little.is_same(Endian::Little));
    assert!(!Endian::Little.is_same(Endian::Big));
    assert!(Endian::Big.is_same(Endian::Big));
    assert!(!Endian::Big.is_same(Endian::Little));
}

#[test]
fn native_order_is_how_the_machine_stores_numbers() {
    let expected = if 1u16.to_ne_bytes()[0] == 1 {
        Endian::Little
    } else {
        Endian::Big
    };
    assert_eq!(Endian::native(), expected);
    assert_eq!(Endian::default(), expected);
    assert!(expected.is_native());
    assert!(!expected.to_inverse().is_native());
    assert_eq!(NativeEndian::new().endian(), expected);
    assert_eq!(NativeEndian::default().endian(), expected);
}

#[test]
fn markers_stand_for_their_order() {
    assert_eq!(LittleEndian.endian(), Endian::Little);
    assert_eq!(BigEndian.endian(), Endian::Big);
    assert_eq!(LE.endian(), Endian::Little);
    assert_eq!(BE.endian(), Endian::Big);
    assert_eq!(LittleEndian::default(), LittleEndian);
    assert_eq!(BigEndian::default(), BigEndian);
    assert_eq!(Endian::Big.endian(), Endian::Big);
    assert_eq!(Endian::Little.endian(), Endian::Little);
}

#[test]
fn probe_byte_tells_the_order() {
    assert_eq!(bytewise::endian::order_from_probe(1), Endian::Little);
    assert_eq!(bytewise::endian::order_from_probe(0), Endian::Big);
}
