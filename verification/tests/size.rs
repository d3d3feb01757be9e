use bytewise::needed::Needed;
use bytewise::nonzero::{one, NonZero, NonZeroUsize};
use bytewise::Size;

fn nz(value: usize) -> NonZeroUsize {
    NonZero::new(value).unwrap()
}

#[test]
fn size_normalization() {
    assert_eq!(Size::new(0), Size::Unknown);
    assert_eq!(Size::new(1), Size::Known(nz(1)));
    assert_eq!(Size::new(4096), Size::Known(nz(4096)));
    assert_eq!(Size::new(usize::MAX), Size::Known(nz(usize::MAX)));
    assert_eq!(Size::default(), Size::Unknown);
    assert_eq!(Size::min(), Size::Known(nz(1)));
    assert_eq!(Size::max(), Size::Known(nz(usize::MAX)));
}

#[test]
fn size_accessors() {
    assert_eq!(Size::Unknown.get(), None);
    assert_eq!(Size::new(7).get(), Some(nz(7)));
    assert_eq!(Size::Unknown.get_or(nz(3)), nz(3));
    assert_eq!(Size::new(7).get_or(nz(3)), nz(7));
    assert_eq!(Size::Unknown.get_or_one(), nz(1));
    assert_eq!(Size::new(7).get_or_one(), nz(7));
    assert_eq!(Size::Unknown.get_or_else(|| nz(9)), nz(9));
    assert_eq!(Size::new(7).get_or_else(|| nz(9)), nz(7));
    assert!(Size::new(7).is_known());
    assert!(!Size::new(7).is_unknown());
    assert!(Size::Unknown.is_unknown());
    assert!(!Size::Unknown.is_known());
}

#[test]
fn size_map_never_yields_a_known_zero() {
    assert_eq!(Size::new(8).map(|bytes| bytes.get() * 2), Size::new(16));
    assert_eq!(Size::new(8).map(|bytes| bytes.get() - 8), Size::Unknown);
    assert_eq!(Size::new(8).map(|_| 0), Size::Unknown);
    assert_eq!(Size::Unknown.map(|bytes| bytes.get() + 1), Size::Unknown);
}

#[test]
fn needed_normalization() {
    assert_eq!(Needed::new(0), Needed::Unknown);
    assert_eq!(Needed::new(1), Needed::Known(nz(1)));
    assert_eq!(Needed::new(usize::MAX), Needed::Known(nz(usize::MAX)));
    assert_eq!(Needed::default(), Needed::Unknown);
}

#[test]
fn needed_accessors() {
    assert_eq!(Needed::Unknown.get(), None);
    assert_eq!(Needed::new(7).get(), Some(nz(7)));
    assert_eq!(Needed::Unknown.get_or(nz(3)), nz(3));
    assert_eq!(Needed::new(7).get_or(nz(3)), nz(7));
    assert_eq!(Needed::Unknown.get_or_one(), nz(1));
    assert_eq!(Needed::new(7).get_or_one(), nz(7));
    assert_eq!(Needed::Unknown.get_or_else(|| nz(9)), nz(9));
    assert_eq!(Needed::new(7).get_or_else(|| nz(9)), nz(7));
    assert!(Needed::new(7).is_known());
    assert!(!Needed::new(7).is_unknown());
    assert!(Needed::Unknown.is_unknown());
    assert!(!Needed::Unknown.is_known());
    assert!(Needed::Unknown < Needed::new(1));
    assert!(Needed::new(1) < Needed::new(2));
}

#[test]
fn needed_map_never_yields_a_known_zero() {
    assert_eq!(Needed::new(8).map(|bytes| bytes.get() / 2), Needed::new(4));
    assert_eq!(Needed::new(8).map(|bytes| bytes.get() / 16), Needed::Unknown);
    assert_eq!(Needed::Unknown.map(|bytes| bytes.get() + 1), Needed::Unknown);
}

#[test]
fn nonzero_refuses_zero() {
    assert_eq!(NonZero::new(0usize), None);
    assert_eq!(NonZero::new(0i8), None);
    assert_eq!(NonZero::new(5usize).map(|value| value.get()), Some(5));
    assert_eq!(NonZero::new(-5isize).map(|value| value.get()), Some(-5));
    assert_eq!(NonZero::new(u128::MAX).map(|value| value.get()), Some(u128::MAX));
    assert_eq!(one().get(), 1);
    assert!(nz(1) < nz(2));
}
