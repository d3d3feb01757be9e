use bytewise::read_buf::{Error, ReadBuf};

#[test]
fn new_buffer_is_initialized_and_unfilled() {
    let mut region = [7u8; 8];
    let buf = ReadBuf::new(&mut region);
    assert_eq!(buf.capacity(), 8);
    assert_eq!(buf.filled_len(), 0);
    assert_eq!(buf.unfilled_len(), 8);
    assert_eq!(buf.init_len(), 8);
    assert_eq!(buf.uninit_len(), 0);
    assert_eq!(buf.filled(), &[0u8; 0][..]);
    assert_eq!(buf.init(), &[7u8; 8][..]);
    assert_eq!(buf.unfilled(), &[7u8; 8][..]);
    assert_eq!(buf.uninit(), &[0u8; 0][..]);
}

#[test]
fn buffer_from_uninit_has_nothing_initialized() {
    let mut region = [0u8; 8];
    let buf = ReadBuf::from_uninit(&mut region);
    assert_eq!(buf.capacity(), 8);
    assert_eq!(buf.filled_len(), 0);
    assert_eq!(buf.init_len(), 0);
    assert_eq!(buf.uninit_len(), 8);
    assert_eq!(buf.unfilled_len(), 8);
    assert_eq!(buf.init(), &[0u8; 0][..]);
}

#[test]
fn buffer_from_a_slice_is_new() {
    let mut region = [1u8, 2, 3];
    let buf = ReadBuf::from(&mut region[..]);
    assert_eq!(buf.capacity(), 3);
    assert_eq!(buf.init_len(), 3);
    assert_eq!(buf.filled_len(), 0);
}

#[test]
fn push_slice_advances_filled_by_its_length() {
    let mut region = [0u8; 8];
    let mut buf = ReadBuf::from_uninit(&mut region);
    buf.push_slice(&[1, 2, 3]);
    assert_eq!(buf.filled_len(), 3);
    assert_eq!(buf.init_len(), 3);
    assert_eq!(buf.filled(), &[1u8, 2, 3][..]);
    assert_eq!(buf.try_push_slice(&[4, 5]), Ok(()));
    assert_eq!(buf.filled_len(), 5);
    assert_eq!(buf.init_len(), 5);
    assert_eq!(buf.filled(), &[1u8, 2, 3, 4, 5][..]);
    assert_eq!(buf.try_push_slice(&[]), Ok(()));
    assert_eq!(buf.filled_len(), 5);
    assert_eq!(buf.try_push_slice(&[6, 7, 8]), Ok(()));
    assert_eq!(buf.filled_len(), 8);
    assert_eq!(buf.unfilled_len(), 0);
    assert_eq!(buf.try_push_slice(&[]), Ok(()));
    drop(buf);
    assert_eq!(region, [1, 2, 3, 4, 5, 6, 7, 8]);
}

#[test]
fn push_slice_that_does_not_fit_changes_nothing() {
    let mut region = [9u8; 4];
    let mut buf = ReadBuf::from_uninit(&mut region);
    buf.push_slice(&[1, 2]);
    assert_eq!(buf.try_push_slice(&[3, 4, 5]), Err(Error::SliceTooLarge));
    assert_eq!(buf.filled_len(), 2);
    assert_eq!(buf.init_len(), 2);
    assert_eq!(buf.capacity(), 4);
    assert_eq!(buf.filled(), &[1u8, 2][..]);
    assert_eq!(buf.unfilled(), &[9u8, 9][..]);
    assert_eq!(buf.try_push_slice(&[3, 4]), Ok(()));
    assert_eq!(buf.try_push_slice(&[5]), Err(Error::SliceTooLarge));
    assert_eq!(buf.filled(), &[1u8, 2, 3, 4][..]);
}

#[test]
fn push_slice_keeps_a_larger_initialized_mark() {
    let mut region = [0u8; 6];
    let mut buf = ReadBuf::new(&mut region);
    buf.push_slice(&[1, 2]);
    assert_eq!(buf.filled_len(), 2);
    assert_eq!(buf.init_len(), 6);
}

#[test]
fn clear_keeps_what_is_initialized() {
    let mut region = [0u8; 6];
    let mut buf = ReadBuf::from_uninit(&mut region);
    buf.push_slice(&[1, 2, 3]);
    buf.clear();
    assert_eq!(buf.filled_len(), 0);
    assert_eq!(buf.init_len(), 3);
    assert_eq!(buf.init(), &[1u8, 2, 3][..]);
    assert_eq!(buf.capacity(), 6);
}

#[test]
fn set_filled_stays_within_the_initialized_bytes() {
    let mut region = [0u8; 6];
    let mut buf = ReadBuf::from_uninit(&mut region);
    buf.push_slice(&[1, 2, 3, 4]);
    buf.clear();
    assert_eq!(buf.try_set_filled(5), Err(Error::FilledTooLarge));
    assert_eq!(buf.filled_len(), 0);
    assert_eq!(buf.init_len(), 4);
    assert_eq!(buf.try_set_filled(4), Ok(()));
    assert_eq!(buf.filled_len(), 4);
    buf.set_filled(2);
    assert_eq!(buf.filled_len(), 2);
    buf.set_filled_unchecked(3);
    assert_eq!(buf.filled_len(), 3);
    assert_eq!(buf.init_len(), 4);
    assert_eq!(buf.filled(), &[1u8, 2, 3][..]);
}

#[test]
fn advance_stays_within_the_initialized_bytes() {
    let mut region = [0u8; 6];
    let mut buf = ReadBuf::from_uninit(&mut region);
    buf.push_slice(&[1, 2, 3, 4]);
    buf.clear();
    assert_eq!(buf.try_advance(2), Ok(()));
    assert_eq!(buf.filled_len(), 2);
    assert_eq!(buf.try_advance(3), Err(Error::FilledTooLarge));
    assert_eq!(buf.filled_len(), 2);
    assert_eq!(buf.try_advance(usize::MAX), Err(Error::FilledTooLarge));
    assert_eq!(buf.filled_len(), 2);
    buf.advance(1);
    assert_eq!(buf.filled_len(), 3);
    buf.advance_unchecked(1);
    assert_eq!(buf.filled_len(), 4);
    assert_eq!(buf.try_advance(0), Ok(()));
    assert_eq!(buf.try_advance(1), Err(Error::FilledTooLarge));
}

#[test]
fn assume_init_only_raises_the_initialized_mark() {
    let mut region = [5u8; 6];
    let mut buf = ReadBuf::from_uninit(&mut region);
    buf.push_slice(&[1, 2]);
    buf.assume_init(3);
    assert_eq!(buf.init_len(), 5);
    assert_eq!(buf.filled_len(), 2);
    buf.assume_init(1);
    assert_eq!(buf.init_len(), 5);
    buf.assume_init(0);
    assert_eq!(buf.init_len(), 5);
    assert_eq!(buf.try_advance(3), Ok(()));
    assert_eq!(buf.filled(), &[1u8, 2, 5, 5, 5][..]);
    buf.assume_init(1);
    assert_eq!(buf.init_len(), 6);
}

#[test]
fn initialize_uninit_fills_the_uninitialized_tail() {
    let mut region = [0u8; 6];
    let mut buf = ReadBuf::from_uninit(&mut region);
    buf.push_slice(&[1, 2]);
    buf.assume_init(1);
    {
        let tail = buf.initialize_uninit(0xAA);
        assert_eq!(tail, &[0xAAu8, 0xAA, 0xAA][..]);
        tail[0] = 0xBB;
    }
    assert_eq!(buf.init_len(), 6);
    assert_eq!(buf.uninit_len(), 0);
    assert_eq!(buf.filled_len(), 2);
    assert_eq!(buf.init(), &[1u8, 2, 0, 0xBB, 0xAA, 0xAA][..]);
    assert_eq!(buf.initialize_uninit(0xCC).len(), 0);
    assert_eq!(buf.init(), &[1u8, 2, 0, 0xBB, 0xAA, 0xAA][..]);
}

#[test]
fn initialize_unfilled_fills_all_that_is_unfilled() {
    let mut region = [0u8; 6];
    let mut buf = ReadBuf::from_uninit(&mut region);
    buf.push_slice(&[1, 2]);
    buf.assume_init(2);
    assert_eq!(buf.initialize_unfilled(0xAA), &[0xAAu8; 4][..]);
    assert_eq!(buf.init_len(), 6);
    assert_eq!(buf.filled_len(), 2);
    assert_eq!(buf.init(), &[1u8, 2, 0xAA, 0xAA, 0xAA, 0xAA][..]);
    assert_eq!(buf.unfilled(), &[0xAAu8; 4][..]);
}

#[test]
fn mutable_views_write_to_the_buffer() {
    let mut region = [0u8; 6];
    let mut buf = ReadBuf::new(&mut region);
    buf.push_slice(&[1, 2, 3]);
    buf.filled_mut()[0] = 9;
    assert_eq!(buf.filled(), &[9u8, 2, 3][..]);
    assert_eq!(buf.filled_mut().len(), 3);
    buf.unfilled_mut()[0] = 4;
    assert_eq!(buf.unfilled(), &[4u8, 0, 0][..]);
    assert_eq!(buf.filled_len(), 3);
    buf.init_mut()[5] = 6;
    assert_eq!(buf.init(), &[9u8, 2, 3, 4, 0, 6][..]);
    assert_eq!(buf.uninit_mut().len(), 0);
    buf.advance(1);
    assert_eq!(buf.filled(), &[9u8, 2, 3, 4][..]);
}

#[test]
fn the_marks_stay_in_order() {
    let mut region = [0u8; 5];
    let mut buf = ReadBuf::from_uninit(&mut region);
    let in_order =
        |buf: &ReadBuf| buf.filled_len() <= buf.init_len() && buf.init_len() <= buf.capacity();
    assert!(in_order(&buf));
    buf.push_slice(&[1, 2]);
    assert!(in_order(&buf));
    let _ = buf.try_push_slice(&[1, 2, 3, 4]);
    assert!(in_order(&buf));
    buf.assume_init(2);
    assert!(in_order(&buf));
    let _ = buf.try_advance(5);
    assert!(in_order(&buf));
    let _ = buf.try_advance(2);
    assert!(in_order(&buf));
    buf.clear();
    assert!(in_order(&buf));
    let _ = buf.try_set_filled(9);
    assert!(in_order(&buf));
    buf.initialize_unfilled(1);
    assert!(in_order(&buf));
    buf.set_filled(5);
    assert!(in_order(&buf));
    assert_eq!((buf.filled_len(), buf.init_len(), buf.capacity()), (5, 5, 5));
}

#[test]
fn read_buf_error_messages() {
    assert_eq!(
        Error::FilledTooLarge.message(),
        "filled buffer size exceeds the size of the initialized buffer"
    );
    assert_eq!(
        Error::InitTooLarge.message(),
        "initialized buffer size exceeds the size of the internal buffer"
    );
    assert_eq!(
        Error::SliceTooLarge.message(),
        "there is not enough remaining room to append the slice"
    );
}
