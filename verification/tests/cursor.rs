use usbd_uac2::cursor::{slice_write, Cursor, CursorError, SeekFrom};

#[test]
fn cursor_starts_at_zero_and_gives_back_its_buffer() {
    let mut buf = [7u8, 8, 9];
    let cur = Cursor::new(&mut buf[..]);
    assert_eq!(cur.position(), 0);
    assert_eq!(&**cur.get_ref(), &[7u8, 8, 9]);
    assert_eq!(&*cur.into_inner(), &[7u8, 8, 9]);
    let generic = Cursor::new(vec![1u8, 2]);
    assert_eq!(generic.into_inner(), vec![1u8, 2]);
}

#[test]
fn cursor_write_overwrites_without_growing() {
    let mut buf = [0u8; 3];
    let mut cur = Cursor::new(&mut buf[..]);
    assert_eq!(cur.write(&[1, 2, 3, 4, 5]), Ok(3));
    assert_eq!(cur.position(), 3);
    // full: a non-empty write places nothing
    assert_eq!(cur.write(&[9]), Err(CursorError::WriteZero));
    assert_eq!(cur.position(), 3);
    // an empty write always succeeds
    assert_eq!(cur.write(&[]), Ok(0));
    assert_eq!(buf, [1, 2, 3]);
}

#[test]
fn cursor_write_from_the_middle() {
    let mut buf = [0xaau8; 5];
    let mut cur = Cursor::new(&mut buf[..]);
    cur.set_position(2);
    assert_eq!(cur.write(&[1, 2]), Ok(2));
    assert_eq!(cur.position(), 4);
    assert_eq!(buf, [0xaa, 0xaa, 1, 2, 0xaa]);
}

#[test]
fn cursor_write_past_the_end_fails() {
    let mut buf = [0u8; 3];
    let mut cur = Cursor::new(&mut buf[..]);
    cur.set_position(10);
    assert_eq!(cur.write(&[1]), Err(CursorError::WriteZero));
    assert_eq!(cur.position(), 10);
    assert!(cur.is_empty());
    assert_eq!(cur.remaining_slice(), &[] as &[u8]);
}

#[test]
fn cursor_write_all_writes_what_fits_then_fails() {
    let mut buf = [0u8; 3];
    let mut cur = Cursor::new(&mut buf[..]);
    assert_eq!(cur.write_all(&[1, 2, 3, 4]), Err(CursorError::WriteZero));
    assert_eq!(cur.position(), 3);
    assert_eq!(buf, [1, 2, 3]);
}

#[test]
fn cursor_writes_in_two_parts_as_in_one() {
    let mut a_buf = [0u8; 6];
    let mut a = Cursor::new(&mut a_buf[..]);
    a.write_all(&[1, 2]).unwrap();
    a.write_all(&[3, 4, 5]).unwrap();
    let mut b_buf = [0u8; 6];
    let mut b = Cursor::new(&mut b_buf[..]);
    b.write_all(&[1, 2, 3, 4, 5]).unwrap();
    assert_eq!(a, b);
}

#[test]
fn cursor_stays_full_after_an_overflow() {
    let mut buf = [0u8; 2];
    let mut cur = Cursor::new(&mut buf[..]);
    assert_eq!(cur.write_all(&[1, 2, 3]), Err(CursorError::WriteZero));
    let position = cur.position();
    assert_eq!(cur.write_u8(4), Err(CursorError::WriteZero));
    assert_eq!(cur.position(), position);
    assert_eq!(buf, [1, 2]);
}

#[test]
fn cursor_writes_little_endian_integers() {
    let mut buf = [0u8; 7];
    let mut cur = Cursor::new(&mut buf[..]);
    cur.write_u8(0x11).unwrap();
    cur.write_u16_le(0x2233).unwrap();
    cur.write_u32_le(0x4455_6677).unwrap();
    assert_eq!(buf, [0x11, 0x33, 0x22, 0x77, 0x66, 0x55, 0x44]);
}

#[test]
fn cursor_read_copies_from_the_position() {
    let mut data = [1u8, 2, 3, 4];
    let mut cur = Cursor::new(&mut data[..]);
    cur.set_position(1);
    let mut buf = [0u8; 2];
    assert_eq!(cur.read(&mut buf), Ok(2));
    assert_eq!(buf, [2, 3]);
    assert_eq!(cur.position(), 3);
    let mut big = [9u8; 4];
    assert_eq!(cur.read(&mut big), Ok(1));
    assert_eq!(big, [4, 9, 9, 9]);
    assert_eq!(cur.read(&mut big), Ok(0));
}

#[test]
fn cursor_fill_buf_and_consume() {
    let mut data = [5u8, 6, 7];
    let mut cur = Cursor::new(&mut data[..]);
    assert_eq!(cur.fill_buf(), Ok(&[5u8, 6, 7][..]));
    cur.consume(2);
    assert_eq!(cur.fill_buf(), Ok(&[7u8][..]));
    assert!(!cur.is_empty());
    cur.consume(1);
    assert!(cur.is_empty());
    assert_eq!(cur.flush(), Ok(()));
}

#[test]
fn cursor_seek() {
    let mut data = [0u8; 4];
    let mut cur = Cursor::new(&mut data[..]);
    assert_eq!(cur.seek(SeekFrom::Start(3)), Ok(3));
    assert_eq!(cur.position(), 3);
    assert_eq!(cur.seek(SeekFrom::Current(-2)), Ok(1));
    assert_eq!(cur.position(), 1);
    assert_eq!(cur.seek(SeekFrom::Current(-2)), Err(CursorError::InvalidInput));
    assert_eq!(cur.position(), 1);
    assert_eq!(cur.seek(SeekFrom::End(-1)), Ok(3));
    assert_eq!(cur.seek(SeekFrom::End(5)), Ok(9));
    assert_eq!(cur.position(), 9);
}

#[test]
fn cursor_get_mut_changes_the_buffer() {
    let mut data = [0u8; 2];
    let mut cur = Cursor::new(&mut data[..]);
    cur.get_mut()[1] = 5;
    assert_eq!(cur.position(), 0);
    assert_eq!(data, [0, 5]);
}

#[test]
fn slice_write_clamps_and_advances() {
    let mut buf = [0u8; 4];
    let mut pos = 2usize;
    assert_eq!(slice_write(&mut pos, &mut buf, &[1, 2, 3]), Ok(2));
    assert_eq!(buf, [0, 0, 1, 2]);
    assert_eq!(pos, 4);
    assert_eq!(slice_write(&mut pos, &mut buf, &[3]), Err(CursorError::WriteZero));
    assert_eq!(pos, 4);
    let mut far = 7usize;
    assert_eq!(slice_write(&mut far, &mut buf, &[]), Ok(0));
    assert_eq!(far, 7);
}

#[test]
fn cursor_reads_back_what_it_wrote() {
    let mut data = [0u8; 8];
    let mut cur = Cursor::new(&mut data[..]);
    cur.set_position(3);
    cur.write_all(&[10, 20, 30]).unwrap();
    assert_eq!(cur.position(), 6);
    cur.set_position(3);
    let mut back = [0u8; 3];
    assert_eq!(cur.read(&mut back), Ok(3));
    assert_eq!(back, [10, 20, 30]);
}

#[test]
fn cursor_read_from_the_middle_of_a_slice() {
    let mut data = [1u8, 2, 3, 4, 5];
    let mut c = Cursor::new(&mut data[..]);
    c.set_position(3);
    let mut buf = [9u8, 9, 9];
    assert_eq!(c.read(&mut buf), Ok(2));
    assert_eq!(buf, [4, 5, 9]);
    assert_eq!(c.position(), 5);
}

#[test]
fn cursor_gives_back_what_it_wraps_after_moves_and_reads() {
    let mut data = [1u8, 2, 3, 4, 5];
    let mut c = Cursor::new(&mut data[..]);
    c.set_position(1);
    c.seek(SeekFrom::Current(2)).unwrap();
    let mut buf = [0u8; 1];
    c.read(&mut buf).unwrap();
    assert_eq!(c.fill_buf(), Ok(&[5u8][..]));
    c.consume(1);
    assert!(c.is_empty());
    assert_eq!(c.remaining_slice(), &[] as &[u8]);
    assert_eq!(&*c.into_inner(), &[1u8, 2, 3, 4, 5]);
}
