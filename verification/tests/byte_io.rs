use pdu_queue::{ByteReader, ByteWriter, Error};

#[test]
fn writer_is_bounded() {
    let mut w = ByteWriter::new(2);
    assert_eq!(w.space_left(), 2);
    assert_eq!(w.write_u8(1), Ok(()));
    assert_eq!(w.write_u8(2), Ok(()));
    assert_eq!(w.space_left(), 0);
    assert_eq!(w.write_u8(3), Err(Error::Eof));
    assert_eq!(w.into_vec(), vec![1, 2]);
}

#[test]
fn writer_slice_is_all_or_nothing() {
    let mut w = ByteWriter::new(3);
    assert_eq!(w.write_u8(9), Ok(()));
    // Does not fit: fails and writes nothing.
    assert_eq!(w.write_slice(&[1, 2, 3]), Err(Error::Eof));
    assert_eq!(w.space_left(), 2);
    assert_eq!(w.write_slice(&[1, 2]), Ok(()));
    assert_eq!(w.into_vec(), vec![9, 1, 2]);
}

#[test]
fn reader_reads_in_order() {
    let mut r = ByteReader::new(vec![1, 2, 3, 4]);
    assert_eq!(r.bytes_left(), 4);
    assert_eq!(r.read_u8(), Ok(1));
    assert_eq!(r.read_vec(2), Ok(vec![2, 3]));
    assert_eq!(r.bytes_left(), 1);
    assert_eq!(r.read_u8(), Ok(4));
    assert_eq!(r.read_u8(), Err(Error::Eof));
}

#[test]
fn reader_bounds_check_fails_distinctly() {
    let mut r = ByteReader::new(vec![1, 2]);
    // A slice read past the end fails with the distinct bounds error and
    // reads nothing.
    assert_eq!(r.read_vec(3), Err(Error::InvalidLength));
    assert_eq!(r.bytes_left(), 2);
    assert_eq!(r.read_vec(2), Ok(vec![1, 2]));
    assert_eq!(r.read_vec(1), Err(Error::InvalidLength));
    assert_eq!(r.read_u8(), Err(Error::Eof));
}
