use rusty_esp_alarm::buf_writer::BufWriter;

#[test]
fn writes_within_capacity() {
    let mut w = BufWriter::new(vec![0u8; 4]);
    assert_eq!(w.written_len(), 0);
    w.write_all(&[9, 8]).unwrap();
    w.write_all(&[7, 6]).unwrap();
    assert_eq!(w.written_len(), 4);
    assert_eq!(w.into_written(), vec![9, 8, 7, 6]);
}

#[test]
fn overflow_fails_and_writes_nothing() {
    let mut w = BufWriter::new(vec![0u8; 3]);
    w.write_all(&[1, 2]).unwrap();
    assert!(w.write_all(&[3, 4]).is_err());
    assert_eq!(w.written_len(), 2);
    w.write_all(&[5]).unwrap();
    assert_eq!(w.into_written(), vec![1, 2, 5]);
}

#[test]
fn zero_capacity_accepts_only_empty_writes() {
    let mut w = BufWriter::new(Vec::new());
    assert!(w.write_all(&[]).is_ok());
    assert!(w.write_all(&[0]).is_err());
    assert_eq!(w.into_written(), Vec::<u8>::new());
}
