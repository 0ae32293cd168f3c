use zstd_codec::util::PartialBuffer;

#[test]
fn new_buffer_starts_at_zero() {
    let buf = PartialBuffer::new(vec![1u8, 2, 3]);
    assert_eq!(buf.position(), 0);
    assert_eq!(buf.len(), 3);
    assert_eq!(buf.written(), &[] as &[u8]);
    assert_eq!(buf.unwritten(), &[1u8, 2, 3]);
}

#[test]
fn advance_moves_cursor_forward_only() {
    let mut buf = PartialBuffer::new(vec![10u8, 20, 30, 40]);
    let mut prev = buf.position();
    buf.advance(2);
    assert!(buf.position() >= prev);
    assert!(buf.position() <= buf.len());
    assert_eq!(buf.position(), 2);
    assert_eq!(buf.written(), &[10u8, 20]);
    assert_eq!(buf.unwritten(), &[30u8, 40]);
    prev = buf.position();
    buf.advance(0);
    assert!(buf.position() >= prev);
    assert_eq!(buf.position(), 2);
    buf.advance(2);
    assert_eq!(buf.position(), 4);
    assert!(buf.position() <= buf.len());
    assert_eq!(buf.unwritten(), &[] as &[u8]);
    assert_eq!(buf.written(), &[10u8, 20, 30, 40]);
}

#[test]
fn into_inner_returns_the_region() {
    let mut buf = PartialBuffer::new(vec![5u8, 6]);
    buf.advance(1);
    assert_eq!(buf.into_inner(), vec![5u8, 6]);
}

#[test]
fn empty_region_is_exhausted_at_once() {
    let buf = PartialBuffer::new(Vec::new());
    assert_eq!(buf.position(), 0);
    assert_eq!(buf.len(), 0);
    assert_eq!(buf.unwritten(), &[] as &[u8]);
}
