use monazite_boot::ringbuf::RingBuf;

#[test]
fn test() {
    let buffer = vec![0u8; 10];
    let mut ring = RingBuf::new(buffer);
    assert!(ring.is_empty());
    assert!(!ring.is_full());
    assert_eq!(ring.len(), 0);
    assert_eq!(ring.available(), 10);
    assert_eq!(ring.capacity(), 10);

    let (f, s) = ring.writable();
    assert_eq!(f, 10);
    assert_eq!(s, 0);
    let n = ring.write(&[0xDE, 0xAD, 0xBE, 0xEF]);
    assert_eq!(n, 4);
    ring.complete_write(4);
    assert_eq!(ring.len(), 4);

    let (f, s) = ring.readable();
    assert_eq!(f.len(), 4);
    assert_eq!(s.len(), 0);
    assert_eq!(f, [0xDE, 0xAD, 0xBE, 0xEF]);
    ring.complete_read(4);
    assert!(ring.is_empty());

    let (f, s) = ring.writable();
    assert_eq!(f, 6);
    assert_eq!(s, 4);
    let n = ring.write(&[0xDE, 0xAD, 0xBE, 0xEF]);
    assert_eq!(n, 4);
    ring.complete_write(4);
    assert_eq!(ring.len(), 4);

    ring.clear();
    assert_eq!(ring.len(), 0);
}

#[test]
fn wrap_around_contents() {
    let mut ring = RingBuf::new(vec![0u8; 8]);
    assert_eq!(ring.write(&[1, 2, 3, 4, 5, 6]), 6);
    ring.complete_write(6);
    ring.complete_read(4);
    // Live: [5, 6]; room wraps around the end of the store.
    assert_eq!(ring.write(&[7, 8, 9, 10]), 4);
    ring.complete_write(4);
    assert_eq!(ring.len(), 6);
    let (first, second) = ring.readable();
    assert_eq!(first, [5, 6, 7, 8]);
    assert_eq!(second, [9, 10]);
}

#[test]
fn read_copies_without_committing() {
    let mut ring = RingBuf::new(vec![0u8; 4]);
    assert_eq!(ring.write(&[10, 20, 30]), 3);
    ring.complete_write(3);
    let mut out = vec![0u8; 2];
    assert_eq!(ring.read(&mut out), 2);
    assert_eq!(out, [10, 20]);
    // Nothing was committed: the contents are still all there.
    assert_eq!(ring.len(), 3);
    let mut all = vec![0u8; 8];
    assert_eq!(ring.read(&mut all), 3);
    assert_eq!(&all[..3], [10, 20, 30]);
    assert_eq!(&all[3..], [0, 0, 0, 0, 0]);
}

#[test]
fn write_stops_when_full() {
    let mut ring = RingBuf::new(vec![0u8; 4]);
    assert_eq!(ring.write(&[1, 2, 3, 4, 5, 6]), 4);
    ring.complete_write(4);
    assert!(ring.is_full());
    assert_eq!(ring.available(), 0);
    assert_eq!(ring.write(&[7]), 0);
    let (first, second) = ring.readable();
    assert_eq!(first, [1, 2, 3, 4]);
    assert_eq!(second, []);
}

#[test]
fn empty_capacity_ring() {
    let mut ring = RingBuf::new(Vec::new());
    assert!(ring.is_empty());
    assert!(!ring.is_full());
    assert_eq!(ring.write(&[1]), 0);
    ring.complete_write(0);
    assert_eq!(ring.len(), 0);
}
