use brotli::enc::buffer::Buffer;

#[test]
fn buffer_reads_back_what_it_was_made_from() {
    let mut b = Buffer::new(&[1, 2, 3, 4, 5]);
    let mut out = [0u8; 3];
    assert_eq!(b.read(&mut out), 3);
    assert_eq!(out, [1, 2, 3]);
    let mut out = [9u8; 4];
    assert_eq!(b.read(&mut out), 2);
    assert_eq!(out, [4, 5, 9, 9]);
    assert_eq!(b.read(&mut out), 0);
    assert_eq!(out, [4, 5, 9, 9]);
}

#[test]
fn buffer_is_first_in_first_out() {
    let mut b = Buffer::new(&[1]);
    assert_eq!(b.write(&[2, 3]), 2);
    b.flush();
    let mut out = [0u8; 2];
    assert_eq!(b.read(&mut out), 2);
    assert_eq!(out, [1, 2]);
    assert_eq!(b.write(&[4]), 1);
    let mut out = [0u8; 8];
    assert_eq!(b.read(&mut out), 2);
    assert_eq!(&out[..2], &[3, 4]);
}

#[test]
fn empty_buffer_reads_nothing() {
    let mut b = Buffer::new(&[]);
    let mut out = [5u8; 2];
    assert_eq!(b.read(&mut out), 0);
    assert_eq!(out, [5, 5]);
}
