use serprog::buffer::Buffer;

const DATA: &[u8] = &[1, 2, 3, 4, 5, 6, 7, 8, 9, 10, 11, 12];
const LEN: usize = 5;

#[test]
fn write() {
    let mut b = Buffer::new(LEN);

    assert_eq!(b.write(&DATA[0..2]), 2);
    assert_eq!(b.available_write(), LEN - 2);
    assert_eq!(b.available_read(), 2);

    assert_eq!(b.write(&DATA[0..5]), 3);
    assert_eq!(b.available_write(), 0);
    assert_eq!(b.available_read(), LEN);
}

#[test]
fn read() {
    let mut b = Buffer::new(LEN);

    assert_eq!(b.write(&DATA[0..4]), 4);

    assert_eq!(b.read(3).as_slice(), &DATA[0..3]);
    b.consume(3);
    assert_eq!(b.read(1).as_slice(), &DATA[3..4]);
    b.consume(1);
    assert_eq!(b.read(1).as_slice(), &[] as &[u8]);
}

#[test]
fn clear() {
    let mut b = Buffer::new(LEN);

    b.write(&DATA[0..2]);
    b.clear();

    assert_eq!(b.available_write(), LEN);
    assert_eq!(b.available_read(), 0);
}

#[test]
fn discard() {
    let mut b = Buffer::new(LEN);

    assert_eq!(b.write(&DATA[0..4]), 4);
    assert_eq!(b.read(2).as_slice(), &DATA[0..2]);
    b.consume(2);

    assert_eq!(b.write(&DATA[4..7]), 3);
    assert_eq!(b.read(5).as_slice(), &DATA[2..7]);
    b.consume(5);

    assert_eq!(b.available_read(), 0);
}

#[test]
fn write_then_read_round_trip() {
    let mut b = Buffer::new(8);
    let d = [9u8, 8, 7, 6, 5];
    assert_eq!(b.write(&d), 5);
    assert_eq!(b.read(5).as_slice(), &d);
}

#[test]
fn clear_resets_any_state() {
    let mut b = Buffer::new(4);
    assert_eq!(b.write(&[1, 2, 3, 4]), 4);
    b.consume(2);
    b.clear();
    assert_eq!(b.available_read(), 0);
    assert_eq!(b.available_write(), 4);
}

#[test]
fn compaction_reclaims_consumed_space() {
    let mut b = Buffer::new(6);
    assert_eq!(b.write(&[1, 2, 3, 4, 5, 6]), 6);
    assert_eq!(b.available_write(), 0);
    b.consume(3);
    assert_eq!(b.available_write(), 3);
    // The tail is exhausted, so this append must compact — and still
    // accepts all three bytes.
    assert_eq!(b.write(&[7, 8, 9]), 3);
    assert_eq!(b.read(6).as_slice(), &[4, 5, 6, 7, 8, 9]);
}

#[test]
fn write_all_is_all_or_nothing() {
    let mut b = Buffer::new(4);
    assert_eq!(b.write(&[1, 2]), 2);
    // Five bytes can never fit a four-byte buffer: nothing is committed.
    assert_eq!(b.write_all(&[3, 4, 5, 6, 7]), 0);
    assert_eq!(b.available_read(), 2);
    // Two more do fit.
    assert_eq!(b.write_all(&[3, 4]), 2);
    assert_eq!(b.read(4).as_slice(), &[1, 2, 3, 4]);
}

#[test]
fn consume_recycles_cursors() {
    let mut b = Buffer::new(3);
    assert_eq!(b.write(&[1, 2, 3]), 3);
    b.consume(5);
    assert_eq!(b.available_read(), 0);
    assert_eq!(b.available_write(), 3);
    // After the cursors recycle the whole store is usable again.
    assert_eq!(b.write(&[4, 5, 6]), 3);
    assert_eq!(b.read(3).as_slice(), &[4, 5, 6]);
}

#[test]
fn len_reports_capacity() {
    let b = Buffer::new(16);
    assert_eq!(b.len(), 16);
    assert_eq!(b.available_write_without_discard(), 16);
}
