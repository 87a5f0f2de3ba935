use double_buffer::BorrowConflict;
use double_buffer::DoubleBuffer;

#[test]
fn current_and_next_never_conflict() {
    let mut buf: DoubleBuffer<u8> = DoubleBuffer::new(1, 2);
    let r = buf.current().unwrap();
    let w = buf.next().unwrap();
    assert_eq!(*buf.read(&r), 1);
    assert_eq!(*buf.peek(&w), 2);
    buf.release_read(r);
    buf.release_write(w);
}

#[test]
fn many_shared_views_are_allowed() {
    let mut buf: DoubleBuffer<u8> = DoubleBuffer::new(7, 0);
    let r1 = buf.current().unwrap();
    let r2 = buf.current().unwrap();
    let r3 = buf.current().unwrap();
    assert_eq!(*buf.read(&r1), 7);
    assert_eq!(*buf.read(&r2), 7);
    assert_eq!(*buf.read(&r3), 7);
    buf.release_read(r1);
    buf.release_read(r2);
    buf.release_read(r3);
}

#[test]
fn second_exclusive_view_is_refused() {
    let mut buf: DoubleBuffer<u8> = DoubleBuffer::new(0, 0);
    let w = buf.next().unwrap();
    let conflict = match buf.next() {
        Err(conflict) => conflict,
        Ok(_) => panic!("expected a borrow conflict"),
    };
    assert_eq!(
        conflict,
        BorrowConflict { on_first_slot: false, requested_exclusive: true }
    );
    buf.release_write(w);
    let w = buf.next().unwrap();
    buf.release_write(w);
}

#[test]
fn shared_view_refused_while_exclusive_outstanding() {
    let mut buf: DoubleBuffer<u8> = DoubleBuffer::new(3, 4);
    let w = buf.next().unwrap();
    buf.switch();
    let conflict = match buf.current() {
        Err(conflict) => conflict,
        Ok(_) => panic!("expected a borrow conflict"),
    };
    assert_eq!(
        conflict,
        BorrowConflict { on_first_slot: false, requested_exclusive: false }
    );
    buf.release_write(w);
    let r = buf.current().unwrap();
    assert_eq!(*buf.read(&r), 4);
    buf.release_read(r);
}

#[test]
fn exclusive_view_refused_while_shared_outstanding() {
    let mut buf: DoubleBuffer<u8> = DoubleBuffer::new(3, 4);
    let r = buf.current().unwrap();
    buf.switch();
    let conflict = match buf.next() {
        Err(conflict) => conflict,
        Ok(_) => panic!("expected a borrow conflict"),
    };
    assert_eq!(
        conflict,
        BorrowConflict { on_first_slot: true, requested_exclusive: true }
    );
    buf.release_read(r);
    let w = buf.next().unwrap();
    buf.release_write(w);
}

#[test]
fn writes_stay_invisible_until_switch() {
    let mut buf: DoubleBuffer<i32> = DoubleBuffer::new(5, 6);
    let w = buf.next().unwrap();
    buf.write(&w, 42);
    let r = buf.current().unwrap();
    assert_eq!(*buf.read(&r), 5);
    buf.write(&w, 43);
    assert_eq!(*buf.read(&r), 5);
    buf.release_read(r);
    buf.release_write(w);
    buf.switch();
    let r = buf.current().unwrap();
    assert_eq!(*buf.read(&r), 43);
    buf.release_read(r);
}

#[test]
fn double_switch_restores_roles() {
    let mut buf: DoubleBuffer<i32> = DoubleBuffer::new(1, 2);
    buf.switch();
    buf.switch();
    let r = buf.current().unwrap();
    assert_eq!(*buf.read(&r), 1);
    buf.release_read(r);
    let w = buf.next().unwrap();
    assert_eq!(*buf.peek(&w), 2);
    buf.release_write(w);
}

#[test]
fn view_stays_bound_to_its_physical_slot_across_switch() {
    let mut buf: DoubleBuffer<i32> = DoubleBuffer::new(8, 9);
    let r = buf.current().unwrap();
    buf.switch();
    assert_eq!(*buf.read(&r), 8);
    buf.release_read(r);
}
