use vaccel_torch::buffer::{Buffer, NativeBuffer};
use vaccel_torch::Error;

#[test]
fn caller_bytes_are_not_freed_natively() {
    let caller = vec![1u8, 2, 3];
    let mut frees = 0;
    let b = Buffer::new(&caller);
    assert_eq!(b.as_slice(), &[1, 2, 3]);
    let r = b.release();
    assert!(r.detached);
    if r.data_freed {
        frees += 1;
    }
    drop(caller);
    frees += 1;
    assert_eq!(frees, 1);
}

#[test]
fn runtime_owned_buffer_is_freed_once() {
    let b = Buffer::from_vaccel_buffer(NativeBuffer::new(&[4, 5])).ok().unwrap();
    assert_eq!(b.as_slice(), &[4, 5]);
    let r = b.release();
    assert!(!r.detached);
    assert!(r.data_freed);
}

#[test]
fn import_rejects_empty() {
    assert!(matches!(Buffer::from_vaccel_buffer(NativeBuffer { data: None }), Err(Error::InvalidArgument)));
    assert!(matches!(Buffer::from_vaccel_buffer(NativeBuffer::new(&[])), Err(Error::InvalidArgument)));
}

#[test]
fn write_bytes() {
    let mut b = Buffer::new(&[0, 0]);
    assert_eq!(b.write(1, 7), Ok(()));
    assert_eq!(b.write(2, 7), Err(Error::InvalidArgument));
    assert_eq!(b.as_slice(), &[0, 7]);
}

#[test]
fn native_take_then_destroy() {
    let mut n = NativeBuffer::new(&[9]);
    assert_eq!(n.take_data(), Some(vec![9]));
    assert!(!n.destroy());
}

#[test]
fn mutable_view_writes_through() {
    let mut b = Buffer::new(&[1, 2, 3]);
    b.as_mut_slice()[0] = 9;
    assert_eq!(b.as_slice(), &[9, 2, 3]);
}
