use vaccel_torch::saved_model::{ModelState, Resource, SavedModel};
use vaccel_torch::status::Code;
use vaccel_torch::Error;

#[test]
fn fresh_model_has_no_identity() {
    let m = SavedModel::new();
    assert_eq!(m.id(), None);
    assert!(!m.initialized());
}

#[test]
fn register_from_path() {
    let m = SavedModel::new().from_export_dir("/models/resnet.pt", 0, 0, 5).ok().unwrap();
    assert_eq!(m.id(), Some(5));
    assert!(m.initialized());
    assert_eq!(m.get_path(), Some(String::from("/models/resnet.pt")));
    assert_eq!(m.get_protobuf(), None);
}

#[test]
fn register_from_memory() {
    let m = SavedModel::new().from_in_memory(&[1, 2, 3], 0, 0, 8).ok().unwrap();
    assert_eq!(m.id(), Some(8));
    assert_eq!(m.get_protobuf(), Some(&[1u8, 2, 3][..]));
    assert_eq!(m.get_path(), None);
}

#[test]
fn register_failures() {
    assert_eq!(SavedModel::new().from_export_dir("a\0b", 0, 0, 1).err(), Some(Error::InvalidArgument));
    assert_eq!(SavedModel::new().from_in_memory(&[1], 0, 12, 1).err(), Some(Error::Runtime(12)));
    let mut m = SavedModel::new();
    assert_eq!(m.register(0, 1), Err(Error::Torch(Code::FailedPrecondition)));
    assert_eq!(m.set_path("p", 0), Ok(()));
    assert_eq!(m.set_path("q", 0), Err(Error::Torch(Code::FailedPrecondition)));
    assert_eq!(m.register(3, 1), Err(Error::Runtime(3)));
    assert_eq!(m.id(), None);
    assert_eq!(m.register(0, 4), Ok(()));
    assert_eq!(m.register(0, 6), Err(Error::Torch(Code::AlreadyExists)));
    assert_eq!(m.id(), Some(4));
}

#[test]
fn destroy_is_idempotent() {
    let mut fresh = SavedModel::new();
    assert_eq!(fresh.destory(9), Ok(()));
    let mut m = SavedModel::new().from_in_memory(&[1], 0, 0, 2).ok().unwrap();
    assert_eq!(m.destory(4), Err(Error::Runtime(4)));
    assert_eq!(m.id(), Some(2));
    assert_eq!(m.destroy(0), Ok(()));
    assert_eq!(m.id(), None);
    assert_eq!(m.destroy(7), Ok(()));
    let _ = ModelState::Destroyed;
}

#[test]
fn resource_capabilities() {
    let mut m = SavedModel::new().from_export_dir("m.pt", 0, 0, 3).ok().unwrap();
    let r: &mut dyn Resource = &mut m;
    assert_eq!(r.id(), Some(3));
    assert!(r.initialized());
    assert_eq!(r.destroy(0), Ok(()));
    assert!(!r.initialized());
}

#[test]
fn native_setter_failures() {
    assert_eq!(SavedModel::new().from_export_dir("m.pt", 5, 0, 1).err(), Some(Error::Runtime(5)));
    assert_eq!(SavedModel::new().from_export_dir("m.pt", 5, 6, 1).err(), Some(Error::Runtime(5)));
    assert_eq!(SavedModel::new().from_export_dir("m.pt", 0, 6, 1).err(), Some(Error::Runtime(6)));
    assert_eq!(SavedModel::new().from_in_memory(&[1], 7, 0, 1).err(), Some(Error::Runtime(7)));
    let mut m = SavedModel::new();
    assert_eq!(m.set_protobuf(&[1], 2), Err(Error::Runtime(2)));
    assert_eq!(m.get_protobuf(), None);
    assert_eq!(m.set_path("p", 9), Err(Error::Runtime(9)));
    assert_eq!(m.get_path(), None);
    assert_eq!(m.set_path("p", 0), Ok(()));
}
