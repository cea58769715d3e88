use vaccel_torch::element::{Float32, Float64, TensorType};
use vaccel_torch::status::{Code, DataType};
use vaccel_torch::tensor::{product, NativeTensor, Tensor, TensorAny};
use vaccel_torch::Error;

fn f32s(v: &[f32]) -> Vec<Float32> {
    v.iter().map(|x| Float32 { bits: x.to_bits() }).collect()
}

#[test]
fn product_of_dims() {
    assert_eq!(product(&[]), Some(1));
    assert_eq!(product(&[2, 3, 4]), Some(24));
    assert_eq!(product(&[u64::MAX, 2]), None);
    assert_eq!(product(&[u64::MAX, u64::MAX, 0]), Some(0));
}

#[test]
fn fresh_tensor_is_zeroed() {
    let t = Tensor::<i32>::new(&[3, 4]);
    assert_eq!(t.len(), 12);
    assert!(t.as_slice().iter().all(|x| *x == 0));
    let b = Tensor::<bool>::new(&[5]);
    assert!(b.as_slice().iter().all(|x| !*x));
    let e = Tensor::<u8>::new(&[2, 0, 7]);
    assert_eq!(e.len(), 0);
    let s = Tensor::<i64>::new(&[]);
    assert_eq!(s.len(), 1);
    assert_eq!(s.nr_dims(), 0);
}

#[test]
fn with_data_checks_length() {
    let t = Tensor::<u16>::new(&[2, 2]);
    assert!(matches!(t.with_data(&[1, 2, 3]), Err(Error::InvalidArgument)));
    let t = Tensor::<u16>::new(&[2, 2]);
    let t = t.with_data(&[1, 2, 3, 4]).ok().unwrap();
    assert_eq!(t.as_slice(), &[1, 2, 3, 4]);
    assert_eq!(t.dim(0), Ok(2));
}

#[test]
fn dim_out_of_range() {
    let t = Tensor::<u8>::new(&[2, 3]);
    assert_eq!(t.dim(1), Ok(3));
    assert_eq!(t.dim(2), Err(Error::Torch(Code::OutOfRange)));
}

#[test]
fn float_scenario() {
    let t = Tensor::<Float32>::new(&[2, 3]);
    assert_eq!(t.len(), 6);
    let vals = [0.0f32, 1.0, 2.0, 3.0, 4.0, 5.0];
    let t = t.with_data(&f32s(&vals)).ok().unwrap();
    assert_eq!(t.dim(1), Ok(3));
    assert_eq!(t.data_type(), DataType::Float);
    let w = t.as_grpc();
    assert_eq!(w.dims, vec![2, 3]);
    assert_eq!(DataType::from_int(w.data_type), DataType::Float);
    assert_eq!(w.data.len(), 24);
    let expected: Vec<u8> = vals.iter().flat_map(|x| x.to_le_bytes()).collect();
    assert_eq!(w.data, expected);
}

#[test]
fn wire_round_trip() {
    let t = Tensor::<i16>::new(&[3]).with_data(&[-1, 300, i16::MIN]).ok().unwrap();
    let w = t.as_grpc();
    assert_eq!(w.data, vec![0xff, 0xff, 0x2c, 0x01, 0x00, 0x80]);
    let back = Tensor::<i16>::from_vaccel_tensor(Some(&w.to_native())).ok().unwrap();
    assert_eq!(back.as_slice(), &[-1, 300, i16::MIN]);
    assert_eq!(back.dim(0), Ok(3));
    assert_eq!(back.data_type(), DataType::Int16);

    let d = Tensor::<Float64>::new(&[2])
        .with_data(&[Float64 { bits: 2.5f64.to_bits() }, Float64 { bits: (-1.0f64).to_bits() }])
        .ok()
        .unwrap();
    let back = Tensor::<Float64>::from_vaccel_tensor(Some(&d.as_grpc().to_native())).ok().unwrap();
    assert_eq!(f64::from_bits(back.as_slice()[0].bits), 2.5);
    assert_eq!(f64::from_bits(back.as_slice()[1].bits), -1.0);

    let u = Tensor::<u64>::new(&[1, 2]).with_data(&[u64::MAX, 7]).ok().unwrap();
    let back = Tensor::<u64>::from_vaccel_tensor(Some(&u.as_grpc().to_native())).ok().unwrap();
    assert_eq!(back.as_slice(), &[u64::MAX, 7]);
}

#[test]
fn import_rejects_type_mismatch() {
    let native = NativeTensor { dims: vec![2], data_type: DataType::Int32.to_int(), data: None };
    assert!(matches!(Tensor::<i64>::from_vaccel_tensor(Some(&native)), Err(Error::InvalidArgument)));
    assert!(matches!(Tensor::<Float32>::from_vaccel_tensor(Some(&native)), Err(Error::InvalidArgument)));
    assert!(Tensor::<i32>::from_vaccel_tensor(Some(&native)).is_ok());
    let unknown = NativeTensor { dims: vec![2], data_type: 99, data: None };
    assert!(matches!(Tensor::<i32>::from_vaccel_tensor(Some(&unknown)), Err(Error::InvalidArgument)));
    assert_eq!(native.data_type(), DataType::Int32);
}

#[test]
fn import_null_and_missing_data() {
    assert!(matches!(Tensor::<u8>::from_vaccel_tensor(None), Err(Error::InvalidArgument)));
    let native = NativeTensor { dims: vec![2, 2], data_type: DataType::UInt8.to_int(), data: None };
    let t = Tensor::<u8>::from_vaccel_tensor(Some(&native)).ok().unwrap();
    assert_eq!(t.as_slice(), &[0, 0, 0, 0]);
    let short = NativeTensor { dims: vec![2, 2], data_type: DataType::UInt8.to_int(), data: Some(vec![1, 2, 3]) };
    assert!(matches!(Tensor::<u8>::from_vaccel_tensor(Some(&short)), Err(Error::InvalidArgument)));
}

#[test]
fn set_element() {
    let mut t = Tensor::<u32>::new(&[2]);
    assert_eq!(t.set(1, 9), Ok(()));
    assert_eq!(t.set(2, 9), Err(Error::Torch(Code::OutOfRange)));
    assert_eq!(t.as_slice(), &[0, 9]);
    let w = t.as_grpc();
    assert_eq!(w.data, vec![0, 0, 0, 0, 9, 0, 0, 0]);
}

#[test]
fn element_units() {
    assert_eq!(<i8 as TensorType>::one(), 1);
    assert_eq!(<i8 as TensorType>::zero(), 0);
    assert_eq!(f32::from_bits(Float32::one().bits), 1.0);
    assert_eq!(f64::from_bits(Float64::one().bits), 1.0);
    assert_eq!(<bool as TensorType>::data_type(), DataType::Bool);
}

#[test]
fn mutable_elements_write_through() {
    let mut t = Tensor::<i8>::new(&[3]);
    t.as_mut_slice()[2] = -4;
    assert_eq!(t.as_slice(), &[0, 0, -4]);
    assert_eq!(t.as_grpc().data, vec![0, 0, 0xfc]);
}

#[test]
fn native_record_to_wire() {
    let native = NativeTensor { dims: vec![1, 2], data_type: DataType::UInt8.to_int(), data: Some(vec![5, 6]) };
    let w = native.to_wire().unwrap();
    assert_eq!(w.dims, vec![1, 2]);
    assert_eq!(w.data, vec![5, 6]);
    assert_eq!(w.data_type(), DataType::UInt8);
    let empty = NativeTensor { dims: vec![1], data_type: 4, data: None };
    assert!(empty.to_wire().is_none());
}
