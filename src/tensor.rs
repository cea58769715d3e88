use vstd::prelude::*;
use crate::Error;
use crate::bytes::{le_value, push_le, read_le, lemma_le_bytes_len, lemma_le_round_trip};
use crate::element::{TensorType, elem_bytes};
use crate::status::{Code, DataType, type_of_tag, tag_of, lemma_tag_round_trip};

verus! {

/// Access to the element type of anything that stands for a native tensor.
pub trait TensorAny {
    spec fn spec_type(&self) -> DataType;

    fn data_type(&self) -> (r: DataType)
        ensures
            r == self.spec_type(),
    ;
}

impl<T: TensorType> TensorAny for Tensor<T> {
    open spec fn spec_type(&self) -> DataType {
        T::spec_data_type()
    }

    fn data_type(&self) -> (r: DataType) {
        T::data_type()
    }
}

impl TensorAny for WireTensor {
    open spec fn spec_type(&self) -> DataType {
        type_of_tag(self.data_type)
    }

    fn data_type(&self) -> (r: DataType) {
        DataType::from_int(self.data_type)
    }
}

impl TensorAny for NativeTensor {
    open spec fn spec_type(&self) -> DataType {
        type_of_tag(self.data_type)
    }

    fn data_type(&self) -> (r: DataType) {
        DataType::from_int(self.data_type)
    }
}

/// Product of the dimension sizes; the empty product is 1.
pub open spec fn spec_product(s: Seq<u64>) -> nat
    decreases s.len(),
{
    if s.len() == 0 {
        1
    } else {
        spec_product(s.drop_last()) * s.last() as nat
    }
}

proof fn lemma_product_zero(s: Seq<u64>, j: int)
    requires
        0 <= j < s.len(),
        s[j] == 0,
    ensures
        spec_product(s) == 0,
    decreases s.len(),
{
    let p = spec_product(s.drop_last());
    let l = s.last() as nat;
    if j < s.len() - 1 {
        lemma_product_zero(s.drop_last(), j);
        assert(p * l == 0) by (nonlinear_arith)
            requires
                p == 0,
        ;
    } else {
        assert(p * l == 0) by (nonlinear_arith)
            requires
                l == 0,
        ;
    }
}

proof fn lemma_product_prefix(s: Seq<u64>, k: int)
    requires
        0 <= k <= s.len(),
        forall|j: int| 0 <= j < s.len() ==> s[j] >= 1,
    ensures
        spec_product(s.take(k)) <= spec_product(s),
    decreases s.len(),
{
    if k < s.len() {
        let d = s.drop_last();
        lemma_product_prefix(d, k);
        assert(d.take(k) =~= s.take(k));
        let p = spec_product(d);
        let l = s.last() as nat;
        assert(p <= p * l) by (nonlinear_arith)
            requires
                l >= 1,
        ;
    } else {
        assert(s.take(k) =~= s);
    }
}

/// The product of `values`, or `None` where it does not fit in a `u64`.
pub fn product(values: &[u64]) -> (r: Option<u64>)
    ensures
        r matches Some(p) <==> spec_product(values@) <= u64::MAX,
        r matches Some(p) ==> p == spec_product(values@),
{
    let n: usize = values.len();
    let mut k: usize = 0;
    while k < n
        invariant
            n == values@.len(),
            k <= n,
            forall|j: int| 0 <= j < k ==> values@[j] >= 1,
        decreases n - k,
    {
        if values[k] == 0 {
            proof {
                lemma_product_zero(values@, k as int);
            }
            return Some(0);
        }
        k = k + 1;
    }
    let mut acc: u64 = 1;
    let mut i: usize = 0;
    while i < n
        invariant
            n == values@.len(),
            i <= n,
            forall|j: int| 0 <= j < n ==> values@[j] >= 1,
            acc == spec_product(values@.take(i as int)),
        decreases n - i,
    {
        assert(values@.take(i + 1).drop_last() =~= values@.take(i as int));
        match acc.checked_mul(values[i]) {
            Some(x) => {
                acc = x;
            },
            None => {
                proof {
                    lemma_product_prefix(values@, i + 1);
                }
                return None;
            },
        }
        i = i + 1;
    }
    assert(values@.take(n as int) =~= values@);
    Some(acc)
}

/// The native bytes of a sequence of elements, one after another.
pub open spec fn tensor_bytes<T: TensorType>(s: Seq<T>) -> Seq<u8>
    decreases s.len(),
{
    if s.len() == 0 {
        Seq::empty()
    } else {
        tensor_bytes(s.drop_last()) + elem_bytes(s.last())
    }
}

/// The `count` elements read from native bytes, each from its own
/// `width()` bytes.
pub open spec fn decoded<T: TensorType>(b: Seq<u8>, count: nat) -> Seq<T> {
    Seq::new(
        count,
        |i: int| T::from_bits(le_value(b.subrange(i * T::width(), i * T::width() + T::width()))),
    )
}

/// A native record can be imported as a tensor of `T`: its tag names `T`,
/// its element bytes fit in memory, and its data, where present, holds
/// exactly one element's worth of bytes per element.
pub open spec fn import_ok<T: TensorType>(t: NativeTensor) -> bool {
    &&& type_of_tag(t.data_type) == T::spec_data_type()
    &&& spec_product(t.dims@) * T::width() <= usize::MAX
    &&& (t.data matches Some(b) ==> b@.len() == spec_product(t.dims@) * T::width())
}

/// The elements of an imported record: decoded from its data, or all zero
/// where it has none.
pub open spec fn imported_data<T: TensorType>(t: NativeTensor) -> Seq<T> {
    match t.data {
        Some(b) => decoded::<T>(b@, spec_product(t.dims@)),
        None => Seq::new(spec_product(t.dims@), |i: int| T::spec_zero()),
    }
}

/// A tensor record as the native runtime holds it: dimensions, element type
/// tag and, where allocated, the element bytes.
pub struct NativeTensor {
    pub dims: Vec<u64>,
    pub data_type: u32,
    pub data: Option<Vec<u8>>,
}

/// The serialisable form of a tensor handed to a transport layer.
pub struct WireTensor {
    pub dims: Vec<u64>,
    pub data_type: u32,
    pub data: Vec<u8>,
}

fn copy_slice<T: Copy>(s: &[T]) -> (r: Vec<T>)
    ensures
        r@ == s@,
{
    let n: usize = s.len();
    let mut v: Vec<T> = Vec::new();
    let mut i: usize = 0;
    while i < n
        invariant
            n == s@.len(),
            i <= n,
            v@ == s@.take(i as int),
        decreases n - i,
    {
        v.push(s[i]);
        i = i + 1;
        assert(v@ =~= s@.take(i as int));
    }
    assert(s@.take(n as int) =~= s@);
    v
}

impl NativeTensor {
    /// The wire form of the record: its dimensions, tag and bytes; none
    /// where it holds no data.
    pub fn to_wire(&self) -> (r: Option<WireTensor>)
        ensures
            r is Some <==> self.data is Some,
            r matches Some(w) ==> (w.dims@ == self.dims@ && w.data_type == self.data_type
                && w.data@ == self.data.unwrap()@),
    {
        match &self.data {
            None => None,
            Some(d) => Some(
                WireTensor {
                    dims: copy_slice(self.dims.as_slice()),
                    data_type: self.data_type,
                    data: copy_slice(d.as_slice()),
                },
            ),
        }
    }
}

impl WireTensor {
    /// A native tensor record holding the same dimensions, tag and bytes.
    pub fn to_native(&self) -> (r: NativeTensor)
        ensures
            r.dims@ == self.dims@,
            r.data_type == self.data_type,
            r.data matches Some(d) && d@ == self.data@,
    {
        NativeTensor {
            dims: copy_slice(self.dims.as_slice()),
            data_type: self.data_type,
            data: Some(copy_slice(self.data.as_slice())),
        }
    }
}

/// A typed, dimensioned tensor whose elements are all of type `T`.
pub struct Tensor<T: TensorType> {
    dims: Vec<u64>,
    data_count: usize,
    data: Vec<T>,
}

impl<T: TensorType> Tensor<T> {
    pub closed spec fn dims_view(&self) -> Seq<u64> {
        self.dims@
    }

    pub closed spec fn data_view(&self) -> Seq<T> {
        self.data@
    }

    /// The element count is the product of the dimensions, and the element
    /// bytes fit in memory.
    pub closed spec fn wf(&self) -> bool {
        &&& self.data@.len() == self.data_count
        &&& self.data_count == spec_product(self.dims@)
        &&& self.data_count * T::width() <= usize::MAX
    }

    pub proof fn lemma_wf(&self)
        requires
            self.wf(),
        ensures
            self.data_view().len() == spec_product(self.dims_view()),
            self.data_view().len() * T::width() <= usize::MAX,
    {
    }

    /// A fresh tensor of the given dimensions, every element zero.
    pub fn new(dims: &[u64]) -> (r: Tensor<T>)
        requires
            spec_product(dims@) * T::width() <= usize::MAX,
        ensures
            r.wf(),
            r.dims_view() == dims@,
            r.data_view() == Seq::new(spec_product(dims@), |i: int| T::spec_zero()),
    {
        let dims_v = copy_slice(dims);
        proof {
            T::lemma_encoding(T::spec_zero());
            assert(spec_product(dims@) <= spec_product(dims@) * T::width()) by (nonlinear_arith)
                requires
                    T::width() >= 1,
            ;
        }
        let count = match product(dims) {
            Some(p) => p as usize,
            None => 0,
        };
        let mut data: Vec<T> = Vec::new();
        let mut i: usize = 0;
        while i < count
            invariant
                i <= count,
                count == spec_product(dims@),
                data@ == Seq::new(i as nat, |j: int| T::spec_zero()),
            decreases count - i,
        {
            data.push(T::zero());
            i = i + 1;
            assert(data@ =~= Seq::new(i as nat, |j: int| T::spec_zero()));
        }
        Tensor { dims: dims_v, data_count: count, data }
    }

    /// Imports a native tensor record. Fails where the record is absent,
    /// its tag names another element type, its element count or byte size
    /// does not fit, or its bytes are not exactly one element's worth per
    /// element. A record without data gives zero elements.
    pub fn from_vaccel_tensor(tensor: Option<&NativeTensor>) -> (r: Result<Tensor<T>, Error>)
        ensures
            r is Ok <==> (tensor is Some && import_ok::<T>(*tensor.unwrap())),
            r is Err ==> r == Err::<Tensor<T>, Error>(Error::InvalidArgument),
            r matches Ok(x) ==> (x.wf() && x.dims_view() == tensor.unwrap().dims@
                && x.data_view() == imported_data::<T>(*tensor.unwrap())),
    {
        let t = match tensor {
            None => {
                return Err(Error::InvalidArgument);
            },
            Some(t) => t,
        };
        if DataType::from_int(t.data_type) != T::data_type() {
            return Err(Error::InvalidArgument);
        }
        let w: usize = T::size();
        proof {
            T::lemma_encoding(T::spec_zero());
        }
        let count: usize = match product(t.dims.as_slice()) {
            None => {
                proof {
                    assert(spec_product(t.dims@) <= spec_product(t.dims@) * T::width())
                        by (nonlinear_arith)
                        requires
                            T::width() >= 1,
                    ;
                }
                return Err(Error::InvalidArgument);
            },
            Some(p) => {
                if p > (usize::MAX as u64) / (w as u64) {
                    proof {
                        assert(p * w > usize::MAX) by (nonlinear_arith)
                            requires
                                p > (usize::MAX as u64) / (w as u64),
                                w >= 1,
                        ;
                    }
                    return Err(Error::InvalidArgument);
                }
                proof {
                    assert(p * w <= usize::MAX) by (nonlinear_arith)
                        requires
                            p <= (usize::MAX as u64) / (w as u64),
                            w >= 1,
                    ;
                }
                p as usize
            },
        };
        match &t.data {
            None => {
                let x = Tensor::<T>::new(t.dims.as_slice());
                Ok(x)
            },
            Some(b) => {
                if b.len() != count * w {
                    return Err(Error::InvalidArgument);
                }
                let data = decode_elements::<T>(b.as_slice(), count);
                Ok(Tensor { dims: copy_slice(t.dims.as_slice()), data_count: count, data })
            },
        }
    }

    /// Overwrites every element with `data`, keeping the dimensions; fails
    /// where the lengths differ.
    pub fn with_data(self, data: &[T]) -> (r: Result<Tensor<T>, Error>)
        requires
            self.wf(),
        ensures
            r is Ok <==> data@.len() == self.data_view().len(),
            r is Err ==> r == Err::<Tensor<T>, Error>(Error::InvalidArgument),
            r matches Ok(x) ==> x.wf() && x.dims_view() == self.dims_view() && x.data_view()
                == data@,
    {
        if data.len() != self.data_count {
            return Err(Error::InvalidArgument);
        }
        let mut s = self;
        let n: usize = s.data_count;
        let mut i: usize = 0;
        while i < n
            invariant
                s.wf(),
                n == s.data_count,
                n == data@.len(),
                s.dims@ == self.dims@,
                i <= n,
                forall|j: int| 0 <= j < i ==> s.data@[j] == data@[j],
            decreases n - i,
        {
            s.data.set(i, data[i]);
            i = i + 1;
        }
        assert(s.data@ =~= data@);
        Ok(s)
    }

    pub fn nr_dims(&self) -> (r: u64)
        ensures
            r == self.dims_view().len(),
    {
        self.dims.len() as u64
    }

    pub fn dim(&self, idx: usize) -> (r: Result<u64, Error>)
        ensures
            r is Ok <==> idx < self.dims_view().len(),
            r is Err ==> r == Err::<u64, Error>(Error::Torch(Code::OutOfRange)),
            r matches Ok(d) ==> d == self.dims_view()[idx as int],
    {
        if idx >= self.dims.len() {
            return Err(Error::Torch(Code::OutOfRange));
        }
        Ok(self.dims[idx])
    }

    pub fn data_type(&self) -> (r: DataType)
        ensures
            r == T::spec_data_type(),
    {
        T::data_type()
    }

    /// The element count.
    pub fn len(&self) -> (r: usize)
        requires
            self.wf(),
        ensures
            r == self.data_view().len(),
    {
        self.data.len()
    }

    /// The elements, in order.
    pub fn as_slice(&self) -> (r: &[T])
        ensures
            r@ == self.data_view(),
    {
        self.data.as_slice()
    }

    /// The elements, for writing in place; the dimensions stay.
    pub fn as_mut_slice(&mut self) -> (r: &mut [T])
        requires
            old(self).wf(),
        ensures
            r@ == old(self).data_view(),
            final(r)@.len() == r@.len() ==> final(self).wf(),
            final(self).dims_view() == old(self).dims_view(),
            final(self).data_view() == final(r)@,
    {
        self.data.as_mut_slice()
    }

    /// Writes one element; fails where `idx` is past the last element.
    pub fn set(&mut self, idx: usize, v: T) -> (r: Result<(), Error>)
        requires
            old(self).wf(),
        ensures
            final(self).wf(),
            final(self).dims_view() == old(self).dims_view(),
            r is Ok <==> idx < old(self).data_view().len(),
            r is Err ==> r == Err::<(), Error>(Error::Torch(Code::OutOfRange)),
            r is Ok ==> final(self).data_view() == old(self).data_view().update(idx as int, v),
            r is Err ==> final(self).data_view() == old(self).data_view(),
    {
        if idx >= self.data.len() {
            return Err(Error::Torch(Code::OutOfRange));
        }
        self.data.set(idx, v);
        Ok(())
    }

    /// The wire form: the dimensions, the element tag and the element bytes.
    pub fn as_grpc(&self) -> (r: WireTensor)
        requires
            self.wf(),
        ensures
            r.dims@ == self.dims_view(),
            r.data_type == tag_of(T::spec_data_type()),
            r.data@ == tensor_bytes(self.data_view()),
    {
        let mut out: Vec<u8> = Vec::new();
        let n: usize = self.data.len();
        let w: usize = T::size();
        let mut i: usize = 0;
        while i < n
            invariant
                n == self.data@.len(),
                w == T::width(),
                i <= n,
                out@ == tensor_bytes(self.data@.take(i as int)),
            decreases n - i,
        {
            let v = self.data[i];
            proof {
                T::lemma_encoding(v);
            }
            push_le(&mut out, v.to_bits(), w);
            proof {
                let s = self.data@.take(i + 1);
                assert(s.drop_last() =~= self.data@.take(i as int));
            }
            i = i + 1;
        }
        assert(self.data@.take(n as int) =~= self.data@);
        WireTensor {
            dims: copy_slice(self.dims.as_slice()),
            data_type: T::data_type().to_int(),
            data: out,
        }
    }
}

fn decode_elements<T: TensorType>(b: &[u8], count: usize) -> (r: Vec<T>)
    requires
        b@.len() == count * T::width(),
        count * T::width() <= usize::MAX,
        1 <= T::width() <= 8,
    ensures
        r@ == decoded::<T>(b@, count as nat),
{
    let w: usize = T::size();
    let mut v: Vec<T> = Vec::new();
    let mut i: usize = 0;
    while i < count
        invariant
            w == T::width(),
            1 <= w <= 8,
            b@.len() == count * w,
            count * w <= usize::MAX,
            i <= count,
            v@ == decoded::<T>(b@, count as nat).take(i as int),
        decreases count - i,
    {
        assert((i + 1) * w <= count * w) by (nonlinear_arith)
            requires
                i < count,
        ;
        assert((i + 1) * w == i * w + w) by (nonlinear_arith);
        let x = read_le(b, i * w, w);
        v.push(T::of_bits(x));
        i = i + 1;
        assert(v@ =~= decoded::<T>(b@, count as nat).take(i as int));
    }
    assert(decoded::<T>(b@, count as nat).take(count as int) =~= decoded::<T>(
        b@,
        count as nat,
    ));
    v
}

proof fn lemma_tensor_bytes_len<T: TensorType>(s: Seq<T>)
    requires
        1 <= T::width() <= 8,
    ensures
        tensor_bytes(s).len() == s.len() * T::width(),
    decreases s.len(),
{
    if s.len() > 0 {
        lemma_tensor_bytes_len(s.drop_last());
        lemma_le_bytes_len(T::bits(s.last()), T::width());
        assert((s.len() - 1) * T::width() + T::width() == s.len() * T::width())
            by (nonlinear_arith);
    }
}

proof fn lemma_tensor_bytes_at<T: TensorType>(s: Seq<T>, i: int)
    requires
        1 <= T::width() <= 8,
        0 <= i < s.len(),
    ensures
        tensor_bytes(s).subrange(i * T::width(), i * T::width() + T::width()) == elem_bytes(s[i]),
    decreases s.len(),
{
    let w = T::width() as int;
    let d = s.drop_last();
    lemma_tensor_bytes_len(d);
    lemma_le_bytes_len(T::bits(s.last()), T::width());
    let a = tensor_bytes(d);
    let b = elem_bytes(s.last());
    assert(tensor_bytes(s) == a + b);
    if i == s.len() - 1 {
        assert(i * w == d.len() * w);
        assert((a + b).subrange(i * w, i * w + w) =~= b);
    } else {
        lemma_tensor_bytes_at(d, i);
        let n = d.len() as int;
        assert(i * w + w <= n * w) by (nonlinear_arith)
            requires
                i < n,
                w >= 1,
        ;
        assert((a + b).subrange(i * w, i * w + w) =~= a.subrange(i * w, i * w + w));
    }
}

/// Converting a tensor to its wire form and importing that form back gives
/// the same dimensions, element type and elements.
pub proof fn lemma_wire_round_trip<T: TensorType>(t: &Tensor<T>, w: NativeTensor)
    requires
        t.wf(),
        w.dims@ == t.dims_view(),
        w.data_type == tag_of(T::spec_data_type()),
        w.data matches Some(b) && b@ == tensor_bytes(t.data_view()),
    ensures
        import_ok::<T>(w),
        type_of_tag(w.data_type) == T::spec_data_type(),
        imported_data::<T>(w) == t.data_view(),
{
    let s = t.data_view();
    T::lemma_encoding(T::spec_zero());
    lemma_tag_round_trip(T::spec_data_type(), w.data_type);
    lemma_tensor_bytes_len(s);
    let b = tensor_bytes(s);
    assert forall|i: int| 0 <= i < s.len() implies T::from_bits(
        le_value(b.subrange(i * T::width(), i * T::width() + T::width())),
    ) == s[i] by {
        lemma_tensor_bytes_at(s, i);
        T::lemma_encoding(s[i]);
        lemma_le_round_trip(T::bits(s[i]), T::width());
    }
    assert(imported_data::<T>(w) =~= s);
}

/// A native record whose tag names another element type is never imported.
pub proof fn lemma_type_mismatch_rejected<T: TensorType>(t: NativeTensor)
    requires
        type_of_tag(t.data_type) != T::spec_data_type(),
    ensures
        !import_ok::<T>(t),
{
}

} // verus!
