use vstd::prelude::*;
use crate::Error;

verus! {

/// A native buffer object: it holds, or no longer holds, a data region.
/// Destroying it frees the region it still holds.
pub struct NativeBuffer {
    pub data: Option<Vec<u8>>,
}

impl NativeBuffer {
    /// Allocates a native buffer object over the given bytes.
    pub fn new(data: &[u8]) -> (r: NativeBuffer)
        ensures
            r.data matches Some(d) && d@ == data@,
    {
        let mut v: Vec<u8> = Vec::new();
        let n: usize = data.len();
        let mut i: usize = 0;
        while i < n
            invariant
                n == data@.len(),
                i <= n,
                v@ == data@.take(i as int),
            decreases n - i,
        {
            v.push(data[i]);
            i = i + 1;
            assert(v@ =~= data@.take(i as int));
        }
        assert(data@.take(n as int) =~= data@);
        NativeBuffer { data: Some(v) }
    }

    /// Detaches the data region, so that destroying the object no longer
    /// frees it; returns the region.
    pub fn take_data(&mut self) -> (r: Option<Vec<u8>>)
        ensures
            r == old(self).data,
            final(self).data is None,
    {
        self.data.take()
    }

    /// Destroys the object; returns whether it freed a data region.
    pub fn destroy(self) -> (freed: bool)
        ensures
            freed <==> self.data is Some,
    {
        self.data.is_some()
    }
}

/// What releasing a buffer did.
pub struct Release {
    /// The data region was detached from the native object first.
    pub detached: bool,
    /// Destroying the native object freed a data region.
    pub data_freed: bool,
}

/// A byte region wrapped in a native buffer object, with a record of which
/// side frees the region.
pub struct Buffer {
    inner: NativeBuffer,
    vaccel_owned: bool,
}

impl Buffer {
    /// The bytes of the region; empty where the object holds none.
    pub closed spec fn bytes_view(&self) -> Seq<u8> {
        match self.inner.data {
            Some(d) => d@,
            None => Seq::empty(),
        }
    }

    pub closed spec fn has_data(&self) -> bool {
        self.inner.data is Some
    }

    /// The native runtime, not this wrapper, frees the region.
    pub closed spec fn runtime_owned(&self) -> bool {
        self.vaccel_owned
    }

    /// Wraps caller bytes; the runtime does not own them.
    pub fn new(data: &[u8]) -> (r: Buffer)
        ensures
            r.bytes_view() == data@,
            r.has_data(),
            !r.runtime_owned(),
    {
        Buffer { inner: NativeBuffer::new(data), vaccel_owned: false }
    }

    /// Takes over a native buffer whose region the runtime owns; fails
    /// where it holds no region or an empty one.
    pub fn from_vaccel_buffer(buffer: NativeBuffer) -> (r: Result<Buffer, Error>)
        ensures
            r is Ok <==> (buffer.data matches Some(d) && d@.len() > 0),
            r is Err ==> r == Err::<Buffer, Error>(Error::InvalidArgument),
            r matches Ok(b) ==> (b.runtime_owned() && b.has_data() && buffer.data
                == Some(b.inner_view())),
    {
        let ok = match &buffer.data {
            None => false,
            Some(d) => d.len() > 0,
        };
        if !ok {
            return Err(Error::InvalidArgument);
        }
        Ok(Buffer { inner: buffer, vaccel_owned: true })
    }

    pub closed spec fn inner_view(&self) -> Vec<u8> {
        self.inner.data.unwrap()
    }

    /// The bytes of the region, as the native object holds them now.
    pub fn as_slice(&self) -> (r: &[u8])
        ensures
            r@ == self.bytes_view(),
    {
        match &self.inner.data {
            Some(d) => d.as_slice(),
            None => &[],
        }
    }

    /// The bytes of the region, for writing in place.
    pub fn as_mut_slice(&mut self) -> (r: &mut [u8])
        ensures
            r@ == old(self).bytes_view(),
            final(self).runtime_owned() == old(self).runtime_owned(),
            final(self).has_data() == old(self).has_data(),
            old(self).has_data() ==> final(self).bytes_view() == final(r)@,
    {
        match &mut self.inner.data {
            Some(d) => d.as_mut_slice(),
            None => &mut [],
        }
    }

    /// Writes one byte of the region; fails where `idx` is past its end.
    pub fn write(&mut self, idx: usize, v: u8) -> (r: Result<(), Error>)
        ensures
            r is Ok <==> idx < old(self).bytes_view().len(),
            r is Err ==> r == Err::<(), Error>(Error::InvalidArgument),
            r is Ok ==> final(self).bytes_view() == old(self).bytes_view().update(idx as int, v),
            r is Err ==> final(self).bytes_view() == old(self).bytes_view(),
            final(self).runtime_owned() == old(self).runtime_owned(),
            final(self).has_data() == old(self).has_data(),
    {
        match &mut self.inner.data {
            Some(d) => {
                if idx < d.len() {
                    d.set(idx, v);
                    Ok(())
                } else {
                    Err(Error::InvalidArgument)
                }
            },
            None => Err(Error::InvalidArgument),
        }
    }

    /// Releases the buffer. Where the runtime does not own the region, it is
    /// detached first, so that destroying the native object cannot free it;
    /// the native object itself is always destroyed.
    pub fn release(self) -> (r: Release)
        ensures
            r.detached == !self.runtime_owned(),
            r.data_freed == frees_region(self),
    {
        let mut inner = self.inner;
        let detached = !self.vaccel_owned;
        if detached {
            let _ = inner.take_data();
        }
        let freed = inner.destroy();
        Release { detached, data_freed: freed }
    }
}

/// Releasing the buffer frees its region on the native side.
pub open spec fn frees_region(b: Buffer) -> bool {
    b.runtime_owned() && b.has_data()
}

/// Releasing a buffer made from caller bytes never frees those bytes on the
/// native side: the caller's own single free is the only one.
pub proof fn lemma_caller_bytes_not_freed(data: Seq<u8>, b: Buffer)
    requires
        b.bytes_view() == data,
        !b.runtime_owned(),
    ensures
        !frees_region(b),
{
}

} // verus!
