use vstd::prelude::*;
use crate::Error;
use crate::status::Code;

verus! {

/// Outcome code of a native call that succeeded.
pub const VACCEL_OK: u32 = 0;

/// Lifecycle of a model resource.
#[derive(Debug, Clone, Copy, PartialEq, Eq, Structural)]
pub enum ModelState {
    Unregistered,
    Sourced,
    Registered,
    Destroyed,
}

/// Where a model is loaded from.
pub enum ModelSource {
    Path(String),
    Bytes(Vec<u8>),
}

/// A model resource with an explicit registration lifecycle.
pub struct SavedModel {
    state: ModelState,
    id: u64,
    source: Option<ModelSource>,
}

/// The string holds no NUL character, so the native side can take it.
pub open spec fn is_native_string(s: Seq<char>) -> bool {
    forall|i: int| 0 <= i < s.len() ==> s[i] != '\0'
}

pub(crate) fn check_native_string(s: &str) -> (r: bool)
    ensures
        r == is_native_string(s@),
{
    let n: usize = s.unicode_len();
    let mut i: usize = 0;
    while i < n
        invariant
            n == s@.len(),
            i <= n,
            forall|j: int| 0 <= j < i ==> s@[j] != '\0',
        decreases n - i,
    {
        if s.get_char(i) == '\0' {
            return false;
        }
        i = i + 1;
    }
    true
}

impl SavedModel {
    pub closed spec fn state(&self) -> ModelState {
        self.state
    }

    /// The identity, present exactly while registered.
    pub closed spec fn identity(&self) -> Option<u64> {
        if self.state == ModelState::Registered {
            Some(self.id)
        } else {
            None
        }
    }

    pub closed spec fn path_view(&self) -> Option<Seq<char>> {
        match self.source {
            Some(ModelSource::Path(p)) => Some(p@),
            _ => None,
        }
    }

    pub closed spec fn bytes_view(&self) -> Option<Seq<u8>> {
        match self.source {
            Some(ModelSource::Bytes(b)) => Some(b@),
            _ => None,
        }
    }

    /// The source is set exactly from the `Sourced` state on, up to
    /// destruction.
    pub closed spec fn wf(&self) -> bool {
        (self.source is Some) <==> (self.state == ModelState::Sourced || self.state
            == ModelState::Registered)
    }

    pub fn new() -> (r: SavedModel)
        ensures
            r.wf(),
            r.state() == ModelState::Unregistered,
            r.identity() is None,
            r.path_view() is None,
            r.bytes_view() is None,
    {
        SavedModel { state: ModelState::Unregistered, id: 0, source: None }
    }

    pub fn id(&self) -> (r: Option<u64>)
        ensures
            r == self.identity(),
    {
        if self.state == ModelState::Registered {
            Some(self.id)
        } else {
            None
        }
    }

    /// Registered, and so usable for execution.
    pub fn initialized(&self) -> (r: bool)
        ensures
            r <==> self.identity() is Some,
    {
        self.state == ModelState::Registered
    }

    /// Attaches a filesystem path, with the runtime's answer `outcome` to
    /// the request. Fails where the model is past `Unregistered`, where the
    /// path holds a NUL character, or with the runtime's code.
    pub fn set_path(&mut self, path: &str, outcome: u32) -> (r: Result<(), Error>)
        requires
            old(self).wf(),
        ensures
            final(self).wf(),
            r is Ok <==> (old(self).state() == ModelState::Unregistered && is_native_string(
                path@,
            ) && outcome == VACCEL_OK),
            r matches Err(e) ==> (e == if old(self).state() != ModelState::Unregistered {
                Error::Torch(Code::FailedPrecondition)
            } else if !is_native_string(path@) {
                Error::InvalidArgument
            } else {
                Error::Runtime(outcome)
            }),
            r is Ok ==> (final(self).state() == ModelState::Sourced && final(self).path_view()
                == Some(path@) && final(self).bytes_view() is None),
            r is Err ==> *final(self) == *old(self),
    {
        if self.state != ModelState::Unregistered {
            return Err(Error::Torch(Code::FailedPrecondition));
        }
        if !check_native_string(path) {
            return Err(Error::InvalidArgument);
        }
        if outcome != VACCEL_OK {
            return Err(Error::Runtime(outcome));
        }
        self.source = Some(ModelSource::Path(path.to_owned()));
        self.state = ModelState::Sourced;
        Ok(())
    }

    /// Attaches in-memory model bytes, with the runtime's answer `outcome`
    /// to the request. Fails where the model is past `Unregistered`, or with
    /// the runtime's code.
    pub fn set_protobuf(&mut self, data: &[u8], outcome: u32) -> (r: Result<(), Error>)
        requires
            old(self).wf(),
        ensures
            final(self).wf(),
            r is Ok <==> (old(self).state() == ModelState::Unregistered && outcome == VACCEL_OK),
            r matches Err(e) ==> (e == if old(self).state() != ModelState::Unregistered {
                Error::Torch(Code::FailedPrecondition)
            } else {
                Error::Runtime(outcome)
            }),
            r is Ok ==> (final(self).state() == ModelState::Sourced && final(self).bytes_view()
                == Some(data@) && final(self).path_view() is None),
            r is Err ==> *final(self) == *old(self),
    {
        if self.state != ModelState::Unregistered {
            return Err(Error::Torch(Code::FailedPrecondition));
        }
        if outcome != VACCEL_OK {
            return Err(Error::Runtime(outcome));
        }
        let mut v: Vec<u8> = Vec::new();
        let n: usize = data.len();
        let mut i: usize = 0;
        while i < n
            invariant
                n == data@.len(),
                i <= n,
                v@ == data@.take(i as int),
            decreases n - i,
        {
            v.push(data[i]);
            i = i + 1;
            assert(v@ =~= data@.take(i as int));
        }
        assert(data@.take(n as int) =~= data@);
        self.source = Some(ModelSource::Bytes(v));
        self.state = ModelState::Sourced;
        Ok(())
    }

    /// Records the runtime's answer to a registration request: `outcome`
    /// is its code and `id` the identity it assigned. Only a sourced model
    /// is registered; a registered one is refused rather than registered
    /// again. A failed registration leaves the model sourced.
    pub fn register(&mut self, outcome: u32, id: u64) -> (r: Result<(), Error>)
        requires
            old(self).wf(),
        ensures
            final(self).wf(),
            r is Ok <==> (old(self).state() == ModelState::Sourced && outcome == VACCEL_OK),
            r matches Err(e) ==> (e == if old(self).state() == ModelState::Registered {
                Error::Torch(Code::AlreadyExists)
            } else if old(self).state() != ModelState::Sourced {
                Error::Torch(Code::FailedPrecondition)
            } else {
                Error::Runtime(outcome)
            }),
            r is Ok ==> (final(self).state() == ModelState::Registered && final(self).identity()
                == Some(id)),
            r is Ok ==> final(self).path_view() == old(self).path_view(),
            r is Ok ==> final(self).bytes_view() == old(self).bytes_view(),
            r is Err ==> *final(self) == *old(self),
    {
        if self.state == ModelState::Registered {
            return Err(Error::Torch(Code::AlreadyExists));
        }
        if self.state != ModelState::Sourced {
            return Err(Error::Torch(Code::FailedPrecondition));
        }
        if outcome != VACCEL_OK {
            return Err(Error::Runtime(outcome));
        }
        self.state = ModelState::Registered;
        self.id = id;
        Ok(())
    }

    /// Sets the path and registers: `set_outcome` and `outcome` are the
    /// runtime's answers to the two requests, and `id` the identity it
    /// assigned. The first failure is returned; registration is attempted
    /// only after the path was set.
    pub fn from_export_dir(self, path: &str, set_outcome: u32, outcome: u32, id: u64) -> (r:
        Result<SavedModel, Error>)
        requires
            self.wf(),
        ensures
            r is Ok <==> (self.state() == ModelState::Unregistered && is_native_string(path@)
                && set_outcome == VACCEL_OK && outcome == VACCEL_OK),
            r matches Ok(m) ==> (m.wf() && m.state() == ModelState::Registered && m.identity()
                == Some(id) && m.path_view() == Some(path@)),
            r matches Err(e) ==> (e == if self.state() != ModelState::Unregistered {
                Error::Torch(Code::FailedPrecondition)
            } else if !is_native_string(path@) {
                Error::InvalidArgument
            } else if set_outcome != VACCEL_OK {
                Error::Runtime(set_outcome)
            } else {
                Error::Runtime(outcome)
            }),
    {
        let mut m = self;
        match m.set_path(path, set_outcome) {
            Err(e) => {
                return Err(e);
            },
            Ok(()) => {},
        }
        match m.register(outcome, id) {
            Err(e) => Err(e),
            Ok(()) => Ok(m),
        }
    }

    /// Sets the in-memory bytes and registers: `set_outcome` and `outcome`
    /// are the runtime's answers to the two requests, and `id` the identity
    /// it assigned. The first failure is returned.
    pub fn from_in_memory(self, protobuf: &[u8], set_outcome: u32, outcome: u32, id: u64) -> (r:
        Result<SavedModel, Error>)
        requires
            self.wf(),
        ensures
            r is Ok <==> (self.state() == ModelState::Unregistered && set_outcome == VACCEL_OK
                && outcome == VACCEL_OK),
            r matches Ok(m) ==> (m.wf() && m.state() == ModelState::Registered && m.identity()
                == Some(id) && m.bytes_view() == Some(protobuf@)),
            r matches Err(e) ==> (e == if self.state() != ModelState::Unregistered {
                Error::Torch(Code::FailedPrecondition)
            } else if set_outcome != VACCEL_OK {
                Error::Runtime(set_outcome)
            } else {
                Error::Runtime(outcome)
            }),
    {
        let mut m = self;
        match m.set_protobuf(protobuf, set_outcome) {
            Err(e) => {
                return Err(e);
            },
            Ok(()) => {},
        }
        match m.register(outcome, id) {
            Err(e) => Err(e),
            Ok(()) => Ok(m),
        }
    }

    /// Destroys a registered model, with the runtime's answer `outcome`.
    /// A model that is not registered is left as it is, and that succeeds.
    pub fn destory(&mut self, outcome: u32) -> (r: Result<(), Error>)
        requires
            old(self).wf(),
        ensures
            destroy_post(*old(self), outcome, *final(self), r),
    {
        if !self.initialized() {
            return Ok(());
        }
        if outcome != VACCEL_OK {
            return Err(Error::Runtime(outcome));
        }
        self.state = ModelState::Destroyed;
        self.source = None;
        Ok(())
    }

    /// The path the model was sourced from, if any.
    pub fn get_path(&self) -> (r: Option<String>)
        ensures
            r matches Some(p) ==> self.path_view() == Some(p@),
            r is None ==> self.path_view() is None,
    {
        match &self.source {
            Some(ModelSource::Path(p)) => Some(p.clone()),
            _ => None,
        }
    }

    /// The in-memory bytes the model was sourced from, if any.
    pub fn get_protobuf(&self) -> (r: Option<&[u8]>)
        ensures
            r matches Some(b) ==> self.bytes_view() == Some(b@),
            r is None ==> self.bytes_view() is None,
    {
        match &self.source {
            Some(ModelSource::Bytes(b)) => Some(b.as_slice()),
            _ => None,
        }
    }
}

/// The capabilities through which a registry manages resources of any kind.
pub trait Resource {
    spec fn resource_wf(&self) -> bool;

    /// The identity, present exactly while the resource is usable.
    spec fn resource_id(&self) -> Option<u64>;

    fn id(&self) -> (r: Option<u64>)
        ensures
            r == self.resource_id(),
    ;

    fn initialized(&self) -> (r: bool)
        ensures
            r <==> self.resource_id() is Some,
    ;

    /// Releases the resource, with the runtime's answer `outcome`; a
    /// resource without identity is left as it is.
    fn destroy(&mut self, outcome: u32) -> (r: Result<(), Error>)
        requires
            old(self).resource_wf(),
        ensures
            final(self).resource_wf(),
            r is Ok <==> (old(self).resource_id() is None || outcome == VACCEL_OK),
            r is Err ==> r == Err::<(), Error>(Error::Runtime(outcome)),
            r is Ok ==> final(self).resource_id() is None,
    ;
}

impl Resource for SavedModel {
    open spec fn resource_wf(&self) -> bool {
        self.wf()
    }

    open spec fn resource_id(&self) -> Option<u64> {
        self.identity()
    }

    fn id(&self) -> (r: Option<u64>) {
        SavedModel::id(self)
    }

    fn initialized(&self) -> (r: bool) {
        SavedModel::initialized(self)
    }

    fn destroy(&mut self, outcome: u32) -> (r: Result<(), Error>) {
        self.destory(outcome)
    }
}

/// What destroying `m` with the runtime's answer `outcome` gives: a model
/// without identity is left as it is and that succeeds; a registered one
/// becomes `Destroyed` where the runtime succeeds, and is left as it is
/// with the runtime's code otherwise.
pub open spec fn destroy_post(
    m: SavedModel,
    outcome: u32,
    after: SavedModel,
    r: Result<(), Error>,
) -> bool {
    &&& after.wf()
    &&& (r is Ok <==> (m.identity() is None || outcome == VACCEL_OK))
    &&& (r is Err ==> (r == Err::<(), Error>(Error::Runtime(outcome)) && after == m))
    &&& (m.identity() is None ==> after == m)
    &&& ((m.identity() is Some && outcome == VACCEL_OK) ==> (after.state()
        == ModelState::Destroyed && after.identity() is None))
}

/// A model has an identity exactly while it is registered: a fresh one has
/// none, a registered one has one.
pub proof fn lemma_identity_iff_registered(m: SavedModel)
    requires
        m.wf(),
    ensures
        m.state() != ModelState::Registered ==> m.identity() is None,
        m.state() == ModelState::Registered ==> m.identity() is Some,
{
}

/// Destroying a model that is not registered succeeds and changes nothing;
/// after a successful destruction a second one succeeds too, whatever the
/// runtime would answer.
pub proof fn lemma_destroy_twice(
    m0: SavedModel,
    o1: u32,
    m1: SavedModel,
    r1: Result<(), Error>,
    o2: u32,
    m2: SavedModel,
    r2: Result<(), Error>,
)
    requires
        m0.wf(),
        destroy_post(m0, o1, m1, r1),
        r1 is Ok,
        destroy_post(m1, o2, m2, r2),
    ensures
        m0.state() != ModelState::Registered ==> m1 == m0,
        m1.identity() is None,
        r2 is Ok,
        m2 == m1,
{
}

} // verus!
