use vstd::prelude::*;
use crate::Error;
use crate::profile::{Timer, last_open, close_shot, now_nanos, sum_shots, total_time};
use crate::saved_model::{check_native_string, is_native_string};

verus! {

/// A named region of an application whose entries and exits are timed.
pub struct ProfRegion {
    name: String,
    samples: Vec<Timer>,
}

impl ProfRegion {
    pub closed spec fn name_view(&self) -> Seq<char> {
        self.name@
    }

    /// One shot per entry, closed at the matching exit.
    pub closed spec fn samples_view(&self) -> Seq<Timer> {
        self.samples@
    }

    /// A region with no samples; fails where the name holds a NUL
    /// character.
    pub fn new(name: &str) -> (r: Result<ProfRegion, Error>)
        ensures
            r is Ok <==> is_native_string(name@),
            r is Err ==> r == Err::<ProfRegion, Error>(Error::InvalidArgument),
            r matches Ok(p) ==> (p.name_view() == name@ && p.samples_view().len() == 0),
    {
        if !check_native_string(name) {
            return Err(Error::InvalidArgument);
        }
        Ok(ProfRegion { name: name.to_owned(), samples: Vec::new() })
    }

    /// Enters the region at time `now`.
    pub fn enter(&mut self, now: u64) -> (r: Result<(), Error>)
        ensures
            r is Ok,
            final(self).name_view() == old(self).name_view(),
            final(self).samples_view() == old(self).samples_view().push(
                Timer { start: now, time: None },
            ),
    {
        self.samples.push(Timer { start: now, time: None });
        Ok(())
    }

    /// Leaves the region at time `now`, closing the most recent open
    /// entry; fails where no entry is open.
    pub fn exit(&mut self, now: u64) -> (r: Result<(), Error>)
        ensures
            r is Ok <==> last_open(old(self).samples_view()) is Some,
            r is Err ==> r == Err::<(), Error>(Error::InvalidArgument),
            final(self).name_view() == old(self).name_view(),
            r is Err ==> final(self).samples_view() == old(self).samples_view(),
            r is Ok ==> final(self).samples_view() == close_shot(
                old(self).samples_view(),
                last_open(old(self).samples_view()).unwrap(),
                now,
            ),
    {
        let n: usize = self.samples.len();
        let mut i: usize = n;
        assert(self.samples@.take(i as int) =~= self.samples@);
        while i > 0
            invariant
                n == self.samples@.len(),
                i <= n,
                self.name@ == old(self).name@,
                self.samples@ == old(self).samples@,
                last_open(self.samples@) == last_open(self.samples@.take(i as int)),
            decreases i,
        {
            assert(self.samples@.take(i as int).drop_last() =~= self.samples@.take(i - 1));
            if self.samples[i - 1].time.is_none() {
                let st = self.samples[i - 1].start;
                let el = if now >= st {
                    now - st
                } else {
                    0
                };
                self.samples.set(i - 1, Timer { start: st, time: Some(el) });
                return Ok(());
            }
            i = i - 1;
        }
        Err(Error::InvalidArgument)
    }

    /// Enters the region now.
    pub fn enter_now(&mut self) -> (r: Result<(), Error>)
        ensures
            r is Ok,
            final(self).name_view() == old(self).name_view(),
            exists|now: u64|
                final(self).samples_view() == old(self).samples_view().push(
                    Timer { start: now, time: None },
                ),
    {
        let now = now_nanos();
        self.enter(now)
    }

    /// Leaves the region now, closing the most recent open entry; fails
    /// where no entry is open.
    pub fn exit_now(&mut self) -> (r: Result<(), Error>)
        ensures
            r is Ok <==> last_open(old(self).samples_view()) is Some,
            r is Err ==> r == Err::<(), Error>(Error::InvalidArgument),
            final(self).name_view() == old(self).name_view(),
            r is Err ==> final(self).samples_view() == old(self).samples_view(),
            r is Ok ==> exists|now: u64|
                final(self).samples_view() == close_shot(
                    old(self).samples_view(),
                    last_open(old(self).samples_view()).unwrap(),
                    now,
                ),
    {
        let now = now_nanos();
        self.exit(now)
    }

    /// The sum of the elapsed times of the closed samples.
    pub fn total(&self) -> (r: u128)
        ensures
            r == total_time(self.samples_view()),
    {
        sum_shots(&self.samples).0
    }

    /// The region's name.
    pub fn name(&self) -> (r: &str)
        ensures
            r@ == self.name_view(),
    {
        self.name.as_str()
    }

    /// The samples taken so far.
    pub fn samples(&self) -> (r: &[Timer])
        ensures
            r@ == self.samples_view(),
    {
        self.samples.as_slice()
    }
}

} // verus!
