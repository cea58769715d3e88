use vstd::prelude::*;
use crate::status::{decimal, decimal_string};

verus! {

/// One shot of a named timer: its start mark and, once stopped, the
/// elapsed time, both in nanoseconds.
#[derive(Debug, Clone, Copy, PartialEq, Eq, Structural)]
pub struct Timer {
    pub start: u64,
    pub time: Option<u64>,
}

/// Named timers, each with its history of shots, in the order the names
/// were first started.
pub struct Timers {
    names: Vec<String>,
    shots: Vec<Vec<Timer>>,
}

/// The map from names to shots that an ordered list of entries gives; a
/// later entry of a name hides an earlier one.
pub open spec fn entries_map(s: Seq<(Seq<char>, Seq<Timer>)>) -> Map<Seq<char>, Seq<Timer>>
    decreases s.len(),
{
    if s.len() == 0 {
        Map::empty()
    } else {
        entries_map(s.drop_last()).insert(s.last().0, s.last().1)
    }
}

/// The shots of `name` after `start` at time `now`: a new open shot.
pub open spec fn after_start(m: Map<Seq<char>, Seq<Timer>>, name: Seq<char>, now: u64) -> Map<
    Seq<char>,
    Seq<Timer>,
> {
    let old_shots = if m.contains_key(name) {
        m[name]
    } else {
        Seq::empty()
    };
    m.insert(name, old_shots.push(Timer { start: now, time: None }))
}

/// The index of the most recently opened shot that is still open.
pub open spec fn last_open(s: Seq<Timer>) -> Option<int>
    decreases s.len(),
{
    if s.len() == 0 {
        None
    } else if s.last().time is None {
        Some(s.len() - 1)
    } else {
        last_open(s.drop_last())
    }
}

/// Elapsed time from `start` to `now`, zero where the clock went back.
pub open spec fn elapsed(start: u64, now: u64) -> u64 {
    if now >= start {
        (now - start) as u64
    } else {
        0
    }
}

/// The shots of `name` after `stop` at time `now`: the most recently opened
/// open shot is closed; with no open shot nothing changes.
pub open spec fn after_stop(m: Map<Seq<char>, Seq<Timer>>, name: Seq<char>, now: u64) -> Map<
    Seq<char>,
    Seq<Timer>,
> {
    if m.contains_key(name) && last_open(m[name]) is Some {
        let s = m[name];
        let j = last_open(s).unwrap();
        m.insert(name, s.update(j, Timer { start: s[j].start, time: Some(elapsed(s[j].start, now)) }))
    } else {
        m
    }
}

/// Sum of the elapsed times of the stopped shots.
pub open spec fn total_time(s: Seq<Timer>) -> nat
    decreases s.len(),
{
    if s.len() == 0 {
        0
    } else {
        total_time(s.drop_last()) + match s.last().time {
            Some(t) => t as nat,
            None => 0,
        }
    }
}

/// Number of stopped shots.
pub open spec fn stopped_count(s: Seq<Timer>) -> nat
    decreases s.len(),
{
    if s.len() == 0 {
        0
    } else {
        stopped_count(s.drop_last()) + if s.last().time is Some {
            1nat
        } else {
            0nat
        }
    }
}

/// Mean elapsed time of the stopped shots, rounded down; none without any.
pub open spec fn average_time(s: Seq<Timer>) -> Option<nat> {
    if stopped_count(s) == 0 {
        None
    } else {
        Some(total_time(s) / stopped_count(s))
    }
}

/// The index of the last entry of `name`.
pub open spec fn find_index(e: Seq<(Seq<char>, Seq<Timer>)>, name: Seq<char>) -> Option<int>
    decreases e.len(),
{
    if e.len() == 0 {
        None
    } else if e.last().0 == name {
        Some(e.len() - 1)
    } else {
        find_index(e.drop_last(), name)
    }
}

/// The shots with the shot at `j` closed at time `now`.
pub open spec fn close_shot(s: Seq<Timer>, j: int, now: u64) -> Seq<Timer> {
    s.update(j, Timer { start: s[j].start, time: Some(elapsed(s[j].start, now)) })
}

/// The entries after `start` at time `now`: an entry keeps its place and
/// gains an open shot; a new name is appended with one open shot.
pub open spec fn after_start_entries(
    e: Seq<(Seq<char>, Seq<Timer>)>,
    name: Seq<char>,
    now: u64,
) -> Seq<(Seq<char>, Seq<Timer>)> {
    let t = Timer { start: now, time: None };
    match find_index(e, name) {
        Some(i) => e.update(i, (name, e[i].1.push(t))),
        None => e.push((name, seq![t])),
    }
}

/// The entries after `stop` at time `now`: only the shots of `name` change,
/// as `after_stop` describes.
pub open spec fn after_stop_entries(
    e: Seq<(Seq<char>, Seq<Timer>)>,
    name: Seq<char>,
    now: u64,
) -> Seq<(Seq<char>, Seq<Timer>)> {
    match find_index(e, name) {
        Some(i) => match last_open(e[i].1) {
            Some(j) => e.update(i, (name, close_shot(e[i].1, j, now))),
            None => e,
        },
        None => e,
    }
}

/// No name has two entries.
pub open spec fn names_unique(e: Seq<(Seq<char>, Seq<Timer>)>) -> bool {
    forall|i: int, j: int| 0 <= i < j < e.len() ==> e[i].0 != e[j].0
}

proof fn lemma_find_index(e: Seq<(Seq<char>, Seq<Timer>)>, name: Seq<char>, i: int)
    requires
        0 <= i < e.len(),
        e[i].0 == name,
        forall|j: int| i < j < e.len() ==> e[j].0 != name,
    ensures
        find_index(e, name) == Some(i),
    decreases e.len(),
{
    if i < e.len() - 1 {
        lemma_find_index(e.drop_last(), name, i);
    }
}

proof fn lemma_find_none(e: Seq<(Seq<char>, Seq<Timer>)>, name: Seq<char>)
    requires
        forall|j: int| 0 <= j < e.len() ==> e[j].0 != name,
    ensures
        find_index(e, name) is None,
    decreases e.len(),
{
    if e.len() > 0 {
        lemma_find_none(e.drop_last(), name);
    }
}

proof fn lemma_map_update(s: Seq<(Seq<char>, Seq<Timer>)>, i: int, v: Seq<Timer>)
    requires
        0 <= i < s.len(),
        forall|j: int| i < j < s.len() ==> s[j].0 != s[i].0,
    ensures
        entries_map(s.update(i, (s[i].0, v))) == entries_map(s).insert(s[i].0, v),
    decreases s.len(),
{
    let u = s.update(i, (s[i].0, v));
    let d = s.drop_last();
    if i == s.len() - 1 {
        assert(u.drop_last() =~= d);
        assert(entries_map(u) =~= entries_map(s).insert(s[i].0, v));
    } else {
        assert(u.drop_last() =~= d.update(i, (d[i].0, v)));
        lemma_map_update(d, i, v);
        assert(entries_map(u) =~= entries_map(s).insert(s[i].0, v));
    }
}

proof fn lemma_map_at(s: Seq<(Seq<char>, Seq<Timer>)>, i: int)
    requires
        0 <= i < s.len(),
        forall|j: int| i < j < s.len() ==> s[j].0 != s[i].0,
    ensures
        entries_map(s).contains_key(s[i].0),
        entries_map(s)[s[i].0] == s[i].1,
    decreases s.len(),
{
    if i < s.len() - 1 {
        lemma_map_at(s.drop_last(), i);
    }
}

proof fn lemma_map_absent(s: Seq<(Seq<char>, Seq<Timer>)>, k: Seq<char>)
    requires
        forall|j: int| 0 <= j < s.len() ==> s[j].0 != k,
    ensures
        !entries_map(s).contains_key(k),
    decreases s.len(),
{
    if s.len() > 0 {
        lemma_map_absent(s.drop_last(), k);
    }
}

proof fn lemma_total_bound(s: Seq<Timer>)
    ensures
        total_time(s) <= s.len() * 0xffff_ffff_ffff_ffff,
    decreases s.len(),
{
    if s.len() > 0 {
        lemma_total_bound(s.drop_last());
        assert((s.len() - 1) * 0xffff_ffff_ffff_ffff + 0xffff_ffff_ffff_ffff == s.len()
            * 0xffff_ffff_ffff_ffff) by (nonlinear_arith);
    }
}

/// Relies on `SystemTime::elapsed` of the Unix epoch: the current time in
/// nanoseconds, or zero for a clock set before the epoch. Nothing is
/// promised of the value.
#[verifier::external_body]
pub(crate) fn now_nanos() -> (r: u64) {
    match std::time::UNIX_EPOCH.elapsed() {
        Ok(d) => d.as_nanos() as u64,
        Err(_) => 0,
    }
}

/// One report line: an optional `[prefix] `, the name and suffix, the time
/// and the number of entries.
pub open spec fn line_text(
    prefix: Seq<char>,
    suffix: Seq<char>,
    name: Seq<char>,
    time: nat,
    entries: nat,
) -> Seq<char> {
    (if prefix.len() == 0 {
        Seq::empty()
    } else {
        "["@ + prefix + "] "@
    }) + name + suffix + ": total_time: "@ + decimal(time) + " nsec nr_entries: "@ + decimal(
        entries,
    )
}

/// Lines joined by newlines, with none after the last.
pub open spec fn join_lines(s: Seq<Seq<char>>) -> Seq<char>
    decreases s.len(),
{
    if s.len() == 0 {
        Seq::empty()
    } else if s.len() == 1 {
        s[0]
    } else {
        join_lines(s.drop_last()) + "\n"@ + s.last()
    }
}

/// The time of the last shot of each name, zero where it is still open.
pub open spec fn last_lines(e: Seq<(Seq<char>, Seq<Timer>)>, msg: Seq<char>) -> Seq<Seq<char>>
    decreases e.len(),
{
    if e.len() == 0 {
        Seq::empty()
    } else {
        let (n, s) = e.last();
        last_lines(e.drop_last(), msg) + if s.len() == 0 {
            Seq::empty()
        } else {
            seq![
                line_text(
                    msg,
                    Seq::empty(),
                    n,
                    match s.last().time {
                        Some(t) => t as nat,
                        None => 0,
                    },
                    1,
                ),
            ]
        }
    }
}

/// The total time and the number of shots of each name.
pub open spec fn total_lines(e: Seq<(Seq<char>, Seq<Timer>)>, msg: Seq<char>) -> Seq<Seq<char>> {
    Seq::new(
        e.len(),
        |i: int| line_text(msg, Seq::empty(), e[i].0, total_time(e[i].1), e[i].1.len()),
    )
}

pub(crate) fn sum_shots(s: &Vec<Timer>) -> (r: (u128, usize))
    ensures
        r.0 == total_time(s@),
        r.1 == stopped_count(s@),
{
    let n: usize = s.len();
    let mut total: u128 = 0;
    let mut count: usize = 0;
    let mut i: usize = 0;
    while i < n
        invariant
            n == s@.len(),
            i <= n,
            total == total_time(s@.take(i as int)),
            count == stopped_count(s@.take(i as int)),
            count <= i,
        decreases n - i,
    {
        let ghost p = s@.take(i + 1);
        assert(p.drop_last() =~= s@.take(i as int));
        proof {
            lemma_total_bound(s@.take(i as int));
            let k = i as nat;
            assert(k * 0xffff_ffff_ffff_ffff + 0xffff_ffff_ffff_ffff
                <= 0xffff_ffff_ffff_ffff_ffff_ffff_ffff_ffff) by (nonlinear_arith)
                requires
                    k <= 0xffff_ffff_ffff_ffff,
            ;
        }
        match s[i].time {
            Some(t) => {
                total = total + t as u128;
                count = count + 1;
            },
            None => {},
        }
        i = i + 1;
    }
    assert(s@.take(n as int) =~= s@);
    (total, count)
}

impl Timers {
    pub closed spec fn entries(&self) -> Seq<(Seq<char>, Seq<Timer>)> {
        Seq::new(self.names@.len(), |i: int| (self.names@[i]@, self.shots@[i]@))
    }

    /// The shots of each name.
    pub open spec fn view(&self) -> Map<Seq<char>, Seq<Timer>> {
        entries_map(self.entries())
    }

    /// Parallel lists, and each name listed once.
    pub closed spec fn wf(&self) -> bool {
        &&& self.names@.len() == self.shots@.len()
        &&& names_unique(self.entries())
    }

    pub fn new() -> (r: Timers)
        ensures
            r.wf(),
            r.view() == Map::<Seq<char>, Seq<Timer>>::empty(),
            r.entries().len() == 0,
    {
        let r = Timers { names: Vec::new(), shots: Vec::new() };
        assert(r.entries() =~= Seq::empty());
        r
    }

    pub fn clear(&mut self)
        ensures
            final(self).wf(),
            final(self).view() == Map::<Seq<char>, Seq<Timer>>::empty(),
            final(self).entries().len() == 0,
    {
        self.names.clear();
        self.shots.clear();
        assert(self.entries() =~= Seq::empty());
    }

    /// The index of the entry of `name`, searching from the last.
    fn find(&self, name: &str) -> (r: Option<usize>)
        requires
            self.wf(),
        ensures
            r matches Some(i) ==> (i < self.entries().len() && self.entries()[i as int].0
                == name@ && forall|j: int|
                i < j < self.entries().len() ==> self.entries()[j].0 != name@),
            r is None ==> forall|j: int|
                0 <= j < self.entries().len() ==> self.entries()[j].0 != name@,
    {
        let key = name.to_owned();
        let mut i: usize = self.names.len();
        while i > 0
            invariant
                self.wf(),
                key@ == name@,
                i <= self.names@.len(),
                forall|j: int| i <= j < self.entries().len() ==> self.entries()[j].0 != name@,
            decreases i,
        {
            i = i - 1;
            assert(self.entries()[i as int].0 == self.names@[i as int]@);
            if self.names[i] == key {
                return Some(i);
            }
        }
        None
    }

    /// Opens a new shot for `name` at time `now`.
    pub fn start_at(&mut self, name: &str, now: u64)
        requires
            old(self).wf(),
        ensures
            final(self).wf(),
            final(self).view() == after_start(old(self).view(), name@, now),
            final(self).entries() == after_start_entries(old(self).entries(), name@, now),
    {
        let t = Timer { start: now, time: None };
        match self.find(name) {
            Some(i) => {
                let ghost e = self.entries();
                let mut s = self.shots.remove(i);
                let ghost before = s@;
                s.push(t);
                self.shots.insert(i, s);
                proof {
                    lemma_find_index(e, name@, i as int);
                    lemma_map_at(e, i as int);
                    lemma_map_update(e, i as int, before.push(t));
                    assert(self.entries() =~= e.update(i as int, (e[i as int].0, before.push(t))));
                }
            },
            None => {
                let ghost e = self.entries();
                proof {
                    lemma_map_absent(e, name@);
                    lemma_find_none(e, name@);
                }
                self.names.push(name.to_owned());
                let mut s: Vec<Timer> = Vec::new();
                s.push(t);
                self.shots.push(s);
                assert(self.entries().drop_last() =~= e);
                assert(s@ =~= Seq::<Timer>::empty().push(t));
                assert(self.entries() =~= e.push((name@, seq![t])));
            },
        }
    }

    /// Opens a new shot for `name` now.
    pub fn start(&mut self, name: &str)
        requires
            old(self).wf(),
        ensures
            final(self).wf(),
            exists|now: u64|
                final(self).view() == after_start(old(self).view(), name@, now)
                    && final(self).entries() == after_start_entries(old(self).entries(), name@, now),
    {
        let now = now_nanos();
        self.start_at(name, now);
    }

    /// Closes, at time `now`, the most recently opened shot of `name` that
    /// is still open; with none, nothing changes.
    pub fn stop_at(&mut self, name: &str, now: u64)
        requires
            old(self).wf(),
        ensures
            final(self).wf(),
            final(self).view() == after_stop(old(self).view(), name@, now),
            final(self).entries() == after_stop_entries(old(self).entries(), name@, now),
    {
        match self.find(name) {
            None => {
                proof {
                    lemma_map_absent(self.entries(), name@);
                    lemma_find_none(self.entries(), name@);
                }
            },
            Some(i) => {
                let ghost e = self.entries();
                proof {
                    lemma_map_at(e, i as int);
                    lemma_find_index(e, name@, i as int);
                }
                let mut s = self.shots.remove(i);
                let ghost before = s@;
                match last_open_index(&s) {
                    None => {
                        self.shots.insert(i, s);
                        assert(self.entries() =~= e);
                    },
                    Some(j) => {
                        let st = s[j].start;
                        let el = if now >= st {
                            now - st
                        } else {
                            0
                        };
                        s.set(j, Timer { start: st, time: Some(el) });
                        let ghost after = s@;
                        self.shots.insert(i, s);
                        proof {
                            assert(after =~= close_shot(before, j as int, now));
                            lemma_map_update(e, i as int, after);
                            assert(self.entries() =~= e.update(i as int, (e[i as int].0, after)));
                        }
                    },
                }
            },
        }
    }

    /// Closes the most recently opened open shot of `name` now.
    pub fn stop(&mut self, name: &str)
        requires
            old(self).wf(),
        ensures
            final(self).wf(),
            exists|now: u64|
                final(self).view() == after_stop(old(self).view(), name@, now)
                    && final(self).entries() == after_stop_entries(old(self).entries(), name@, now),
    {
        let now = now_nanos();
        self.stop_at(name, now);
    }

    /// The shots of `name`, if it was ever started.
    pub fn get(&self, name: &str) -> (r: Option<&Vec<Timer>>)
        requires
            self.wf(),
        ensures
            r is Some <==> self.view().contains_key(name@),
            r matches Some(v) ==> v@ == self.view()[name@],
    {
        match self.find(name) {
            Some(i) => {
                proof {
                    lemma_map_at(self.entries(), i as int);
                }
                Some(&self.shots[i])
            },
            None => {
                proof {
                    lemma_map_absent(self.entries(), name@);
                }
                None
            },
        }
    }

    /// The sum of the elapsed times of the stopped shots of `name`.
    pub fn total(&self, name: &str) -> (r: Option<u128>)
        requires
            self.wf(),
        ensures
            r is Some <==> self.view().contains_key(name@),
            r matches Some(t) ==> t == total_time(self.view()[name@]),
    {
        match self.get(name) {
            Some(v) => Some(sum_shots(v).0),
            None => None,
        }
    }

    /// The mean elapsed time of the stopped shots of `name`, rounded down;
    /// none where it has no stopped shot.
    pub fn average(&self, name: &str) -> (r: Option<u128>)
        requires
            self.wf(),
        ensures
            r is Some <==> (self.view().contains_key(name@) && average_time(
                self.view()[name@],
            ) is Some),
            r matches Some(a) ==> Some(a as nat) == average_time(self.view()[name@]),
    {
        match self.get(name) {
            Some(v) => {
                let (t, c) = sum_shots(v);
                if c == 0 {
                    None
                } else {
                    Some(t / c as u128)
                }
            },
            None => None,
        }
    }

    /// Every name with a copy of its shots, in the order the names were
    /// first started.
    pub fn get_all(&self) -> (r: Vec<(String, Vec<Timer>)>)
        requires
            self.wf(),
        ensures
            r@.len() == self.entries().len(),
            forall|i: int|
                0 <= i < r@.len() ==> (r@[i].0@, r@[i].1@) == #[trigger] self.entries()[i],
    {
        let mut out: Vec<(String, Vec<Timer>)> = Vec::new();
        let n: usize = self.names.len();
        let mut i: usize = 0;
        while i < n
            invariant
                self.wf(),
                n == self.names@.len(),
                i <= n,
                out@.len() == i,
                forall|j: int| 0 <= j < i ==> (out@[j].0@, out@[j].1@) == #[trigger] self.entries()[j],
            decreases n - i,
        {
            let name = self.names[i].clone();
            let shots = copy_shots(&self.shots[i]);
            out.push((name, shots));
            i = i + 1;
        }
        out
    }

    /// A report line for one timer.
    pub fn format(prefix: &str, suffix: &str, name: &str, time: u128, entries: usize) -> (r:
        String)
        ensures
            r@ == line_text(prefix@, suffix@, name@, time as nat, entries as nat),
    {
        let mut s = String::new();
        if prefix.unicode_len() > 0 {
            s.append("[");
            s.append(prefix);
            s.append("] ");
        }
        s.append(name);
        s.append(suffix);
        s.append(": total_time: ");
        let t = decimal_string(time);
        s.append(t.as_str());
        s.append(" nsec nr_entries: ");
        let e = decimal_string(entries as u128);
        s.append(e.as_str());
        proof {
            reveal_strlit("[");
            reveal_strlit("] ");
            reveal_strlit(": total_time: ");
            reveal_strlit(" nsec nr_entries: ");
            assert(s@ =~= line_text(prefix@, suffix@, name@, time as nat, entries as nat));
        }
        s
    }

    /// For each name, in order, a line with the total time and the number of
    /// shots; lines are separated by newlines.
    pub fn print_all_total_to_buf(&self, msg: &str) -> (r: String)
        requires
            self.wf(),
        ensures
            r@ == join_lines(total_lines(self.entries(), msg@)),
    {
        let ghost lines = total_lines(self.entries(), msg@);
        let mut out = String::new();
        let n: usize = self.names.len();
        let mut i: usize = 0;
        while i < n
            invariant
                self.wf(),
                n == self.names@.len(),
                i <= n,
                lines == total_lines(self.entries(), msg@),
                out@ == join_lines(lines.take(i as int)),
            decreases n - i,
        {
            let (t, _) = sum_shots(&self.shots[i]);
            let l = Timers::format(msg, "", self.names[i].as_str(), t, self.shots[i].len());
            proof {
                reveal_strlit("");
                assert(""@ =~= Seq::<char>::empty());
                assert(lines.take(i + 1).drop_last() =~= lines.take(i as int));
            }
            if i > 0 {
                out.append("\n");
            }
            out.append(l.as_str());
            proof {
                reveal_strlit("\n");
            }
            i = i + 1;
        }
        assert(lines.take(n as int) =~= lines);
        out
    }

    /// For each name that has a shot, in order, a line with the time of its
    /// last shot; lines are separated by newlines.
    pub fn print_all_to_buf(&self, msg: &str) -> (r: String)
        requires
            self.wf(),
        ensures
            r@ == join_lines(last_lines(self.entries(), msg@)),
    {
        let mut out = String::new();
        let n: usize = self.names.len();
        let mut i: usize = 0;
        let mut any: bool = false;
        while i < n
            invariant
                self.wf(),
                n == self.names@.len(),
                i <= n,
                any == (last_lines(self.entries().take(i as int), msg@).len() > 0),
                out@ == join_lines(last_lines(self.entries().take(i as int), msg@)),
            decreases n - i,
        {
            let ghost prev = last_lines(self.entries().take(i as int), msg@);
            assert(self.entries().take(i + 1).drop_last() =~= self.entries().take(i as int));
            let m = self.shots[i].len();
            if m > 0 {
                let t = match self.shots[i][m - 1].time {
                    Some(t) => t,
                    None => 0,
                };
                let l = Timers::format(msg, "", self.names[i].as_str(), t as u128, 1);
                proof {
                    reveal_strlit("");
                    assert(""@ =~= Seq::<char>::empty());
                }
                if any {
                    out.append("\n");
                }
                out.append(l.as_str());
                proof {
                    reveal_strlit("\n");
                    let now = last_lines(self.entries().take(i + 1), msg@);
                    assert(now =~= prev.push(l@));
                    assert(now.drop_last() =~= prev);
                }
                any = true;
            } else {
                proof {
                    assert(last_lines(self.entries().take(i + 1), msg@) =~= prev);
                }
            }
            i = i + 1;
        }
        assert(self.entries().take(n as int) =~= self.entries());
        out
    }
}

fn copy_shots(s: &Vec<Timer>) -> (r: Vec<Timer>)
    ensures
        r@ == s@,
{
    let n: usize = s.len();
    let mut v: Vec<Timer> = Vec::new();
    let mut i: usize = 0;
    while i < n
        invariant
            n == s@.len(),
            i <= n,
            v@ == s@.take(i as int),
        decreases n - i,
    {
        v.push(s[i]);
        i = i + 1;
        assert(v@ =~= s@.take(i as int));
    }
    assert(s@.take(n as int) =~= s@);
    v
}

/// Two start and stop rounds of a name not yet started leave two stopped
/// shots, whose mean is the mean of the two elapsed times; stopping a name
/// never started leaves the timers as they were.
pub proof fn lemma_two_rounds(
    m: Map<Seq<char>, Seq<Timer>>,
    name: Seq<char>,
    t1: u64,
    t2: u64,
    t3: u64,
    t4: u64,
    other: Seq<char>,
    t5: u64,
)
    requires
        !m.contains_key(name),
        !m.contains_key(other),
    ensures
        ({
            let s = after_stop(
                after_start(after_stop(after_start(m, name, t1), name, t2), name, t3),
                name,
                t4,
            )[name];
            &&& s.len() == 2
            &&& stopped_count(s) == 2
            &&& total_time(s) == elapsed(t1, t2) + elapsed(t3, t4)
            &&& average_time(s) == Some(((elapsed(t1, t2) + elapsed(t3, t4)) / 2) as nat)
        }),
        after_stop(m, other, t5) == m,
{
    let m1 = after_start(m, name, t1);
    let s1 = m1[name];
    assert(s1 =~= seq![Timer { start: t1, time: None }]);
    assert(last_open(s1) == Some(0int));
    let m2 = after_stop(m1, name, t2);
    let s2 = m2[name];
    assert(s2 =~= seq![Timer { start: t1, time: Some(elapsed(t1, t2)) }]);
    let m3 = after_start(m2, name, t3);
    let s3 = m3[name];
    assert(s3 =~= seq![Timer { start: t1, time: Some(elapsed(t1, t2)) }, Timer { start: t3, time: None }]);
    assert(last_open(s3) == Some(1int));
    let m4 = after_stop(m3, name, t4);
    let s4 = m4[name];
    assert(s4 =~= seq![
        Timer { start: t1, time: Some(elapsed(t1, t2)) },
        Timer { start: t3, time: Some(elapsed(t3, t4)) },
    ]);
    assert(s4.drop_last().drop_last() =~= Seq::<Timer>::empty());
    reveal_with_fuel(total_time, 3);
    reveal_with_fuel(stopped_count, 3);
}

/// Two start and stop rounds of one name on empty timers leave exactly one
/// entry, that name with its two stopped shots, so every report has one
/// line for it.
pub proof fn lemma_two_rounds_entries(name: Seq<char>, t1: u64, t2: u64, t3: u64, t4: u64)
    ensures
        after_stop_entries(
            after_start_entries(
                after_stop_entries(after_start_entries(Seq::empty(), name, t1), name, t2),
                name,
                t3,
            ),
            name,
            t4,
        ) == seq![
            (
                name,
                seq![
                    Timer { start: t1, time: Some(elapsed(t1, t2)) },
                    Timer { start: t3, time: Some(elapsed(t3, t4)) },
                ],
            ),
        ],
{
    let e0 = Seq::<(Seq<char>, Seq<Timer>)>::empty();
    let a = Timer { start: t1, time: None };
    let e1 = after_start_entries(e0, name, t1);
    assert(e1 =~= seq![(name, seq![a])]);
    assert(find_index(e1, name) == Some(0int));
    assert(last_open(seq![a]) == Some(0int));
    let e2 = after_stop_entries(e1, name, t2);
    let a2 = Timer { start: t1, time: Some(elapsed(t1, t2)) };
    assert(close_shot(seq![a], 0, t2) =~= seq![a2]);
    assert(e2 =~= seq![(name, seq![a2])]);
    assert(find_index(e2, name) == Some(0int));
    let b = Timer { start: t3, time: None };
    let e3 = after_start_entries(e2, name, t3);
    assert(seq![a2].push(b) =~= seq![a2, b]);
    assert(e3 =~= seq![(name, seq![a2, b])]);
    assert(find_index(e3, name) == Some(0int));
    assert(last_open(seq![a2, b]) == Some(1int));
    let b2 = Timer { start: t3, time: Some(elapsed(t3, t4)) };
    assert(close_shot(seq![a2, b], 1, t4) =~= seq![a2, b2]);
    let e4 = after_stop_entries(e3, name, t4);
    assert(e4 =~= seq![(name, seq![a2, b2])]);
}

fn last_open_index(s: &Vec<Timer>) -> (r: Option<usize>)
    ensures
        r matches Some(j) ==> j < s@.len() && last_open(s@) == Some(j as int),
        r is None ==> last_open(s@) is None,
{
    let mut i: usize = s.len();
    assert(s@.take(i as int) =~= s@);
    while i > 0
        invariant
            i <= s@.len(),
            last_open(s@) == last_open(s@.take(i as int)),
        decreases i,
    {
        assert(s@.take(i as int).drop_last() =~= s@.take(i - 1));
        if s[i - 1].time.is_none() {
            return Some(i - 1);
        }
        i = i - 1;
    }
    None
}

} // verus!
