//! The registry of background read-only PostgreSQL queries: their states,
//! how a query ends, cancellation, and the listing of recent jobs. The
//! grid a completed job produced, and the handle that cancels a running
//! one, are held beside it under the same identifiers.
use crate::database_native::{native_invalid, validate_native_job_id, NativeDbError};
use crate::text::{is_token, str_eq, ByteClass};
use vstd::prelude::*;

verus! {

/// The most jobs held at once.
pub const MAX_JOBS: usize = 64;

/// How long a finished job is kept: one hour.
pub const FINISHED_JOB_KEEP_MS: u128 = 3600000;

#[derive(Debug, Clone, Copy, PartialEq, Eq, Structural)]
pub enum NativePostgresJobState {
    Running,
    Completed,
    Failed,
    Cancelled,
}

#[derive(Debug, Clone, PartialEq, Eq)]
pub struct NativePostgresJobStatus {
    pub job_id: String,
    pub state: NativePostgresJobState,
    pub created_at_unix_ms: u128,
    pub updated_at_unix_ms: u128,
    pub cancel_requested: bool,
    pub error: Option<String>,
}

impl NativePostgresJobStatus {
    /// A copy of the status.
    pub fn clone_status(&self) -> (r: NativePostgresJobStatus)
        ensures
            r == *self,
    {
        NativePostgresJobStatus {
            job_id: self.job_id.clone(),
            state: self.state,
            created_at_unix_ms: self.created_at_unix_ms,
            updated_at_unix_ms: self.updated_at_unix_ms,
            cancel_requested: self.cancel_requested,
            error: match &self.error {
                Some(e) => Some(e.clone()),
                None => None,
            },
        }
    }
}

/// Whether a job is kept at `now`: it runs, or it ended less than an hour
/// before.
pub open spec fn kept(t: NativePostgresJobStatus, now: u128) -> bool {
    t.state == NativePostgresJobState::Running || (if now >= t.updated_at_unix_ms {
        now - t.updated_at_unix_ms
    } else {
        0
    }) < FINISHED_JOB_KEEP_MS
}

/// The jobs of `s` kept at `now`, in order.
pub open spec fn keep_jobs(s: Seq<NativePostgresJobStatus>, now: u128) -> Seq<NativePostgresJobStatus>
    decreases s.len(),
{
    if s.len() == 0 {
        s
    } else if kept(s.last(), now) {
        keep_jobs(s.drop_last(), now).push(s.last())
    } else {
        keep_jobs(s.drop_last(), now)
    }
}

/// The jobs of `s` other than `id`, in order.
pub open spec fn drop_job(s: Seq<NativePostgresJobStatus>, id: Seq<char>) -> Seq<NativePostgresJobStatus>
    decreases s.len(),
{
    if s.len() == 0 {
        s
    } else if s.last().job_id@ == id {
        drop_job(s.drop_last(), id)
    } else {
        drop_job(s.drop_last(), id).push(s.last())
    }
}

/// The job of `s` named `id`, if there is one (the last so named).
pub open spec fn find_job(s: Seq<NativePostgresJobStatus>, id: Seq<char>) -> Option<NativePostgresJobStatus>
    decreases s.len(),
{
    if s.len() == 0 {
        None
    } else if s.last().job_id@ == id {
        Some(s.last())
    } else {
        find_job(s.drop_last(), id)
    }
}

/// No two jobs share an identifier.
pub open spec fn unique_jobs(s: Seq<NativePostgresJobStatus>) -> bool {
    forall|i: int, j: int| 0 <= i < j < s.len() ==> #[trigger] s[i].job_id@ != #[trigger] s[j].job_id@
}

/// A job that has just started at `now`.
pub open spec fn started(id: Seq<char>, now: u128, t: NativePostgresJobStatus) -> bool {
    &&& t.job_id@ == id
    &&& t.state == NativePostgresJobState::Running
    &&& t.created_at_unix_ms == now
    &&& t.updated_at_unix_ms == now
    &&& !t.cancel_requested
    &&& t.error is None
}

/// A job after its query ended at `now`, with `failure` the error it ended
/// with, if any: completed, or cancelled when a cancellation was asked for,
/// else failed.
pub open spec fn ended(t: NativePostgresJobStatus, now: u128, failure: Option<String>) -> NativePostgresJobStatus {
    match failure {
        None => NativePostgresJobStatus {
            state: NativePostgresJobState::Completed,
            updated_at_unix_ms: now,
            error: None,
            ..t
        },
        Some(e) => NativePostgresJobStatus {
            state: if t.cancel_requested {
                NativePostgresJobState::Cancelled
            } else {
                NativePostgresJobState::Failed
            },
            updated_at_unix_ms: now,
            error: Some(e),
            ..t
        },
    }
}

pub open spec fn job_not_found<T>(r: Result<T, NativeDbError>) -> bool {
    native_invalid(r, "native PostgreSQL job not found"@)
}

/// Whether `r` lists jobs newest first (by creation time).
pub open spec fn newest_first(r: Seq<NativePostgresJobStatus>) -> bool {
    forall|i: int, j: int|
        0 <= i < j < r.len() ==> #[trigger] r[i].created_at_unix_ms >= #[trigger] r[j].created_at_unix_ms
}

/// The background jobs, each under its own identifier.
pub struct JobRegistry {
    entries: Vec<NativePostgresJobStatus>,
}

impl View for JobRegistry {
    type V = Seq<NativePostgresJobStatus>;

    closed spec fn view(&self) -> Seq<NativePostgresJobStatus> {
        self.entries@
    }
}

proof fn lemma_keep_jobs(s: Seq<NativePostgresJobStatus>, now: u128)
    ensures
        keep_jobs(s, now).len() <= s.len(),
        forall|k: int| 0 <= k < keep_jobs(s, now).len() ==> s.contains(#[trigger] keep_jobs(s, now)[k]),
    decreases s.len(),
{
    if s.len() > 0 {
        lemma_keep_jobs(s.drop_last(), now);
        let d = keep_jobs(s.drop_last(), now);
        assert forall|k: int| 0 <= k < keep_jobs(s, now).len() implies s.contains(
            #[trigger] keep_jobs(s, now)[k],
        ) by {
            if k < d.len() {
                assert(s.drop_last().contains(d[k]));
                let j = choose|j: int| 0 <= j < s.drop_last().len() && s.drop_last()[j] == d[k];
                assert(s[j] == d[k]);
            } else {
                assert(s[s.len() - 1] == keep_jobs(s, now)[k]);
            }
        }
    }
}

proof fn lemma_drop_job(s: Seq<NativePostgresJobStatus>, id: Seq<char>)
    ensures
        drop_job(s, id).len() <= s.len(),
        forall|k: int|
            0 <= k < drop_job(s, id).len() ==> s.contains(#[trigger] drop_job(s, id)[k])
                && drop_job(s, id)[k].job_id@ != id,
    decreases s.len(),
{
    if s.len() > 0 {
        lemma_drop_job(s.drop_last(), id);
        let d = drop_job(s.drop_last(), id);
        assert forall|k: int| 0 <= k < drop_job(s, id).len() implies s.contains(
            #[trigger] drop_job(s, id)[k],
        ) && drop_job(s, id)[k].job_id@ != id by {
            if k < d.len() {
                assert(s.drop_last().contains(d[k]));
                let j = choose|j: int| 0 <= j < s.drop_last().len() && s.drop_last()[j] == d[k];
                assert(s[j] == d[k]);
            } else {
                assert(s[s.len() - 1] == drop_job(s, id)[k]);
            }
        }
    }
}

proof fn lemma_unique_prefix(s: Seq<NativePostgresJobStatus>)
    requires
        unique_jobs(s),
        s.len() > 0,
    ensures
        unique_jobs(s.drop_last()),
        forall|x: NativePostgresJobStatus| s.drop_last().contains(x) ==> x.job_id@ != s.last().job_id@,
{
    let p = s.drop_last();
    assert forall|i: int, j: int| 0 <= i < j < p.len() implies #[trigger] p[i].job_id@
        != #[trigger] p[j].job_id@ by {
        assert(s[i] == p[i] && s[j] == p[j]);
    }
    assert forall|x: NativePostgresJobStatus| p.contains(x) implies x.job_id@ != s.last().job_id@ by {
        let j = choose|j: int| 0 <= j < p.len() && p[j] == x;
        assert(s[j] == x);
        assert(s[s.len() - 1] == s.last());
    }
}

proof fn lemma_filters_unique(s: Seq<NativePostgresJobStatus>, now: u128, id: Seq<char>)
    requires
        unique_jobs(s),
    ensures
        unique_jobs(keep_jobs(s, now)),
        unique_jobs(drop_job(s, id)),
    decreases s.len(),
{
    if s.len() > 0 {
        let p = s.drop_last();
        lemma_unique_prefix(s);
        lemma_filters_unique(p, now, id);
        lemma_keep_jobs(p, now);
        lemma_drop_job(p, id);
        let l = s.last();
        let a = keep_jobs(p, now);
        if kept(l, now) {
            assert forall|i: int, j: int| 0 <= i < j < a.push(l).len() implies #[trigger] a.push(
                l,
            )[i].job_id@ != #[trigger] a.push(l)[j].job_id@ by {
                if j == a.len() {
                    assert(p.contains(a[i]));
                }
            }
        }
        let b = drop_job(p, id);
        if l.job_id@ != id {
            assert forall|i: int, j: int| 0 <= i < j < b.push(l).len() implies #[trigger] b.push(
                l,
            )[i].job_id@ != #[trigger] b.push(l)[j].job_id@ by {
                if j == b.len() {
                    assert(p.contains(b[i]));
                }
            }
        }
    }
}

proof fn lemma_find_job_absent(s: Seq<NativePostgresJobStatus>, id: Seq<char>)
    requires
        forall|k: int| 0 <= k < s.len() ==> (#[trigger] s[k]).job_id@ != id,
    ensures
        find_job(s, id) is None,
        drop_job(s, id) == s,
    decreases s.len(),
{
    if s.len() > 0 {
        assert(s[s.len() - 1].job_id@ != id);
        assert forall|k: int| 0 <= k < s.drop_last().len() implies (
        #[trigger] s.drop_last()[k]).job_id@ != id by {
            assert(s[k] == s.drop_last()[k]);
        }
        lemma_find_job_absent(s.drop_last(), id);
        assert(s.drop_last().push(s.last()) =~= s);
    }
}

proof fn lemma_find_job_unique(s: Seq<NativePostgresJobStatus>, i: int, id: Seq<char>)
    requires
        unique_jobs(s),
        0 <= i < s.len(),
        s[i].job_id@ == id,
    ensures
        find_job(s, id) == Some(s[i]),
        drop_job(s, id) == s.remove(i),
    decreases s.len(),
{
    let p = s.drop_last();
    if i == s.len() - 1 {
        assert forall|k: int| 0 <= k < p.len() implies (#[trigger] p[k]).job_id@ != id by {
            assert(s[k] == p[k]);
            assert(s[k].job_id@ != s[i].job_id@);
        }
        lemma_find_job_absent(p, id);
        assert(s.remove(i) =~= p);
    } else {
        assert(s[i].job_id@ != s[s.len() - 1].job_id@);
        lemma_unique_prefix(s);
        assert(p[i] == s[i]);
        lemma_find_job_unique(p, i, id);
        assert(p.remove(i).push(s.last()) =~= s.remove(i));
    }
}

/// Replacing the entry at `i` by one with the same name keeps the names
/// unique, and that entry is then what is found.
proof fn lemma_replace_at(s: Seq<NativePostgresJobStatus>, i: int, t: NativePostgresJobStatus)
    requires
        unique_jobs(s),
        0 <= i < s.len(),
        t.job_id@ == s[i].job_id@,
    ensures
        unique_jobs(s.update(i, t)),
        find_job(s.update(i, t), t.job_id@) == Some(t),
{
    let u = s.update(i, t);
    assert forall|a: int, b: int| 0 <= a < b < u.len() implies #[trigger] u[a].job_id@
        != #[trigger] u[b].job_id@ by {
        assert(s[a].job_id@ != s[b].job_id@);
    }
    lemma_find_job_unique(u, i, t.job_id@);
}

impl JobRegistry {
    /// The well-formed registry: every identifier held once.
    pub open spec fn wf(&self) -> bool {
        unique_jobs(self@)
    }

    /// An empty registry.
    pub fn new() -> (r: JobRegistry)
        ensures
            r@ == Seq::<NativePostgresJobStatus>::empty(),
            r.wf(),
    {
        JobRegistry { entries: Vec::new() }
    }

    fn position(&self, id: &str) -> (r: Option<usize>)
        ensures
            r matches Some(i) ==> i < self@.len() && self@[i as int].job_id@ == id@,
            r is None ==> forall|k: int| 0 <= k < self@.len() ==> (#[trigger] self@[k]).job_id@ != id@,
    {
        let mut i: usize = 0;
        while i < self.entries.len()
            invariant
                0 <= i <= self@.len(),
                forall|k: int| 0 <= k < i ==> (#[trigger] self@[k]).job_id@ != id@,
            decreases self@.len() - i,
        {
            if str_eq(self.entries[i].job_id.as_str(), id) {
                return Some(i);
            }
            i += 1;
        }
        None
    }

    fn prune(&mut self, now_ms: u128)
        requires
            old(self).wf(),
        ensures
            final(self)@ == keep_jobs(old(self)@, now_ms),
            final(self).wf(),
    {
        let ghost s = self@;
        assert(s.len() == self.entries.len());
        let mut out: Vec<NativePostgresJobStatus> = Vec::new();
        let mut i: usize = 0;
        assert(s.take(0) =~= Seq::<NativePostgresJobStatus>::empty());
        while self.entries.len() > 0
            invariant
                0 <= i <= s.len(),
                s.len() <= usize::MAX,
                self@ == s.skip(i as int),
                out@ == keep_jobs(s.take(i as int), now_ms),
            decreases s.len() - i,
        {
            let t = self.entries.remove(0);
            assert(t == s[i as int]);
            assert(s.take(i + 1).drop_last() =~= s.take(i as int));
            assert(s.take(i + 1).last() == s[i as int]);
            assert(self@ =~= s.skip(i + 1));
            let age: u128 = if now_ms >= t.updated_at_unix_ms {
                now_ms - t.updated_at_unix_ms
            } else {
                0
            };
            if t.state == NativePostgresJobState::Running || age < FINISHED_JOB_KEEP_MS {
                out.push(t);
            }
            i += 1;
        }
        assert(s.take(s.len() as int) =~= s);
        proof {
            lemma_filters_unique(s, now_ms, Seq::empty());
        }
        self.entries = out;
    }

    /// Starts job `job_id` at `now_ms`: drops the jobs that ended over an
    /// hour before, refuses a 65th, and holds the new one as running (in
    /// place of any other of the same name).
    pub fn postgres_job_start(&mut self, job_id: String, now_ms: u128) -> (r: Result<
        NativePostgresJobStatus,
        NativeDbError,
    >)
        requires
            old(self).wf(),
        ensures
            final(self).wf(),
            keep_jobs(old(self)@, now_ms).len() >= MAX_JOBS ==> native_invalid(
                r,
                "native PostgreSQL job limit reached"@,
            ) && final(self)@ == keep_jobs(old(self)@, now_ms),
            keep_jobs(old(self)@, now_ms).len() < MAX_JOBS ==> (r matches Ok(t) && started(
                job_id@,
                now_ms,
                t,
            ) && final(self)@ == drop_job(keep_jobs(old(self)@, now_ms), job_id@).push(t)),
    {
        self.prune(now_ms);
        if self.entries.len() >= MAX_JOBS {
            return Err(NativeDbError::Invalid("native PostgreSQL job limit reached".to_owned()));
        }
        let ghost p = self@;
        match self.position(job_id.as_str()) {
            Some(i) => {
                let _ = self.entries.remove(i);
                proof {
                    lemma_find_job_unique(p, i as int, job_id@);
                }
            },
            None => {
                proof {
                    lemma_find_job_absent(p, job_id@);
                }
            },
        }
        let t = NativePostgresJobStatus {
            job_id,
            state: NativePostgresJobState::Running,
            created_at_unix_ms: now_ms,
            updated_at_unix_ms: now_ms,
            cancel_requested: false,
            error: None,
        };
        let ghost before = self@;
        proof {
            lemma_drop_job(p, t.job_id@);
            lemma_filters_unique(p, now_ms, t.job_id@);
        }
        self.entries.push(t.clone_status());
        proof {
            assert forall|i: int, j: int| 0 <= i < j < self@.len() implies #[trigger] self@[i].job_id@
                != #[trigger] self@[j].job_id@ by {
                if j == before.len() {
                    assert(self@[i] == before[i]);
                }
            }
        }
        Ok(t)
    }

    /// The status of job `job_id`.
    pub fn postgres_job_status(&self, job_id: &str) -> (r: Result<NativePostgresJobStatus, NativeDbError>)
        requires
            self.wf(),
        ensures
            !is_token(job_id@, 8, 160, ByteClass::DottedIdent) ==> native_invalid(
                r,
                "invalid native PostgreSQL job id"@,
            ),
            is_token(job_id@, 8, 160, ByteClass::DottedIdent) ==> match find_job(self@, job_id@) {
                Some(t) => r == Ok::<NativePostgresJobStatus, NativeDbError>(t),
                None => job_not_found(r),
            },
    {
        validate_native_job_id(job_id)?;
        match self.position(job_id) {
            Some(i) => {
                proof {
                    lemma_find_job_unique(self@, i as int, job_id@);
                }
                Ok(self.entries[i].clone_status())
            },
            None => {
                proof {
                    lemma_find_job_absent(self@, job_id@);
                }
                Err(NativeDbError::Invalid("native PostgreSQL job not found".to_owned()))
            },
        }
    }

    /// Records that the query of job `job_id` ended at `now_ms`, with
    /// `failure` the error it ended with, if any. A job no longer held is
    /// left out.
    pub fn finish(&mut self, job_id: &str, now_ms: u128, failure: Option<String>)
        requires
            old(self).wf(),
        ensures
            final(self).wf(),
            final(self)@.len() == old(self)@.len(),
            match find_job(old(self)@, job_id@) {
                None => final(self)@ == old(self)@,
                Some(t) => find_job(final(self)@, job_id@) == Some(ended(t, now_ms, failure)),
            },
    {
        match self.position(job_id) {
            None => {
                proof {
                    lemma_find_job_absent(self@, job_id@);
                }
            },
            Some(i) => {
                let ghost s = self@;
                proof {
                    lemma_find_job_unique(s, i as int, job_id@);
                }
                let mut t = self.entries.remove(i);
                t.updated_at_unix_ms = now_ms;
                match failure {
                    None => {
                        t.state = NativePostgresJobState::Completed;
                        t.error = None;
                    },
                    Some(e) => {
                        t.state = if t.cancel_requested {
                            NativePostgresJobState::Cancelled
                        } else {
                            NativePostgresJobState::Failed
                        };
                        t.error = Some(e);
                    },
                }
                self.entries.insert(i, t);
                proof {
                    assert(self@ =~= s.update(i as int, self@[i as int]));
                    lemma_replace_at(s, i as int, self@[i as int]);
                }
            },
        }
    }

    /// Asks job `job_id` to stop at `now_ms`. A job that no longer runs is
    /// given back as it is; a running one is marked and given back with
    /// `true`: its query is then to be cancelled.
    pub fn request_cancel(&mut self, job_id: &str, now_ms: u128) -> (r: Result<
        (NativePostgresJobStatus, bool),
        NativeDbError,
    >)
        requires
            old(self).wf(),
        ensures
            final(self).wf(),
            !is_token(job_id@, 8, 160, ByteClass::DottedIdent) ==> native_invalid(
                r,
                "invalid native PostgreSQL job id"@,
            ) && final(self)@ == old(self)@,
            is_token(job_id@, 8, 160, ByteClass::DottedIdent) ==> match find_job(old(self)@, job_id@) {
                None => job_not_found(r) && final(self)@ == old(self)@,
                Some(t) => if t.state != NativePostgresJobState::Running {
                    r == Ok::<(NativePostgresJobStatus, bool), NativeDbError>((t, false))
                        && final(self)@ == old(self)@
                } else {
                    let c = NativePostgresJobStatus {
                        cancel_requested: true,
                        updated_at_unix_ms: now_ms,
                        ..t
                    };
                    r == Ok::<(NativePostgresJobStatus, bool), NativeDbError>((c, true))
                        && find_job(final(self)@, job_id@) == Some(c)
                        && final(self)@.len() == old(self)@.len()
                },
            },
    {
        validate_native_job_id(job_id)?;
        match self.position(job_id) {
            None => {
                proof {
                    lemma_find_job_absent(self@, job_id@);
                }
                Err(NativeDbError::Invalid("native PostgreSQL job not found".to_owned()))
            },
            Some(i) => {
                let ghost s = self@;
                proof {
                    lemma_find_job_unique(s, i as int, job_id@);
                }
                if self.entries[i].state != NativePostgresJobState::Running {
                    return Ok((self.entries[i].clone_status(), false));
                }
                let mut t = self.entries.remove(i);
                t.cancel_requested = true;
                t.updated_at_unix_ms = now_ms;
                let c = t.clone_status();
                self.entries.insert(i, t);
                proof {
                    assert(self@ =~= s.update(i as int, self@[i as int]));
                    lemma_replace_at(s, i as int, self@[i as int]);
                }
                Ok((c, true))
            },
        }
    }

    /// The held jobs, newest first, at most 64 of them.
    pub fn postgres_job_list(&self) -> (r: Vec<NativePostgresJobStatus>)
        requires
            self.wf(),
        ensures
            r@.len() == (if self@.len() < MAX_JOBS {
                self@.len() as int
            } else {
                MAX_JOBS as int
            }),
            newest_first(r@),
            unique_jobs(r@),
            forall|k: int| 0 <= k < r@.len() ==> self@.contains(#[trigger] r@[k]),
            forall|x: NativePostgresJobStatus|
                #![trigger self@.contains(x)]
                self@.contains(x) && !r@.contains(x) ==> r@.len() > 0
                    && x.created_at_unix_ms <= r@.last().created_at_unix_ms,
    {
        let ghost s = self@;
        let mut out: Vec<NativePostgresJobStatus> = Vec::new();
        let mut i: usize = 0;
        while i < self.entries.len()
            invariant
                0 <= i <= s.len(),
                s == self@,
                unique_jobs(s),
                out@.len() == i,
                newest_first(out@),
                unique_jobs(out@),
                forall|x: NativePostgresJobStatus| out@.contains(x) <==> s.take(i as int).contains(x),
            decreases s.len() - i,
        {
            let t = self.entries[i].clone_status();
            let created = t.created_at_unix_ms;
            let mut p: usize = 0;
            while p < out.len() && out[p].created_at_unix_ms >= created
                invariant
                    0 <= p <= out@.len(),
                    forall|k: int| 0 <= k < p ==> (#[trigger] out@[k]).created_at_unix_ms >= created,
                decreases out@.len() - p,
            {
                p += 1;
            }
            let ghost before = out@;
            out.insert(p, t);
            proof {
                let after = out@;
                assert(after =~= before.insert(p as int, t));
                assert forall|a: int, b: int| 0 <= a < b < after.len() implies #[trigger] after[a].created_at_unix_ms
                    >= #[trigger] after[b].created_at_unix_ms by {
                    if a < p && b == p {
                    } else if a == p && b > p {
                        assert(after[b] == before[b - 1]);
                        assert(before[p as int].created_at_unix_ms < created);
                        assert(before[p as int].created_at_unix_ms >= before[b - 1].created_at_unix_ms);
                    } else if a < p && b > p {
                        assert(after[b] == before[b - 1]);
                    } else if a > p {
                        assert(after[a] == before[a - 1] && after[b] == before[b - 1]);
                    }
                }
                assert(s.take(i + 1) =~= s.take(i as int).push(s[i as int]));
                assert forall|a: int, b: int| 0 <= a < b < after.len() implies #[trigger] after[a].job_id@
                    != #[trigger] after[b].job_id@ by {
                    if a == p || b == p {
                        let o = if a == p {
                            b
                        } else {
                            a
                        };
                        let oo = if o < p {
                            o
                        } else {
                            o - 1
                        };
                        assert(after[o] == before[oo]);
                        assert(before.contains(before[oo]));
                        let m = choose|m: int| 0 <= m < i && #[trigger] s.take(i as int)[m] == before[oo];
                        assert(s[m] == before[oo]);
                        assert(s[m].job_id@ != s[i as int].job_id@);
                    } else {
                        let aa = if a < p {
                            a
                        } else {
                            a - 1
                        };
                        let bb = if b < p {
                            b
                        } else {
                            b - 1
                        };
                        assert(after[a] == before[aa] && after[b] == before[bb]);
                    }
                }
                assert forall|x: NativePostgresJobStatus| after.contains(x) <==> s.take(i + 1).contains(x) by {
                    if after.contains(x) {
                        let k = choose|k: int| 0 <= k < after.len() && after[k] == x;
                        if k == p {
                            assert(s.take(i + 1)[i as int] == x);
                        } else {
                            let kk = if k < p {
                                k
                            } else {
                                k - 1
                            };
                            assert(before[kk] == x);
                            assert(before.contains(x));
                            let m = choose|m: int| 0 <= m < i && #[trigger] s.take(i as int)[m] == x;
                            assert(s.take(i + 1)[m] == x);
                        }
                    }
                    if s.take(i + 1).contains(x) {
                        let m = choose|m: int| 0 <= m <= i && #[trigger] s.take(i + 1)[m] == x;
                        if m == i {
                            assert(after[p as int] == x);
                        } else {
                            assert(s.take(i as int)[m] == x);
                            assert(before.contains(x));
                            let k = choose|k: int| 0 <= k < before.len() && before[k] == x;
                            if k < p {
                                assert(after[k] == x);
                            } else {
                                assert(after[k + 1] == x);
                            }
                        }
                    }
                }
            }
            i += 1;
        }
        proof {
            assert(s.take(s.len() as int) =~= s);
        }
        let ghost sorted = out@;
        out.truncate(MAX_JOBS);
        proof {
            let r = out@;
            assert(r =~= sorted.take(r.len() as int));
            assert forall|a: int, b: int| 0 <= a < b < r.len() implies #[trigger] r[a].job_id@
                != #[trigger] r[b].job_id@ by {
                assert(r[a] == sorted[a] && r[b] == sorted[b]);
            }
            assert forall|a: int, b: int| 0 <= a < b < r.len() implies #[trigger] r[a].created_at_unix_ms
                >= #[trigger] r[b].created_at_unix_ms by {
                assert(r[a] == sorted[a] && r[b] == sorted[b]);
            }
            assert forall|k: int| 0 <= k < r.len() implies s.contains(#[trigger] r[k]) by {
                assert(r[k] == sorted[k]);
                assert(sorted.contains(sorted[k]));
            }
            assert forall|x: NativePostgresJobStatus| #![trigger s.contains(x)] s.contains(x) && !r.contains(x)
                implies r.len() > 0 && x.created_at_unix_ms <= r.last().created_at_unix_ms by {
                assert(sorted.contains(x));
                let k = choose|k: int| 0 <= k < sorted.len() && sorted[k] == x;
                if k < r.len() {
                    assert(r[k] == x);
                }
                assert(r.len() == MAX_JOBS);
                assert(r.last() == sorted[r.len() - 1]);
            }
        }
        out
    }
}

/// A job just started is what the registry then gives back for its name.
pub proof fn lemma_started_job_is_found(s: Seq<NativePostgresJobStatus>, t: NativePostgresJobStatus)
    ensures
        find_job(s.push(t), t.job_id@) == Some(t),
{
    assert(s.push(t).drop_last() =~= s);
}

/// A job that ends after a cancellation was asked for is cancelled; one
/// that ends with an error otherwise has failed; one that ends without an
/// error has completed.
pub proof fn lemma_end_states(t: NativePostgresJobStatus, now: u128, failure: Option<String>)
    ensures
        failure is None ==> ended(t, now, failure).state == NativePostgresJobState::Completed,
        failure is Some && t.cancel_requested ==> ended(t, now, failure).state
            == NativePostgresJobState::Cancelled,
        failure is Some && !t.cancel_requested ==> ended(t, now, failure).state
            == NativePostgresJobState::Failed,
        ended(t, now, failure).job_id == t.job_id,
        ended(t, now, failure).created_at_unix_ms == t.created_at_unix_ms,
{
}

} // verus!
