//! The registry of open read-only PostgreSQL transactions: which are held,
//! when each expires, and how many statements each has run. The connections
//! themselves are held beside it, under the same identifiers.
use crate::database_native::{
    native_invalid, open_transaction, transaction_admit, transaction_ran, transaction_ttl_spec,
    validate_native_job_id, NativeDbError, NativePostgresTransactionState,
};
use crate::text::{is_token, str_eq, ByteClass};
use vstd::prelude::*;

verus! {

/// The most transactions held at once.
pub const MAX_TRANSACTIONS: usize = 32;

/// Whether a transaction is still usable at `now`: not closed, not expired.
pub open spec fn live(t: NativePostgresTransactionState, now: u128) -> bool {
    !t.closed && t.expires_at_unix_ms >= now
}

/// The live transactions of `s`, in order.
pub open spec fn keep_live(s: Seq<NativePostgresTransactionState>, now: u128) -> Seq<
    NativePostgresTransactionState,
>
    decreases s.len(),
{
    if s.len() == 0 {
        s
    } else if live(s.last(), now) {
        keep_live(s.drop_last(), now).push(s.last())
    } else {
        keep_live(s.drop_last(), now)
    }
}

/// The transactions of `s` other than `id`, in order.
pub open spec fn drop_id(s: Seq<NativePostgresTransactionState>, id: Seq<char>) -> Seq<
    NativePostgresTransactionState,
>
    decreases s.len(),
{
    if s.len() == 0 {
        s
    } else if s.last().transaction_id@ == id {
        drop_id(s.drop_last(), id)
    } else {
        drop_id(s.drop_last(), id).push(s.last())
    }
}

/// The transaction of `s` named `id`, if there is one (the last so named).
pub open spec fn find_id(s: Seq<NativePostgresTransactionState>, id: Seq<char>) -> Option<
    NativePostgresTransactionState,
>
    decreases s.len(),
{
    if s.len() == 0 {
        None
    } else if s.last().transaction_id@ == id {
        Some(s.last())
    } else {
        find_id(s.drop_last(), id)
    }
}

/// No two transactions share an identifier.
pub open spec fn unique_ids(s: Seq<NativePostgresTransactionState>) -> bool {
    forall|i: int, j: int|
        0 <= i < j < s.len() ==> #[trigger] s[i].transaction_id@ != #[trigger] s[j].transaction_id@
}

/// The transaction just opened at `now` under `id`.
pub open spec fn opened(id: Seq<char>, now: u128, ttl_seconds: u64, t: NativePostgresTransactionState) -> bool {
    &&& t.transaction_id@ == id
    &&& t.opened_at_unix_ms == now
    &&& t.expires_at_unix_ms == now + transaction_ttl_spec(ttl_seconds) * 1000
    &&& t.statements_executed == 0
    &&& !t.closed
}

pub open spec fn not_found<T>(r: Result<T, NativeDbError>) -> bool {
    native_invalid(r, "native PostgreSQL transaction not found"@)
}

/// The open read-only transactions, each under its own identifier.
pub struct TransactionRegistry {
    entries: Vec<NativePostgresTransactionState>,
}

impl View for TransactionRegistry {
    type V = Seq<NativePostgresTransactionState>;

    closed spec fn view(&self) -> Seq<NativePostgresTransactionState> {
        self.entries@
    }
}

proof fn lemma_keep_live_len(s: Seq<NativePostgresTransactionState>, now: u128)
    ensures
        keep_live(s, now).len() <= s.len(),
    decreases s.len(),
{
    if s.len() > 0 {
        lemma_keep_live_len(s.drop_last(), now);
    }
}

proof fn lemma_keep_live_members(s: Seq<NativePostgresTransactionState>, now: u128)
    ensures
        forall|k: int|
            0 <= k < keep_live(s, now).len() ==> s.contains(#[trigger] keep_live(s, now)[k]),
    decreases s.len(),
{
    if s.len() > 0 {
        lemma_keep_live_members(s.drop_last(), now);
        let d = keep_live(s.drop_last(), now);
        assert forall|k: int| 0 <= k < keep_live(s, now).len() implies s.contains(
            #[trigger] keep_live(s, now)[k],
        ) by {
            if k < d.len() {
                assert(s.drop_last().contains(d[k]));
                let j = choose|j: int| 0 <= j < s.drop_last().len() && s.drop_last()[j] == d[k];
                assert(s[j] == d[k]);
            } else {
                assert(s[s.len() - 1] == keep_live(s, now)[k]);
            }
        }
    }
}

proof fn lemma_drop_id_members(s: Seq<NativePostgresTransactionState>, id: Seq<char>)
    ensures
        drop_id(s, id).len() <= s.len(),
        forall|k: int|
            0 <= k < drop_id(s, id).len() ==> s.contains(#[trigger] drop_id(s, id)[k])
                && drop_id(s, id)[k].transaction_id@ != id,
    decreases s.len(),
{
    if s.len() > 0 {
        lemma_drop_id_members(s.drop_last(), id);
        let d = drop_id(s.drop_last(), id);
        assert forall|k: int| 0 <= k < drop_id(s, id).len() implies s.contains(
            #[trigger] drop_id(s, id)[k],
        ) && drop_id(s, id)[k].transaction_id@ != id by {
            if k < d.len() {
                assert(s.drop_last().contains(d[k]));
                let j = choose|j: int| 0 <= j < s.drop_last().len() && s.drop_last()[j] == d[k];
                assert(s[j] == d[k]);
            } else {
                assert(s[s.len() - 1] == drop_id(s, id)[k]);
            }
        }
    }
}

/// A subsequence-like result whose members come from a sequence with unique
/// identifiers keeps them unique.
proof fn lemma_filter_unique(s: Seq<NativePostgresTransactionState>, now: u128, id: Seq<char>)
    requires
        unique_ids(s),
    ensures
        unique_ids(keep_live(s, now)),
        unique_ids(drop_id(s, id)),
    decreases s.len(),
{
    if s.len() > 0 {
        let p = s.drop_last();
        assert(unique_ids(p)) by {
            assert forall|i: int, j: int| 0 <= i < j < p.len() implies #[trigger] p[i].transaction_id@
                != #[trigger] p[j].transaction_id@ by {
                assert(s[i] == p[i] && s[j] == p[j]);
            }
        }
        lemma_filter_unique(p, now, id);
        lemma_keep_live_members(p, now);
        lemma_drop_id_members(p, id);
        let l = s.last();
        assert forall|x: NativePostgresTransactionState| p.contains(x) implies x.transaction_id@
            != l.transaction_id@ by {
            let j = choose|j: int| 0 <= j < p.len() && p[j] == x;
            assert(s[j] == x);
            assert(s[s.len() - 1] == l);
        }
        let a = keep_live(p, now);
        if live(l, now) {
            assert forall|i: int, j: int| 0 <= i < j < a.push(l).len() implies #[trigger] a.push(
                l,
            )[i].transaction_id@ != #[trigger] a.push(l)[j].transaction_id@ by {
                if j == a.len() {
                    assert(p.contains(a[i]));
                }
            }
        }
        let b = drop_id(p, id);
        if l.transaction_id@ != id {
            assert forall|i: int, j: int| 0 <= i < j < b.push(l).len() implies #[trigger] b.push(
                l,
            )[i].transaction_id@ != #[trigger] b.push(l)[j].transaction_id@ by {
                if j == b.len() {
                    assert(p.contains(b[i]));
                }
            }
        }
    }
}

proof fn lemma_find_absent(s: Seq<NativePostgresTransactionState>, id: Seq<char>)
    requires
        forall|k: int| 0 <= k < s.len() ==> (#[trigger] s[k]).transaction_id@ != id,
    ensures
        find_id(s, id) is None,
    decreases s.len(),
{
    if s.len() > 0 {
        assert(s[s.len() - 1].transaction_id@ != id);
        assert forall|k: int| 0 <= k < s.drop_last().len() implies (
        #[trigger] s.drop_last()[k]).transaction_id@ != id by {
            assert(s[k] == s.drop_last()[k]);
        }
        lemma_find_absent(s.drop_last(), id);
    }
}

/// What `find_id` finds is at an index of `s`, and nothing after it has the
/// same identifier.
proof fn lemma_find_index(s: Seq<NativePostgresTransactionState>, id: Seq<char>) -> (i: int)
    requires
        find_id(s, id) is Some,
    ensures
        0 <= i < s.len(),
        s[i] == find_id(s, id)->0,
        s[i].transaction_id@ == id,
    decreases s.len(),
{
    if s.last().transaction_id@ == id {
        s.len() - 1
    } else {
        let i = lemma_find_index(s.drop_last(), id);
        assert(s[i] == s.drop_last()[i]);
        i
    }
}

proof fn lemma_find_exists(s: Seq<NativePostgresTransactionState>, id: Seq<char>, i: int)
    requires
        0 <= i < s.len(),
        s[i].transaction_id@ == id,
    ensures
        find_id(s, id) is Some,
    decreases s.len(),
{
    if s.last().transaction_id@ != id {
        assert(i < s.len() - 1);
        assert(s.drop_last()[i] == s[i]);
        lemma_find_exists(s.drop_last(), id, i);
    }
}

impl TransactionRegistry {
    /// The well-formed registry: every identifier held once.
    pub open spec fn wf(&self) -> bool {
        unique_ids(self@)
    }

    /// An empty registry.
    pub fn new() -> (r: TransactionRegistry)
        ensures
            r@ == Seq::<NativePostgresTransactionState>::empty(),
            r.wf(),
    {
        TransactionRegistry { entries: Vec::new() }
    }

    /// The number of transactions held.
    pub fn len(&self) -> (r: usize)
        ensures
            r == self@.len(),
    {
        self.entries.len()
    }

    /// Where transaction `id` is held, if it is.
    fn position(&self, id: &str) -> (r: Option<usize>)
        ensures
            r matches Some(i) ==> i < self@.len() && self@[i as int].transaction_id@ == id@,
            r is None ==> forall|k: int| 0 <= k < self@.len() ==> (#[trigger] self@[k]).transaction_id@ != id@,
    {
        let mut i: usize = 0;
        while i < self.entries.len()
            invariant
                0 <= i <= self@.len(),
                forall|k: int| 0 <= k < i ==> (#[trigger] self@[k]).transaction_id@ != id@,
            decreases self@.len() - i,
        {
            if str_eq(self.entries[i].transaction_id.as_str(), id) {
                return Some(i);
            }
            i += 1;
        }
        None
    }

    /// Drops the closed and expired transactions, keeping the others in order.
    fn prune(&mut self, now_ms: u128)
        requires
            old(self).wf(),
        ensures
            final(self)@ == keep_live(old(self)@, now_ms),
            final(self).wf(),
    {
        let ghost s = self@;
        assert(s.len() == self.entries.len());
        let mut kept: Vec<NativePostgresTransactionState> = Vec::new();
        let mut i: usize = 0;
        assert(s.take(0) =~= Seq::<NativePostgresTransactionState>::empty());
        while self.entries.len() > 0
            invariant
                0 <= i <= s.len(),
                s.len() <= usize::MAX,
                self@ == s.skip(i as int),
                kept@ == keep_live(s.take(i as int), now_ms),
            decreases s.len() - i,
        {
            let t = self.entries.remove(0);
            assert(t == s[i as int]);
            assert(s.take(i + 1).drop_last() =~= s.take(i as int));
            assert(s.take(i + 1).last() == s[i as int]);
            assert(self@ =~= s.skip(i + 1));
            if !t.closed && t.expires_at_unix_ms >= now_ms {
                kept.push(t);
            }
            i += 1;
        }
        assert(s.take(s.len() as int) =~= s);
        proof {
            lemma_filter_unique(s, now_ms, Seq::empty());
        }
        self.entries = kept;
    }

    /// Opens transaction `transaction_id` at `now_ms`: drops the closed and
    /// expired ones, refuses a 33rd, and holds the new one (in place of any
    /// other of the same name).
    pub fn postgres_read_transaction_start(
        &mut self,
        transaction_id: String,
        now_ms: u128,
        ttl_seconds: u64,
    ) -> (r: Result<NativePostgresTransactionState, NativeDbError>)
        requires
            old(self).wf(),
            now_ms + 60000 <= u128::MAX,
        ensures
            final(self).wf(),
            keep_live(old(self)@, now_ms).len() >= MAX_TRANSACTIONS ==> native_invalid(
                r,
                "native PostgreSQL transaction limit reached"@,
            ) && final(self)@ == keep_live(old(self)@, now_ms),
            keep_live(old(self)@, now_ms).len() < MAX_TRANSACTIONS ==> (r matches Ok(t) && opened(
                transaction_id@,
                now_ms,
                ttl_seconds,
                t,
            ) && final(self)@ == drop_id(keep_live(old(self)@, now_ms), transaction_id@).push(t)),
    {
        proof {
            lemma_keep_live_len(old(self)@, now_ms);
        }
        self.prune(now_ms);
        if self.entries.len() >= MAX_TRANSACTIONS {
            return Err(NativeDbError::Invalid("native PostgreSQL transaction limit reached".to_owned()));
        }
        let ghost p = self@;
        match self.position(transaction_id.as_str()) {
            Some(i) => {
                let _ = self.entries.remove(i);
                proof {
                    lemma_drop_unique(p, i as int, transaction_id@);
                }
            },
            None => {
                proof {
                    lemma_drop_absent(p, transaction_id@);
                }
            },
        }
        let t = open_transaction(transaction_id, now_ms, ttl_seconds);
        let ghost before = self@;
        proof {
            lemma_drop_id_members(p, t.transaction_id@);
            lemma_filter_unique(p, now_ms, t.transaction_id@);
        }
        self.entries.push(t.clone_state());
        proof {
            assert forall|i: int, j: int| 0 <= i < j < self@.len() implies #[trigger] self@[i].transaction_id@
                != #[trigger] self@[j].transaction_id@ by {
                if j == before.len() {
                    assert(self@[i] == before[i]);
                }
            }
        }
        Ok(t)
    }

    /// The state of transaction `transaction_id`.
    pub fn postgres_read_transaction_status(&self, transaction_id: &str) -> (r: Result<
        NativePostgresTransactionState,
        NativeDbError,
    >)
        requires
            self.wf(),
        ensures
            !is_token(transaction_id@, 8, 160, ByteClass::DottedIdent) ==> native_invalid(
                r,
                "invalid native PostgreSQL job id"@,
            ),
            is_token(transaction_id@, 8, 160, ByteClass::DottedIdent) ==> match find_id(
                self@,
                transaction_id@,
            ) {
                Some(t) => r == Ok::<NativePostgresTransactionState, NativeDbError>(t),
                None => not_found(r),
            },
    {
        validate_native_job_id(transaction_id)?;
        match self.position(transaction_id) {
            Some(i) => {
                proof {
                    lemma_find_unique(self@, i as int, transaction_id@);
                }
                Ok(self.entries[i].clone_state())
            },
            None => {
                proof {
                    lemma_find_absent(self@, transaction_id@);
                }
                Err(NativeDbError::Invalid("native PostgreSQL transaction not found".to_owned()))
            },
        }
    }

    /// Lets transaction `transaction_id` run one more statement at `now_ms`:
    /// an expired one is closed and refused, and one that has run 100
    /// statements is refused.
    pub fn allow_statement(&mut self, transaction_id: &str, now_ms: u128) -> (r: Result<(), NativeDbError>)
        requires
            old(self).wf(),
        ensures
            final(self).wf(),
            final(self)@.len() == old(self)@.len(),
            !is_token(transaction_id@, 8, 160, ByteClass::DottedIdent) ==> native_invalid(
                r,
                "invalid native PostgreSQL job id"@,
            ) && final(self)@ == old(self)@,
            is_token(transaction_id@, 8, 160, ByteClass::DottedIdent) ==> match find_id(
                old(self)@,
                transaction_id@,
            ) {
                None => not_found(r) && final(self)@ == old(self)@,
                Some(t) => if t.expires_at_unix_ms < now_ms {
                    native_invalid(r, "native PostgreSQL transaction expired"@)
                        && find_id(final(self)@, transaction_id@) == Some(
                        NativePostgresTransactionState { closed: true, ..t },
                    )
                } else if t.statements_executed >= 100 {
                    native_invalid(r, "native PostgreSQL transaction statement limit reached"@)
                        && final(self)@ == old(self)@
                } else {
                    r is Ok && final(self)@ == old(self)@
                },
            },
    {
        validate_native_job_id(transaction_id)?;
        match self.position(transaction_id) {
            None => {
                proof {
                    lemma_find_absent(self@, transaction_id@);
                }
                Err(NativeDbError::Invalid("native PostgreSQL transaction not found".to_owned()))
            },
            Some(i) => {
                let ghost s = self@;
                proof {
                    lemma_find_unique(s, i as int, transaction_id@);
                }
                let mut t = self.entries.remove(i);
                let outcome = transaction_admit(&mut t, now_ms);
                self.entries.insert(i, t);
                proof {
                    let s2 = self@;
                    assert(s2 =~= s.update(i as int, s2[i as int]));
                    assert forall|a: int, b: int| 0 <= a < b < s2.len() implies #[trigger] s2[a].transaction_id@
                        != #[trigger] s2[b].transaction_id@ by {
                        assert(s[a].transaction_id@ != s[b].transaction_id@);
                    }
                    lemma_find_unique(s2, i as int, transaction_id@);
                    if outcome is Err && !(s[i as int].expires_at_unix_ms < now_ms) {
                        assert(s2 =~= s);
                    }
                    if outcome is Ok {
                        assert(s2 =~= s);
                    }
                }
                outcome
            },
        }
    }

    /// Counts one more statement run in transaction `transaction_id`.
    pub fn ran(&mut self, transaction_id: &str)
        requires
            old(self).wf(),
        ensures
            final(self).wf(),
            final(self)@.len() == old(self)@.len(),
            match find_id(old(self)@, transaction_id@) {
                None => final(self)@ == old(self)@,
                Some(t) => find_id(final(self)@, transaction_id@) == Some(
                    NativePostgresTransactionState {
                        statements_executed: if t.statements_executed == u32::MAX {
                            u32::MAX
                        } else {
                            (t.statements_executed + 1) as u32
                        },
                        ..t
                    },
                ),
            },
    {
        match self.position(transaction_id) {
            None => {
                proof {
                    lemma_find_absent(self@, transaction_id@);
                }
            },
            Some(i) => {
                let ghost s = self@;
                proof {
                    lemma_find_unique(s, i as int, transaction_id@);
                }
                let mut t = self.entries.remove(i);
                transaction_ran(&mut t);
                self.entries.insert(i, t);
                proof {
                    let s2 = self@;
                    assert(s2 =~= s.update(i as int, s2[i as int]));
                    assert forall|a: int, b: int| 0 <= a < b < s2.len() implies #[trigger] s2[a].transaction_id@
                        != #[trigger] s2[b].transaction_id@ by {
                        assert(s[a].transaction_id@ != s[b].transaction_id@);
                    }
                    lemma_find_unique(s2, i as int, transaction_id@);
                }
            },
        }
    }

    /// Closes transaction `transaction_id`: it leaves the registry, and its
    /// last state, marked closed, comes back.
    pub fn postgres_read_transaction_close(&mut self, transaction_id: &str) -> (r: Result<
        NativePostgresTransactionState,
        NativeDbError,
    >)
        requires
            old(self).wf(),
        ensures
            final(self).wf(),
            !is_token(transaction_id@, 8, 160, ByteClass::DottedIdent) ==> native_invalid(
                r,
                "invalid native PostgreSQL job id"@,
            ) && final(self)@ == old(self)@,
            is_token(transaction_id@, 8, 160, ByteClass::DottedIdent) ==> match find_id(
                old(self)@,
                transaction_id@,
            ) {
                None => not_found(r) && final(self)@ == old(self)@,
                Some(t) => r == Ok::<NativePostgresTransactionState, NativeDbError>(
                    NativePostgresTransactionState { closed: true, ..t },
                ) && final(self)@ == drop_id(old(self)@, transaction_id@),
            },
    {
        validate_native_job_id(transaction_id)?;
        match self.position(transaction_id) {
            None => {
                proof {
                    lemma_find_absent(self@, transaction_id@);
                }
                Err(NativeDbError::Invalid("native PostgreSQL transaction not found".to_owned()))
            },
            Some(i) => {
                let ghost s = self@;
                proof {
                    lemma_find_unique(s, i as int, transaction_id@);
                }
                let mut t = self.entries.remove(i);
                proof {
                    lemma_drop_unique(s, i as int, transaction_id@);
                    lemma_filter_unique(s, 0, transaction_id@);
                }
                t.closed = true;
                Ok(t)
            },
        }
    }
}

impl NativePostgresTransactionState {
    /// A copy of the state.
    pub fn clone_state(&self) -> (r: NativePostgresTransactionState)
        ensures
            r == *self,
    {
        NativePostgresTransactionState {
            transaction_id: self.transaction_id.clone(),
            opened_at_unix_ms: self.opened_at_unix_ms,
            expires_at_unix_ms: self.expires_at_unix_ms,
            statements_executed: self.statements_executed,
            closed: self.closed,
        }
    }
}

proof fn lemma_drop_absent(s: Seq<NativePostgresTransactionState>, id: Seq<char>)
    requires
        forall|k: int| 0 <= k < s.len() ==> (#[trigger] s[k]).transaction_id@ != id,
    ensures
        drop_id(s, id) == s,
    decreases s.len(),
{
    if s.len() > 0 {
        assert(s[s.len() - 1].transaction_id@ != id);
        assert forall|k: int| 0 <= k < s.drop_last().len() implies (
        #[trigger] s.drop_last()[k]).transaction_id@ != id by {
            assert(s[k] == s.drop_last()[k]);
        }
        lemma_drop_absent(s.drop_last(), id);
        assert(s.drop_last().push(s.last()) =~= s);
    }
}

/// In a registry with unique names, the entry at `i` named `id` is what
/// `find_id` finds.
proof fn lemma_find_unique(s: Seq<NativePostgresTransactionState>, i: int, id: Seq<char>)
    requires
        unique_ids(s),
        0 <= i < s.len(),
        s[i].transaction_id@ == id,
    ensures
        find_id(s, id) == Some(s[i]),
    decreases s.len(),
{
    if i < s.len() - 1 {
        assert(s[i].transaction_id@ != s[s.len() - 1].transaction_id@);
        let p = s.drop_last();
        assert(unique_ids(p)) by {
            assert forall|a: int, b: int| 0 <= a < b < p.len() implies #[trigger] p[a].transaction_id@
                != #[trigger] p[b].transaction_id@ by {
                assert(s[a] == p[a] && s[b] == p[b]);
            }
        }
        assert(p[i] == s[i]);
        lemma_find_unique(p, i, id);
    }
}

/// In a sequence with unique names, removing the entry at `i`, named `id`,
/// is dropping `id`.
proof fn lemma_drop_unique(s: Seq<NativePostgresTransactionState>, i: int, id: Seq<char>)
    requires
        unique_ids(s),
        0 <= i < s.len(),
        s[i].transaction_id@ == id,
    ensures
        drop_id(s, id) == s.remove(i),
    decreases s.len(),
{
    let p = s.drop_last();
    if i == s.len() - 1 {
        assert forall|k: int| 0 <= k < p.len() implies (#[trigger] p[k]).transaction_id@ != id by {
            assert(s[k] == p[k]);
        }
        lemma_drop_absent(p, id);
        assert(s.remove(i) =~= p);
    } else {
        assert(s[i].transaction_id@ != s[s.len() - 1].transaction_id@);
        assert(unique_ids(p)) by {
            assert forall|a: int, b: int| 0 <= a < b < p.len() implies #[trigger] p[a].transaction_id@
                != #[trigger] p[b].transaction_id@ by {
                assert(s[a] == p[a] && s[b] == p[b]);
            }
        }
        assert(p[i] == s[i]);
        lemma_drop_unique(p, i, id);
        assert(p.remove(i).push(s.last()) =~= s.remove(i));
    }
}

/// A transaction just opened is what the registry then gives back for its
/// name.
pub proof fn lemma_started_is_found(s: Seq<NativePostgresTransactionState>, t: NativePostgresTransactionState)
    ensures
        find_id(s.push(t), t.transaction_id@) == Some(t),
{
    assert(s.push(t).drop_last() =~= s);
}

/// Once closed, a transaction is no longer found.
pub proof fn lemma_closed_is_gone(s: Seq<NativePostgresTransactionState>, id: Seq<char>)
    ensures
        find_id(drop_id(s, id), id) is None,
{
    lemma_drop_id_members(s, id);
    let d = drop_id(s, id);
    assert forall|k: int| 0 <= k < d.len() implies (#[trigger] d[k]).transaction_id@ != id by {}
    lemma_find_absent(d, id);
}

/// The registry never holds more than 32 transactions once a start has
/// succeeded.
pub proof fn lemma_start_bounded(s: Seq<NativePostgresTransactionState>, now: u128, t: NativePostgresTransactionState)
    requires
        keep_live(s, now).len() < MAX_TRANSACTIONS,
    ensures
        drop_id(keep_live(s, now), t.transaction_id@).push(t).len() <= MAX_TRANSACTIONS,
{
    lemma_drop_id_members(keep_live(s, now), t.transaction_id@);
}

} // verus!
