//! Bookkeeping for native object handles.
//!
//! Every event, bitmap or application object this crate speaks about is
//! backed by a reference-counted object owned by the host system. The
//! discipline that keeps such objects sound — acquire once, retain on every
//! duplicate, release exactly once per reference, and dispatch each release
//! to the primitive of the family that produced the handle — is captured
//! here as a ledger over handle identities, so the discipline itself can be
//! specified and proved rather than trusted.

use std::collections::HashMap;
use vstd::prelude::*;

verus! {

broadcast use vstd::std_specs::hash::group_hash_axioms;

/// The release primitive a native handle family requires. Releasing a
/// handle through the wrong family's primitive corrupts the object, so the
/// ledger records the family at acquisition and hands it back at release.
#[derive(Copy, Clone, Debug, PartialEq, Eq, Structural)]
pub enum ReleaseKind {
    /// Released through the Core-Foundation-style release call.
    CoreFoundation,
    /// Released through the Cocoa-style release message.
    Cocoa,
}

/// What the ledger records of one live handle: the number of references
/// currently held on it and the release primitive its family requires.
#[derive(Copy, Clone, Debug, PartialEq, Eq, Structural)]
pub struct HandleRecord {
    /// References currently held on the handle.
    pub count: u64,
    /// The release primitive to use when a reference is given back.
    pub kind: ReleaseKind,
}

/// One retain applied to the record of `id`: its count grows by one and
/// every other handle is untouched.
pub open spec fn retain_step(m: Map<u64, HandleRecord>, id: u64) -> Map<u64, HandleRecord> {
    m.insert(id, HandleRecord { count: (m[id].count + 1) as u64, kind: m[id].kind })
}

/// One release applied to the record of `id`: the last reference removes
/// the record, any earlier one lowers its count by one.
pub open spec fn release_step(m: Map<u64, HandleRecord>, id: u64) -> Map<u64, HandleRecord> {
    if m[id].count <= 1 {
        m.remove(id)
    } else {
        m.insert(id, HandleRecord { count: (m[id].count - 1) as u64, kind: m[id].kind })
    }
}

/// `n` retains of `id` in a row.
pub open spec fn after_retains(m: Map<u64, HandleRecord>, id: u64, n: nat) -> Map<
    u64,
    HandleRecord,
>
    decreases n,
{
    if n == 0 {
        m
    } else {
        after_retains(retain_step(m, id), id, (n - 1) as nat)
    }
}

/// `n` releases of `id` in a row.
pub open spec fn after_releases(m: Map<u64, HandleRecord>, id: u64, n: nat) -> Map<
    u64,
    HandleRecord,
>
    decreases n,
{
    if n == 0 {
        m
    } else {
        after_releases(release_step(m, id), id, (n - 1) as nat)
    }
}

/// Retains accumulate: `n` retains of a live handle raise its count by `n`
/// and change nothing else.
pub proof fn lemma_after_retains(m: Map<u64, HandleRecord>, id: u64, n: nat)
    requires
        m.dom().contains(id),
        m[id].count + n <= u64::MAX,
    ensures
        after_retains(m, id, n) == m.insert(
            id,
            HandleRecord { count: (m[id].count + n) as u64, kind: m[id].kind },
        ),
    decreases n,
{
    if n == 0 {
        assert(HandleRecord { count: (m[id].count + 0) as u64, kind: m[id].kind } == m[id]);
        assert(m.insert(id, m[id]) =~= m);
    } else {
        let m1 = retain_step(m, id);
        lemma_after_retains(m1, id, (n - 1) as nat);
        assert(m1.insert(
            id,
            HandleRecord { count: (m1[id].count + (n - 1)) as u64, kind: m1[id].kind },
        ) =~= m.insert(id, HandleRecord { count: (m[id].count + n) as u64, kind: m[id].kind }));
    }
}

/// Releases drain: `k` releases of a handle holding `c >= k` references
/// leave it live with `c - k` references while `k < c`, and remove its
/// record exactly when `k == c`.
pub proof fn lemma_after_releases_drain(m: Map<u64, HandleRecord>, id: u64, k: nat)
    requires
        m.dom().contains(id),
        m[id].count >= 1,
        k <= m[id].count,
    ensures
        k < m[id].count ==> after_releases(m, id, k) == m.insert(
            id,
            HandleRecord { count: (m[id].count - k) as u64, kind: m[id].kind },
        ),
        k == m[id].count ==> after_releases(m, id, k) == m.remove(id),
    decreases k,
{
    if k == 0 {
        assert(HandleRecord { count: (m[id].count - 0) as u64, kind: m[id].kind } == m[id]);
        assert(m.insert(id, m[id]) =~= m);
    } else {
        let m1 = release_step(m, id);
        if m[id].count == 1 {
            assert(after_releases(m, id, k) == after_releases(m1, id, (k - 1) as nat));
        } else {
            lemma_after_releases_drain(m1, id, (k - 1) as nat);
            if k < m[id].count {
                assert(m1.insert(
                    id,
                    HandleRecord { count: (m1[id].count - (k - 1)) as u64, kind: m1[id].kind },
                ) =~= m.insert(
                    id,
                    HandleRecord { count: (m[id].count - k) as u64, kind: m[id].kind },
                ));
            } else {
                assert(m1.remove(id) =~= m.remove(id));
            }
        }
    }
}

/// Reference-count symmetry: acquire a fresh handle, retain it `n` more
/// times, and `n + 1` releases — exactly one per reference — return the
/// ledger to the state it held before the handle was acquired; until the
/// last of those releases the handle stays live, so a duplicate may still
/// be used after the original reference was given back.
pub proof fn lemma_retain_release_symmetry(
    m: Map<u64, HandleRecord>,
    id: u64,
    kind: ReleaseKind,
    n: nat,
)
    requires
        !m.dom().contains(id),
        n + 1 <= u64::MAX,
    ensures
        after_releases(
            after_retains(m.insert(id, (HandleRecord { count: 1, kind })), id, n),
            id,
            n + 1,
        ) == m,
        forall|k: nat|
            k <= n ==> #[trigger] after_releases(
                after_retains(m.insert(id, (HandleRecord { count: 1, kind })), id, n),
                id,
                k,
            ).dom().contains(id),
{
    let m0 = m.insert(id, HandleRecord { count: 1, kind });
    lemma_after_retains(m0, id, n);
    let mr = after_retains(m0, id, n);
    assert(mr =~= m.insert(id, HandleRecord { count: (n + 1) as u64, kind }));
    lemma_after_releases_drain(mr, id, n + 1);
    assert(mr.remove(id) =~= m);
    assert forall|k: nat| k <= n implies after_releases(mr, id, k).dom().contains(id) by {
        lemma_after_releases_drain(mr, id, k);
    }
}

/// A ledger of the native handles currently held by this process, keyed by
/// handle identity (in practice, the native object's address).
///
/// The unverified shell registers every handle it acquires, reports every
/// duplicate as a retain, and asks the ledger at teardown which release
/// primitive to dispatch; the contracts below pin down what each of those
/// steps does to the records.
pub struct HandleLedger {
    table: HashMap<u64, HandleRecord>,
}

impl HandleLedger {
    /// The records of all live handles, keyed by handle identity.
    pub closed spec fn records(self) -> Map<u64, HandleRecord> {
        self.table@
    }

    /// Every live record holds at least one reference.
    pub open spec fn wf(self) -> bool {
        forall|id: u64|
            #[trigger] self.records().dom().contains(id) ==> self.records()[id].count >= 1
    }

    /// Whether `id` is currently tracked.
    pub open spec fn live(self, id: u64) -> bool {
        self.records().dom().contains(id)
    }

    /// The references currently held on `id`.
    pub open spec fn count_of(self, id: u64) -> u64 {
        self.records()[id].count
    }

    /// The release primitive recorded for `id`.
    pub open spec fn kind_of(self, id: u64) -> ReleaseKind {
        self.records()[id].kind
    }

    /// An empty ledger: no handle is held.
    pub fn new() -> (r: HandleLedger)
        ensures
            r.wf(),
            r.records() == Map::<u64, HandleRecord>::empty(),
    {
        HandleLedger { table: HashMap::new() }
    }

    /// Records a freshly acquired handle with a single reference and the
    /// release primitive of its family.
    pub fn track(&mut self, id: u64, kind: ReleaseKind)
        requires
            old(self).wf(),
            !old(self).live(id),
        ensures
            final(self).wf(),
            final(self).records() == old(self).records().insert(
                id,
                (HandleRecord { count: 1, kind }),
            ),
    {
        self.table.insert(id, HandleRecord { count: 1, kind });
    }

    /// Records one more reference on a live handle, as taken by a native
    /// retain or copy; a raw bit-copy never goes through here, which is
    /// what makes the release count come out even.
    pub fn retain(&mut self, id: u64)
        requires
            old(self).wf(),
            old(self).live(id),
            old(self).count_of(id) < u64::MAX,
        ensures
            final(self).wf(),
            final(self).records() == retain_step(old(self).records(), id),
    {
        let record = *self.table.get(&id).unwrap();
        self.table.insert(id, HandleRecord { count: record.count + 1, kind: record.kind });
    }

    /// Gives one reference back and returns the release primitive the
    /// caller must dispatch. The last reference removes the record, so a
    /// further release of the same identity is ruled out by `live`.
    pub fn release(&mut self, id: u64) -> (kind: ReleaseKind)
        requires
            old(self).wf(),
            old(self).live(id),
        ensures
            final(self).wf(),
            kind == old(self).kind_of(id),
            final(self).records() == release_step(old(self).records(), id),
            old(self).count_of(id) == 1 ==> !final(self).live(id),
            old(self).count_of(id) > 1 ==> final(self).live(id) && final(self).count_of(id)
                as int == old(self).count_of(id) - 1,
    {
        let record = *self.table.get(&id).unwrap();
        if record.count == 1 {
            self.table.remove(&id);
        } else {
            self.table.insert(id, HandleRecord { count: record.count - 1, kind: record.kind });
        }
        record.kind
    }

    /// Whether `id` is currently tracked.
    pub fn is_live(&self, id: u64) -> (r: bool)
        ensures
            r == self.live(id),
    {
        self.table.contains_key(&id)
    }

    /// The references currently held on the live handle `id`.
    pub fn retain_count(&self, id: u64) -> (r: u64)
        requires
            self.live(id),
        ensures
            r == self.count_of(id),
    {
        self.table.get(&id).unwrap().count
    }

    /// How many distinct handles are live.
    pub fn live_handles(&self) -> (r: usize)
        ensures
            r == self.records().len(),
    {
        self.table.len()
    }
}

} // verus!
