//! The finalization contract this protocol expects of the ledger
//! collaborator, as a verified in-memory reference.
//!
//! The gadget finalizes the same hash more than once in normal operation —
//! once locally by the attester and again when its own flooded message
//! comes back — so finalize must be idempotent and must never regress:
//! once a hash is finalized it stays finalized, and a later justification
//! for an already-finalized hash is a no-op rather than an error. This
//! ledger makes that an explicit, proved contract; a real storage backend
//! stands behind it outside this crate.

use vstd::prelude::*;

use crate::codec::copy_range;

verus! {

/// One finalized block: its hash and the justification persisted with it.
#[derive(Debug)]
struct LedgerEntry {
    hash: Vec<u8>,
    justification: Vec<u8>,
}

/// The finalized blocks, each with its persisted justification.
#[derive(Debug)]
pub struct InMemoryLedger {
    entries: Vec<LedgerEntry>,
}

/// The (hash, justification) pairs a list of entries denotes.
spec fn entry_views(entries: Seq<LedgerEntry>) -> Seq<(Seq<u8>, Seq<u8>)> {
    entries.map_values(|e: LedgerEntry| (e.hash@, e.justification@))
}

/// The map a list of (hash, justification) entries denotes.
pub open spec fn spec_entries_map(entries: Seq<(Seq<u8>, Seq<u8>)>) -> Map<Seq<u8>, Seq<u8>>
    decreases entries.len(),
{
    if entries.len() == 0 {
        Map::empty()
    } else {
        spec_entries_map(entries.drop_last()).insert(entries.last().0, entries.last().1)
    }
}

impl View for InMemoryLedger {
    type V = Map<Seq<u8>, Seq<u8>>;

    closed spec fn view(&self) -> Map<Seq<u8>, Seq<u8>> {
        spec_entries_map(entry_views(self.entries@))
    }
}

/// How one finalize call changes the ledger: a hash not yet finalized is
/// recorded with its justification; an already-finalized hash is left
/// exactly as it was.
pub open spec fn spec_finalize(
    m: Map<Seq<u8>, Seq<u8>>,
    hash: Seq<u8>,
    justification: Seq<u8>,
) -> Map<Seq<u8>, Seq<u8>> {
    if m.dom().contains(hash) {
        m
    } else {
        m.insert(hash, justification)
    }
}

/// A key is in the denoted map exactly when some entry carries it.
proof fn lemma_entries_map_contains(entries: Seq<(Seq<u8>, Seq<u8>)>, hash: Seq<u8>)
    ensures
        spec_entries_map(entries).dom().contains(hash) <==> exists|i: int|
            0 <= i < entries.len() && entries[i].0 == hash,
    decreases entries.len(),
{
    if entries.len() > 0 {
        let prefix = entries.drop_last();
        lemma_entries_map_contains(prefix, hash);
        if entries.last().0 == hash {
            assert(entries[entries.len() - 1].0 == hash);
        } else {
            if spec_entries_map(entries).dom().contains(hash) {
                let i = choose|i: int| 0 <= i < prefix.len() && prefix[i].0 == hash;
                assert(entries[i].0 == hash);
            }
            if exists|i: int| 0 <= i < entries.len() && entries[i].0 == hash {
                let i = choose|i: int| 0 <= i < entries.len() && entries[i].0 == hash;
                assert(i < entries.len() - 1);
                assert(prefix[i].0 == hash);
            }
        }
    }
}

/// Compares two byte strings.
fn bytes_eq(a: &Vec<u8>, b: &Vec<u8>) -> (r: bool)
    ensures
        r == (a@ == b@),
{
    if a.len() != b.len() {
        return false;
    }
    let n: usize = a.len();
    let mut i: usize = 0;
    while i < n
        invariant
            i <= n,
            n == a@.len(),
            n == b@.len(),
            forall|j: int| 0 <= j < i ==> a@[j] == b@[j],
        decreases n - i,
    {
        if a[i] != b[i] {
            return false;
        }
        i = i + 1;
    }
    proof {
        assert(a@ =~= b@);
    }
    true
}

impl InMemoryLedger {
    /// A ledger with nothing finalized.
    pub fn new() -> (r: InMemoryLedger)
        ensures
            r@ == Map::<Seq<u8>, Seq<u8>>::empty(),
    {
        let r = InMemoryLedger { entries: Vec::new() };
        proof {
            assert(entry_views(r.entries@) =~= Seq::<(Seq<u8>, Seq<u8>)>::empty());
        }
        r
    }

    /// Whether this hash has been finalized.
    pub fn is_finalized(&self, hash: &Vec<u8>) -> (r: bool)
        ensures
            r == self@.dom().contains(hash@),
    {
        let ghost views = entry_views(self.entries@);
        let n: usize = self.entries.len();
        let mut i: usize = 0;
        while i < n
            invariant
                i <= n,
                n == self.entries@.len(),
                views == entry_views(self.entries@),
                forall|j: int| 0 <= j < i ==> views[j].0 != hash@,
            decreases n - i,
        {
            if bytes_eq(&self.entries[i].hash, hash) {
                proof {
                    lemma_entries_map_contains(views, hash@);
                    assert(views[i as int].0 == hash@);
                }
                return true;
            }
            i = i + 1;
        }
        proof {
            lemma_entries_map_contains(views, hash@);
        }
        false
    }

    /// Finalizes a hash, persisting its justification; finalizing an
    /// already-finalized hash changes nothing and is no error.
    pub fn finalize(&mut self, hash: &Vec<u8>, justification: &Vec<u8>)
        ensures
            final(self)@ == spec_finalize(old(self)@, hash@, justification@),
            final(self)@.dom().contains(hash@),
    {
        let ghost old_views = entry_views(self.entries@);
        if !self.is_finalized(hash) {
            let entry = LedgerEntry {
                hash: copy_range(hash, 0, hash.len()),
                justification: copy_range(justification, 0, justification.len()),
            };
            proof {
                assert(hash@.subrange(0, hash@.len() as int) =~= hash@);
                assert(justification@.subrange(0, justification@.len() as int)
                    =~= justification@);
            }
            self.entries.push(entry);
            proof {
                let new_views = entry_views(self.entries@);
                assert(new_views =~= old_views.push((hash@, justification@)));
                assert(new_views.drop_last() =~= old_views);
            }
        }
    }
}

/// Finalizing the same hash twice — with the same or another justification
/// — leaves the ledger exactly as one finalize left it: no error and no
/// regression of finalization state.
pub proof fn lemma_finalize_idempotent(
    m: Map<Seq<u8>, Seq<u8>>,
    hash: Seq<u8>,
    j1: Seq<u8>,
    j2: Seq<u8>,
)
    ensures
        spec_finalize(spec_finalize(m, hash, j1), hash, j2) == spec_finalize(m, hash, j1),
{
}

/// Finalization never regresses: every hash finalized before a finalize
/// call is still finalized after it.
pub proof fn lemma_finalize_monotonic(
    m: Map<Seq<u8>, Seq<u8>>,
    hash: Seq<u8>,
    justification: Seq<u8>,
    other: Seq<u8>,
)
    ensures
        m.dom().contains(other) ==> spec_finalize(m, hash, justification).dom().contains(other),
{
}

} // verus!
