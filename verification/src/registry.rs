//! The allow-list of authorized machine fingerprints: one record per
//! (cpu_serial, mac_address) pair, unique over the pair, written with
//! insert-or-ignore semantics and read with an existence check. This is the
//! client-side model of the remote registry table; the transport that carries
//! these two operations over the wire lives outside the library.

use vstd::prelude::*;
use crate::identity::MachineIdentity;

verus! {

/// One authorized machine, as the registry stores it.
pub struct AttestationRecord {
    pub cpu_serial: String,
    pub mac_address: String,
}

impl View for AttestationRecord {
    type V = (Seq<char>, Seq<char>);

    open spec fn view(&self) -> (Seq<char>, Seq<char>) {
        (self.cpu_serial@, self.mac_address@)
    }
}

/// Insert-or-ignore on one fingerprint: a duplicate registration is a no-op,
/// not an error.
pub open spec fn register_step(
    m: Seq<(Seq<char>, Seq<char>)>,
    p: (Seq<char>, Seq<char>),
) -> Seq<(Seq<char>, Seq<char>)> {
    if m.contains(p) {
        m
    } else {
        m.push(p)
    }
}

/// How many records hold the given pair.
pub open spec fn count_of(m: Seq<(Seq<char>, Seq<char>)>, p: (Seq<char>, Seq<char>)) -> nat
    decreases m.len(),
{
    if m.len() == 0 {
        0
    } else {
        (if m.last() == p {
            1nat
        } else {
            0nat
        }) + count_of(m.drop_last(), p)
    }
}

/// The registry of authorized fingerprints.
pub struct Registry {
    pub records: Vec<AttestationRecord>,
}

impl Registry {
    /// The fingerprints on record, in insertion order.
    pub open spec fn model(self) -> Seq<(Seq<char>, Seq<char>)> {
        self.records@.map_values(|r: AttestationRecord| r@)
    }

    /// The uniqueness constraint over the pair, which the registry enforces.
    pub open spec fn wf(self) -> bool {
        self.model().no_duplicates()
    }

    /// An empty registry.
    pub fn new() -> (r: Registry)
        ensures
            r.wf(),
            r.model() == Seq::<(Seq<char>, Seq<char>)>::empty(),
    {
        let r = Registry { records: Vec::new() };
        proof {
            assert(r.model() =~= Seq::<(Seq<char>, Seq<char>)>::empty());
        }
        r
    }

    /// How many records the registry holds.
    pub fn record_count(&self) -> (n: usize)
        ensures
            n == self.model().len(),
    {
        self.records.len()
    }

    /// The existence check: is this fingerprint on record?
    pub fn contains(&self, id: &MachineIdentity) -> (r: bool)
        ensures
            r == self.model().contains(id@),
    {
        let mut i: usize = 0;
        while i < self.records.len()
            invariant
                i <= self.records.len(),
                forall|k: int| 0 <= k < i ==> self.model()[k] != id@,
            decreases self.records.len() - i,
        {
            let rec = &self.records[i];
            if rec.cpu_serial == id.cpu_brand && rec.mac_address == id.mac_address {
                proof {
                    assert(self.model()[i as int] == id@);
                }
                return true;
            }
            i = i + 1;
        }
        false
    }

    /// The idempotent write: record the fingerprint unless it already is.
    pub fn register(&mut self, id: &MachineIdentity)
        requires
            old(self).wf(),
        ensures
            final(self).wf(),
            final(self).model() == register_step(old(self).model(), id@),
    {
        if !self.contains(id) {
            let rec = AttestationRecord {
                cpu_serial: id.cpu_brand.clone(),
                mac_address: id.mac_address.clone(),
            };
            self.records.push(rec);
            proof {
                let m0 = old(self).model();
                let m1 = self.model();
                assert(m1 =~= m0.push(id@));
                assert forall|i: int, j: int| 0 <= i < j < m1.len() implies m1[i] != m1[j] by {
                    if j < m0.len() {
                        assert(m0[i] != m0[j]);
                    } else {
                        assert(m1[j] == id@);
                        assert(m1[i] == m0[i]);
                    }
                }
            }
        }
    }
}

/// A pair absent from the registry is counted zero times.
proof fn lemma_count_absent(m: Seq<(Seq<char>, Seq<char>)>, p: (Seq<char>, Seq<char>))
    requires
        !m.contains(p),
    ensures
        count_of(m, p) == 0,
    decreases m.len(),
{
    if m.len() > 0 {
        let d = m.drop_last();
        assert(m.last() != p);
        assert(!d.contains(p)) by {
            if d.contains(p) {
                let k = choose|k: int| 0 <= k < d.len() && d[k] == p;
                assert(m[k] == p);
            }
        }
        lemma_count_absent(d, p);
    }
}

/// Under the uniqueness constraint, a pair on record is counted exactly once.
pub proof fn lemma_count_unique(m: Seq<(Seq<char>, Seq<char>)>, p: (Seq<char>, Seq<char>))
    requires
        m.no_duplicates(),
        m.contains(p),
    ensures
        count_of(m, p) == 1,
    decreases m.len(),
{
    let d = m.drop_last();
    assert(d.no_duplicates()) by {
        assert forall|i: int, j: int| 0 <= i < j < d.len() implies d[i] != d[j] by {
            assert(m[i] != m[j]);
        }
    }
    if m.last() == p {
        assert(!d.contains(p)) by {
            if d.contains(p) {
                let k = choose|k: int| 0 <= k < d.len() && d[k] == p;
                assert(m[k] == m[m.len() - 1]);
            }
        }
        lemma_count_absent(d, p);
    } else {
        assert(d.contains(p)) by {
            let k = choose|k: int| 0 <= k < m.len() && m[k] == p;
            assert(d[k] == p);
        }
        lemma_count_unique(d, p);
    }
}

/// Idempotence of registration: registering the same fingerprint twice leaves
/// the registry as after the first registration, with exactly one record of
/// that fingerprint, and the uniqueness constraint intact.
pub proof fn lemma_register_idempotent(m: Seq<(Seq<char>, Seq<char>)>, p: (Seq<char>, Seq<char>))
    requires
        m.no_duplicates(),
    ensures
        register_step(register_step(m, p), p) == register_step(m, p),
        count_of(register_step(m, p), p) == 1,
        register_step(m, p).no_duplicates(),
{
    let m1 = register_step(m, p);
    if m.contains(p) {
        lemma_count_unique(m, p);
    } else {
        assert(m1 == m.push(p));
        assert(m1[m.len() as int] == p);
        assert(m1.contains(p));
        assert(m1.no_duplicates()) by {
            assert forall|i: int, j: int| 0 <= i < j < m1.len() implies m1[i] != m1[j] by {
                if j < m.len() {
                    assert(m[i] != m[j]);
                } else {
                    assert(m1[j] == p);
                    assert(m1[i] == m[i]);
                }
            }
        }
        lemma_count_unique(m1, p);
    }
    assert(m1.contains(p));
}

} // verus!
