//! The attestation client: one fingerprint is submitted to or looked up in
//! the registry, and every outcome — success, miss, or a transport or query
//! failure — is mapped to an authorization decision. Failures surface as
//! Indeterminate, never as a crash and never conflated with an explicit
//! denial. An unreadable fingerprint (the sentinel pair) short-circuits to
//! Indeterminate before any registry operation.

use vstd::prelude::*;
use crate::identity::{MachineIdentity, sentinel_pair};
use crate::registry::{Registry, register_step};

verus! {

/// What the caller asks of the registry.
#[derive(Clone, Copy, PartialEq, Eq, Debug)]
pub enum AttestationMode {
    Register,
    Query,
}

/// The decision handed back to the caller. Indeterminate means the check
/// could not be completed and carries a human-readable cause.
#[derive(Clone, PartialEq, Eq, Debug)]
pub enum AttestationResult {
    Authorized,
    Denied,
    Indeterminate(String),
}

/// What came back from the single registry operation.
pub enum RegistryEvent {
    RegisterDone,
    Found,
    NotFound,
    TransportFailed(String),
    QueryFailed(String),
}

/// The client's view of the registry: reachable with its current contents,
/// or unreachable with the cause.
pub enum RegistryLink {
    Up(Registry),
    Down(String),
}

/// A reachable registry satisfies the uniqueness constraint.
pub open spec fn link_wf(l: RegistryLink) -> bool {
    match l {
        RegistryLink::Up(reg) => reg.wf(),
        RegistryLink::Down(_) => true,
    }
}

/// The cause attached when the fingerprint itself is unreadable.
pub open spec fn sentinel_cause() -> Seq<char> {
    "machine identity is unreadable"@
}

/// Maps the outcome of the registry operation to a decision: a completed
/// registration or a hit authorizes, a miss denies, and any failure is
/// Indeterminate with its cause.
pub fn decide(event: RegistryEvent) -> (r: AttestationResult)
    ensures
        event matches RegistryEvent::RegisterDone ==> r == AttestationResult::Authorized,
        event matches RegistryEvent::Found ==> r == AttestationResult::Authorized,
        event matches RegistryEvent::NotFound ==> r == AttestationResult::Denied,
        event matches RegistryEvent::TransportFailed(c) ==> (r matches
            AttestationResult::Indeterminate(m) && m@ == c@),
        event matches RegistryEvent::QueryFailed(c) ==> (r matches AttestationResult::Indeterminate(
            m,
        ) && m@ == c@),
{
    match event {
        RegistryEvent::RegisterDone => AttestationResult::Authorized,
        RegistryEvent::Found => AttestationResult::Authorized,
        RegistryEvent::NotFound => AttestationResult::Denied,
        RegistryEvent::TransportFailed(c) => AttestationResult::Indeterminate(c),
        RegistryEvent::QueryFailed(c) => AttestationResult::Indeterminate(c),
    }
}

/// The short-circuit that runs before any registry operation: an unreadable
/// fingerprint (both fields sentinels) must never be attested, so it is
/// answered Indeterminate without touching the registry.
pub fn preflight(identity: &MachineIdentity) -> (r: Option<AttestationResult>)
    ensures
        r is Some <==> sentinel_pair(identity@),
        r matches Some(x) ==> (x matches AttestationResult::Indeterminate(c) && c@
            == sentinel_cause()),
{
    if identity.is_sentinel_pair() {
        Some(AttestationResult::Indeterminate("machine identity is unreadable".to_owned()))
    } else {
        None
    }
}

/// What one attestation call does: how the decision and the registry after
/// the call follow from the fingerprint, the mode, and the registry before
/// it.
pub open spec fn attest_rel(
    id: (Seq<char>, Seq<char>),
    mode: AttestationMode,
    pre: RegistryLink,
    post: RegistryLink,
    r: AttestationResult,
) -> bool {
    if sentinel_pair(id) {
        &&& post == pre
        &&& r matches AttestationResult::Indeterminate(c) && c@ == sentinel_cause()
    } else {
        match pre {
            RegistryLink::Down(c0) => {
                &&& post == pre
                &&& r matches AttestationResult::Indeterminate(c) && c@ == c0@
            },
            RegistryLink::Up(reg) => match mode {
                AttestationMode::Register => {
                    &&& post matches RegistryLink::Up(reg2) && reg2.wf() && reg2.model()
                        == register_step(reg.model(), id)
                    &&& r == AttestationResult::Authorized
                },
                AttestationMode::Query => {
                    &&& post == pre
                    &&& if reg.model().contains(id) {
                        r == AttestationResult::Authorized
                    } else {
                        r == AttestationResult::Denied
                    }
                },
            },
        }
    }
}

/// One attestation: Register submits the fingerprint for persistence
/// (insert-or-ignore, never Denied), Query tests its existence. Every
/// transport failure and the unreadable-fingerprint short-circuit come back
/// Indeterminate.
pub fn attest(identity: &MachineIdentity, mode: AttestationMode, link: RegistryLink) -> (out: (
    RegistryLink,
    AttestationResult,
))
    requires
        link_wf(link),
    ensures
        link_wf(out.0),
        attest_rel(identity@, mode, link, out.0, out.1),
{
    match preflight(identity) {
        Some(res) => (link, res),
        None => match link {
            RegistryLink::Down(cause) => {
                let msg = cause.clone();
                (RegistryLink::Down(cause), decide(RegistryEvent::TransportFailed(msg)))
            },
            RegistryLink::Up(mut reg) => match mode {
                AttestationMode::Register => {
                    reg.register(identity);
                    (RegistryLink::Up(reg), decide(RegistryEvent::RegisterDone))
                },
                AttestationMode::Query => {
                    let event = if reg.contains(identity) {
                        RegistryEvent::Found
                    } else {
                        RegistryEvent::NotFound
                    };
                    (RegistryLink::Up(reg), decide(event))
                },
            },
        },
    }
}

/// Registering a fingerprint and then querying it yields Authorized, as long
/// as the registry stayed reachable across both calls.
pub proof fn lemma_register_then_query_authorized(
    id: (Seq<char>, Seq<char>),
    l0: RegistryLink,
    l1: RegistryLink,
    l2: RegistryLink,
    r1: AttestationResult,
    r2: AttestationResult,
)
    requires
        !sentinel_pair(id),
        l0 matches RegistryLink::Up(_),
        attest_rel(id, AttestationMode::Register, l0, l1, r1),
        attest_rel(id, AttestationMode::Query, l1, l2, r2),
    ensures
        r2 == AttestationResult::Authorized,
{
    match l0 {
        RegistryLink::Up(reg0) => {
            match l1 {
                RegistryLink::Up(reg1) => {
                    assert(reg1.model().contains(id)) by {
                        let m0 = reg0.model();
                        if !m0.contains(id) {
                            assert(reg1.model() == m0.push(id));
                            assert(reg1.model()[m0.len() as int] == id);
                        }
                    }
                },
                RegistryLink::Down(_) => {
                    assert(false);
                },
            }
        },
        RegistryLink::Down(_) => {
            assert(false);
        },
    }
}

/// A fingerprint never registered is denied — not left indeterminate — while
/// the registry is reachable. The unreadable sentinel pair is the one
/// exception: it short-circuits to Indeterminate and never reaches the
/// registry.
pub proof fn lemma_unregistered_query_denied(
    id: (Seq<char>, Seq<char>),
    l0: RegistryLink,
    l1: RegistryLink,
    r: AttestationResult,
)
    requires
        !sentinel_pair(id),
        l0 matches RegistryLink::Up(reg) && !reg.model().contains(id),
        attest_rel(id, AttestationMode::Query, l0, l1, r),
    ensures
        r == AttestationResult::Denied,
{
}

/// A fingerprint with both fields at their sentinels marks a failed read,
/// not a valid identity: whatever the mode and whatever the registry holds,
/// it is never treated as Authorized (nor Denied) — the check is reported as
/// not completable.
pub proof fn lemma_sentinel_never_authorized(
    id: (Seq<char>, Seq<char>),
    mode: AttestationMode,
    l0: RegistryLink,
    l1: RegistryLink,
    r: AttestationResult,
)
    requires
        sentinel_pair(id),
        attest_rel(id, mode, l0, l1, r),
    ensures
        r matches AttestationResult::Indeterminate(_),
{
}

/// Register never reports Denied: it either completes (Authorized) or could
/// not be carried out (Indeterminate).
pub proof fn lemma_register_never_denied(
    id: (Seq<char>, Seq<char>),
    l0: RegistryLink,
    l1: RegistryLink,
    r: AttestationResult,
)
    requires
        attest_rel(id, AttestationMode::Register, l0, l1, r),
    ensures
        r != AttestationResult::Denied,
{
}

/// With the registry unreachable, Register and Query alike come back
/// Indeterminate: never Authorized, never Denied.
pub proof fn lemma_unreachable_indeterminate(
    id: (Seq<char>, Seq<char>),
    mode: AttestationMode,
    l0: RegistryLink,
    l1: RegistryLink,
    r: AttestationResult,
)
    requires
        l0 matches RegistryLink::Down(_),
        attest_rel(id, mode, l0, l1, r),
    ensures
        r matches AttestationResult::Indeterminate(_),
{
}

} // verus!
