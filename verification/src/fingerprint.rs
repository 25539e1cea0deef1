//! The hardware reads behind the fingerprint. Each read is machine-dependent,
//! so nothing is promised of what comes back; the verified assembly in
//! `identity` takes the raw results and owes the sentinel fallbacks and the
//! MAC normalization for every possible outcome.

use vstd::prelude::*;
use crate::identity::{MachineIdentity, identity_from_reads, mac_chars, unknown_mac};

verus! {

/// Relies on sysinfo::System::new_all, System::refresh_all, System::cpus and
/// Cpu::brand: the brand string of the first enumerated processor, or None
/// when no processor is enumerated. The result depends on the machine, so
/// nothing is stated of it.
#[verifier::external_body]
fn cpu_brand_read() -> (r: Option<String>)
{
    let mut sys = sysinfo::System::new_all();
    sys.refresh_all();
    match sys.cpus().first() {
        Some(cpu) => Some(cpu.brand().to_string()),
        None => None,
    }
}

/// Relies on mac_address::get_mac_address and MacAddress::bytes: the six-byte
/// hardware address of the first network device that reports one (ignoring
/// loopback), or None when no device does or the lookup errs. The result
/// depends on the machine, so nothing is stated of it.
#[verifier::external_body]
fn mac_bytes_read() -> (r: Option<[u8; 6]>)
{
    match mac_address::get_mac_address() {
        Ok(Some(ma)) => Some(ma.bytes()),
        _ => None,
    }
}

/// Reads the local machine's fingerprint: the first processor's brand string
/// and the first reportable hardware address, lowercase colon-separated.
/// Never fails: an unreadable field falls back to its sentinel instead. The
/// MAC field is always either the sentinel or a normalized six-byte address.
pub fn read_identity() -> (r: MachineIdentity)
    ensures
        r@.1 == unknown_mac() || exists|m: Seq<u8>| m.len() == 6 && r@.1 == mac_chars(m),
{
    let cpu = cpu_brand_read();
    let mac = mac_bytes_read();
    let r = identity_from_reads(cpu, mac);
    proof {
        if mac is Some {
            let mb = mac->0;
            assert(mb@.len() == 6 && r@.1 == mac_chars(mb@));
        }
    }
    r
}

} // verus!
