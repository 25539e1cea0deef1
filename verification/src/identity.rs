//! The machine fingerprint: a CPU brand string and a primary MAC address,
//! each replaced by a fixed sentinel when the hardware read fails, the MAC
//! normalized to lowercase colon-separated hex.

use vstd::prelude::*;
use vstd::string::StringExecFns;

verus! {

/// The placeholder recorded when the CPU brand cannot be read.
pub open spec fn unknown_cpu() -> Seq<char> {
    "Unknown CPU"@
}

/// The placeholder recorded when no interface reports a hardware address.
pub open spec fn unknown_mac() -> Seq<char> {
    "Unknown MAC"@
}

/// The lowercase hexadecimal digit for a value below sixteen.
pub open spec fn hex_digit(n: int) -> char
    recommends
        0 <= n < 16,
{
    if n == 0 {
        '0'
    } else if n == 1 {
        '1'
    } else if n == 2 {
        '2'
    } else if n == 3 {
        '3'
    } else if n == 4 {
        '4'
    } else if n == 5 {
        '5'
    } else if n == 6 {
        '6'
    } else if n == 7 {
        '7'
    } else if n == 8 {
        '8'
    } else if n == 9 {
        '9'
    } else if n == 10 {
        'a'
    } else if n == 11 {
        'b'
    } else if n == 12 {
        'c'
    } else if n == 13 {
        'd'
    } else if n == 14 {
        'e'
    } else {
        'f'
    }
}

/// The two lowercase hex digits of one byte, high nibble first.
pub open spec fn byte_hex(b: u8) -> Seq<char> {
    seq![hex_digit(b as int / 16), hex_digit(b as int % 16)]
}

/// A six-byte hardware address written as lowercase colon-separated hex,
/// such as `aa:bb:cc:dd:ee:ff`.
pub open spec fn mac_chars(s: Seq<u8>) -> Seq<char>
    recommends
        s.len() == 6,
{
    byte_hex(s[0]) + seq![':'] + byte_hex(s[1]) + seq![':'] + byte_hex(s[2]) + seq![':']
        + byte_hex(s[3]) + seq![':'] + byte_hex(s[4]) + seq![':'] + byte_hex(s[5])
}

/// The local machine's fingerprint. Immutable once constructed; recomputed
/// fresh on every attestation attempt.
pub struct MachineIdentity {
    pub cpu_brand: String,
    pub mac_address: String,
}

impl View for MachineIdentity {
    type V = (Seq<char>, Seq<char>);

    open spec fn view(&self) -> (Seq<char>, Seq<char>) {
        (self.cpu_brand@, self.mac_address@)
    }
}

/// Both fields hold placeholders: every hardware read failed, so the pair
/// identifies nothing and must never authorize a machine.
pub open spec fn sentinel_pair(id: (Seq<char>, Seq<char>)) -> bool {
    id.0 == unknown_cpu() && id.1 == unknown_mac()
}

impl MachineIdentity {
    pub fn is_sentinel_pair(&self) -> (r: bool)
        ensures
            r == sentinel_pair(self@),
    {
        self.cpu_brand == "Unknown CPU".to_owned() && self.mac_address == "Unknown MAC".to_owned()
    }
}

/// The single lowercase hex digit of a nibble.
pub(crate) fn hex_str(n: u8) -> (r: &'static str)
    requires
        n < 16,
    ensures
        r@.len() == 1,
        r@[0] == hex_digit(n as int),
{
    proof {
        reveal_strlit("0");
        reveal_strlit("1");
        reveal_strlit("2");
        reveal_strlit("3");
        reveal_strlit("4");
        reveal_strlit("5");
        reveal_strlit("6");
        reveal_strlit("7");
        reveal_strlit("8");
        reveal_strlit("9");
        reveal_strlit("a");
        reveal_strlit("b");
        reveal_strlit("c");
        reveal_strlit("d");
        reveal_strlit("e");
        reveal_strlit("f");
    }
    if n == 0 {
        "0"
    } else if n == 1 {
        "1"
    } else if n == 2 {
        "2"
    } else if n == 3 {
        "3"
    } else if n == 4 {
        "4"
    } else if n == 5 {
        "5"
    } else if n == 6 {
        "6"
    } else if n == 7 {
        "7"
    } else if n == 8 {
        "8"
    } else if n == 9 {
        "9"
    } else if n == 10 {
        "a"
    } else if n == 11 {
        "b"
    } else if n == 12 {
        "c"
    } else if n == 13 {
        "d"
    } else if n == 14 {
        "e"
    } else {
        "f"
    }
}

/// Appends one byte as two lowercase hex digits.
fn push_byte_hex(out: &mut String, b: u8)
    ensures
        final(out)@ == old(out)@ + byte_hex(b),
{
    out.append(hex_str(b / 16));
    out.append(hex_str(b % 16));
    proof {
        assert(out@ =~= old(out)@ + byte_hex(b));
    }
}

/// Writes a six-byte hardware address as lowercase colon-separated hex.
pub fn format_mac(bytes: &[u8; 6]) -> (r: String)
    ensures
        r@ == mac_chars(bytes@),
{
    proof {
        reveal_strlit(":");
    }
    let mut out = String::new();
    push_byte_hex(&mut out, bytes[0]);
    out.append(":");
    push_byte_hex(&mut out, bytes[1]);
    out.append(":");
    push_byte_hex(&mut out, bytes[2]);
    out.append(":");
    push_byte_hex(&mut out, bytes[3]);
    out.append(":");
    push_byte_hex(&mut out, bytes[4]);
    out.append(":");
    push_byte_hex(&mut out, bytes[5]);
    proof {
        assert(out@ =~= mac_chars(bytes@));
    }
    out
}

/// A formatted hardware address is never the sentinel: it is seventeen
/// characters long, the sentinel eleven.
pub proof fn lemma_mac_chars_not_sentinel(s: Seq<u8>)
    requires
        s.len() == 6,
    ensures
        mac_chars(s) != unknown_mac(),
        mac_chars(s).len() == 17,
{
    reveal_strlit("Unknown MAC");
    assert(mac_chars(s).len() == 17);
    assert(unknown_mac().len() == 11);
}

/// Builds the fingerprint from the two hardware reads, falling back to the
/// sentinels where a read produced nothing. A successful MAC read never
/// yields the sentinel; both reads failing yield exactly the sentinel pair.
pub fn identity_from_reads(cpu: Option<String>, mac: Option<[u8; 6]>) -> (r: MachineIdentity)
    ensures
        cpu matches Some(b) ==> r@.0 == b@,
        cpu is None ==> r@.0 == unknown_cpu(),
        mac matches Some(m) ==> r@.1 == mac_chars(m@) && r@.1 != unknown_mac(),
        mac is None ==> r@.1 == unknown_mac(),
        cpu is None && mac is None ==> sentinel_pair(r@),
        mac is Some ==> !sentinel_pair(r@),
{
    let cpu_brand = match cpu {
        Some(b) => b,
        None => "Unknown CPU".to_owned(),
    };
    let mac_address = match mac {
        Some(m) => {
            proof {
                lemma_mac_chars_not_sentinel(m@);
            }
            format_mac(&m)
        },
        None => "Unknown MAC".to_owned(),
    };
    MachineIdentity { cpu_brand, mac_address }
}

} // verus!
