//! The configuration surface the attestation client consumes: where the
//! registry lives and how to authenticate, supplied by the calling
//! environment — credentials are never embedded in source. From it the
//! client derives the key=value connection string for the registry,
//! demanding transport encryption when the flag says so.

use vstd::prelude::*;
use crate::identity::{hex_digit, hex_str};
use vstd::string::StringExecFns;

verus! {

/// The decimal digits of a non-negative number, most significant first.
pub open spec fn dec_chars(n: int) -> Seq<char>
    recommends
        n >= 0,
    decreases n,
{
    if n < 10 {
        seq![hex_digit(n)]
    } else {
        dec_chars(n / 10) + seq![hex_digit(n % 10)]
    }
}

/// Appends a port number in decimal.
fn push_decimal(out: &mut String, n: u16)
    ensures
        final(out)@ == old(out)@ + dec_chars(n as int),
    decreases n,
{
    if n < 10 {
        out.append(hex_str(n as u8));
    } else {
        push_decimal(out, n / 10);
        out.append(hex_str((n % 10) as u8));
    }
    proof {
        assert(out@ =~= old(out)@ + dec_chars(n as int));
    }
}

/// Where the registry lives and how to authenticate to it. The credential is
/// supplied by the calling environment's secret mechanism, never hardcoded.
pub struct RegistryConfig {
    pub host: String,
    pub port: u16,
    pub user: String,
    pub credential: String,
    pub database: String,
    pub tls_required: bool,
}

impl RegistryConfig {
    /// The key=value connection string this configuration denotes, with
    /// `sslmode=require` exactly when transport encryption is demanded.
    pub open spec fn conn_chars(self) -> Seq<char> {
        "host="@ + self.host@ + " user="@ + self.user@ + " password="@ + self.credential@
            + " dbname="@ + self.database@ + " port="@ + dec_chars(self.port as int) + if self.tls_required {
            " sslmode=require"@
        } else {
            Seq::<char>::empty()
        }
    }

    /// Writes the connection string for the registry.
    pub fn connection_string(&self) -> (r: String)
        ensures
            r@ == self.conn_chars(),
    {
        let mut out = String::new();
        out.append("host=");
        out.append(self.host.as_str());
        out.append(" user=");
        out.append(self.user.as_str());
        out.append(" password=");
        out.append(self.credential.as_str());
        out.append(" dbname=");
        out.append(self.database.as_str());
        out.append(" port=");
        push_decimal(&mut out, self.port);
        if self.tls_required {
            out.append(" sslmode=require");
        }
        proof {
            assert(out@ =~= self.conn_chars());
        }
        out
    }
}

} // verus!
