//! Identifiers drawn from the system clock.
use vstd::prelude::*;
use vstd::string::StringExecFns;
use crate::timestamp::{decimal, decimal_text};

verus! {

/// Relies on `time::get_time`: the seconds since the Unix epoch and the
/// nanoseconds past them, which `Timespec::new` asserts lie in
/// `0..1_000_000_000`. Nothing else is promised of the reading.
#[verifier::external_body]
fn clock_reading() -> (r: (i64, i32))
    ensures
        0 <= r.1 < 1_000_000_000,
{
    let t = time::get_time();
    (t.sec, t.nsec)
}

/// The decimal text of `n`, with a minus sign when it is negative.
pub open spec fn signed_decimal(n: int) -> Seq<char> {
    if n < 0 {
        seq!['-'] + decimal((-n) as nat)
    } else {
        decimal(n as nat)
    }
}

/// The identifier made from a clock reading.
pub open spec fn id_text(secs: i64, nanos: i32) -> Seq<char> {
    signed_decimal(secs as int) + decimal(nanos as nat)
}

/// Every decimal text has at least one digit.
pub proof fn lemma_decimal_nonempty(n: nat)
    ensures
        decimal(n).len() > 0,
    decreases n,
{
    if n >= 10 {
        lemma_decimal_nonempty(n / 10);
    }
}

/// The identifier made from the clock reading `secs`, `nanos`: both in
/// decimal, one after the other.
pub fn id_from_reading(secs: i64, nanos: i32) -> (r: String)
    requires
        0 <= nanos < 1_000_000_000,
    ensures
        r@ == id_text(secs, nanos),
        r@.len() > 0,
{
    let mut s = if secs < 0 {
        let mag: u64 = (0i128 - secs as i128) as u64;
        let digits = decimal_text(mag);
        let mut m = String::from_str("-");
        m.append(digits.as_str());
        proof {
            reveal_strlit("-");
        }
        m
    } else {
        decimal_text(secs as u64)
    };
    let n = decimal_text(nanos as u64);
    s.append(n.as_str());
    proof {
        lemma_decimal_nonempty(nanos as nat);
    }
    s
}

/// A fresh identifier: the clock's seconds followed by its nanoseconds, in
/// decimal. Two calls within one clock tick give the same identifier.
pub fn generate_id() -> (r: String)
    ensures
        exists|secs: i64, nanos: i32|
            0 <= nanos < 1_000_000_000 && r@ == #[trigger] id_text(secs, nanos),
        r@.len() > 0,
{
    let (secs, nanos) = clock_reading();
    id_from_reading(secs, nanos)
}

} // verus!
