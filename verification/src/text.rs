//! Decimal rendering and joining of short text fragments.
//!
//! Configuration strings are assembled from literals, decimal numbers and
//! comma-joined lists; this module renders those pieces with exact
//! contracts over the character sequences.

use vstd::prelude::*;
use vstd::string::StringExecFns;

verus! {

/// The ASCII decimal digits of `n`, most significant first.
pub open spec fn spec_dec_bytes(n: int) -> Seq<u8>
    decreases n,
{
    if n < 10 {
        seq![(48 + if n >= 0 { n } else { 0 }) as u8]
    } else {
        spec_dec_bytes(n / 10).push((48 + n % 10) as u8)
    }
}

/// The decimal rendering of `n`.
pub open spec fn spec_dec_chars(n: int) -> Seq<char> {
    spec_dec_bytes(n).map_values(|b: u8| b as char)
}

/// Every decimal digit byte is an ASCII digit.
proof fn lemma_dec_bytes_ascii(n: int)
    requires
        n >= 0,
    ensures
        forall|i: int| 0 <= i < spec_dec_bytes(n).len() ==> 48 <= #[trigger] spec_dec_bytes(n)[i]
            <= 57,
    decreases n,
{
    if n < 10 {
        assert(spec_dec_bytes(n) =~= seq![(48 + n) as u8]);
    } else {
        lemma_dec_bytes_ascii(n / 10);
        assert(spec_dec_bytes(n) == spec_dec_bytes(n / 10).push((48 + n % 10) as u8));
        assert(forall|i: int|
            0 <= i < spec_dec_bytes(n).len() - 1 ==> #[trigger] spec_dec_bytes(n)[i]
                == spec_dec_bytes(n / 10)[i]);
        assert(0 <= n % 10 < 10);
    }
}

/// Appends the decimal digits of `n`, most significant first.
fn push_dec_bytes(n: u64, out: &mut Vec<u8>)
    ensures
        final(out)@ == old(out)@ + spec_dec_bytes(n as int),
    decreases n,
{
    if n >= 10 {
        push_dec_bytes(n / 10, out);
    }
    out.push((n % 10) as u8 + 48);
    proof {
        assert(out@ =~= old(out)@ + spec_dec_bytes(n as int));
    }
}

/// Relies on `String::from_utf8`: ASCII bytes decode to exactly those
/// characters, one per byte.
#[verifier::external_body]
fn ascii_to_string(bytes: Vec<u8>) -> (r: String)
    requires
        forall|i: int| 0 <= i < bytes@.len() ==> bytes@[i] < 128,
    ensures
        r@ == bytes@.map_values(|b: u8| b as char),
{
    String::from_utf8(bytes).unwrap_or_default()
}

/// Renders `n` in decimal.
pub fn u64_to_dec_string(n: u64) -> (r: String)
    ensures
        r@ == spec_dec_chars(n as int),
{
    let mut bytes: Vec<u8> = Vec::new();
    push_dec_bytes(n, &mut bytes);
    proof {
        lemma_dec_bytes_ascii(n as int);
    }
    ascii_to_string(bytes)
}

/// The fragments joined with the separator, in order.
pub open spec fn spec_joined_with(parts: Seq<Seq<char>>, sep: Seq<char>) -> Seq<char>
    decreases parts.len(),
{
    if parts.len() == 0 {
        Seq::empty()
    } else if parts.len() == 1 {
        parts[0]
    } else {
        spec_joined_with(parts.drop_last(), sep) + sep + parts.last()
    }
}

/// Joins string fragments with a separator, in order.
pub fn join_with(parts: &Vec<String>, sep: &str) -> (r: String)
    ensures
        r@ == spec_joined_with(parts@.map_values(|s: String| s@), sep@),
{
    let ghost views = parts@.map_values(|s: String| s@);
    let mut r = String::new();
    let n = parts.len();
    let mut i: usize = 0;
    while i < n
        invariant
            n == parts@.len(),
            i <= n,
            views == parts@.map_values(|s: String| s@),
            r@ == spec_joined_with(views.take(i as int), sep@),
        decreases n - i,
    {
        proof {
            assert(views.take(i + 1).drop_last() =~= views.take(i as int));
            assert(views.take(i + 1).last() == views[i as int]);
        }
        if i > 0 {
            r.append(sep);
        }
        r.append(parts[i].as_str());
        i = i + 1;
    }
    proof {
        assert(views.take(n as int) =~= views);
    }
    r
}

} // verus!
