use vstd::prelude::*;
use vstd::string::{StrSliceExecFns, StringExecFns};
use vstd::utf8::encode_utf8;

verus! {

/// Longest name or identifier, in UTF-8 bytes (the token metadata name bound).
pub const MAX_NAME_LEN: usize = 32;

/// Longest achievement description, in UTF-8 bytes.
pub const MAX_DESCRIPTION_LEN: usize = 200;

/// A text field is stored only when it is non-empty and its UTF-8 encoding
/// takes at most `max` bytes.
pub open spec fn field_fits(s: Seq<char>, max: nat) -> bool {
    s.len() > 0 && encode_utf8(s).len() <= max
}

/// Decides `field_fits` for a string.
pub fn fits(s: &String, max: usize) -> (r: bool)
    ensures
        r == field_fits(s@, max as nat),
{
    let t: &str = s.as_str();
    let bytes: &[u8] = t.as_bytes();
    !t.is_empty() && bytes.len() <= max
}

/// The ten decimal digits, in order.
pub open spec fn digits() -> Seq<char> {
    seq!['0', '1', '2', '3', '4', '5', '6', '7', '8', '9']
}

/// The decimal representation of `n`, without sign or leading zeros.
pub open spec fn decimal(n: nat) -> Seq<char>
    decreases n,
{
    if n < 10 {
        seq![digits()[n as int]]
    } else {
        decimal(n / 10).push(digits()[(n % 10) as int])
    }
}

/// The one-character string of the digit `d`.
fn digit_string(d: u64) -> (r: String)
    requires
        d < 10,
    ensures
        r@ == seq![digits()[d as int]],
{
    let all: &str = "0123456789";
    proof {
        reveal_strlit("0123456789");
    }
    let i: usize = d as usize;
    let one: &str = all.substring_char(i, i + 1);
    proof {
        assert(one@ =~= seq![digits()[d as int]]);
    }
    String::from_str(one)
}

/// Writes `n` in decimal.
pub fn decimal_string(n: u64) -> (r: String)
    ensures
        r@ == decimal(n as nat),
{
    let mut m: u64 = n;
    let mut s: String = String::new();
    while m >= 10
        invariant
            decimal(n as nat) == decimal(m as nat) + s@,
        decreases m,
    {
        let d: u64 = m % 10;
        let ghost rest = s@;
        s = digit_string(d).concat(s.as_str());
        proof {
            assert(decimal(m as nat) == decimal((m / 10) as nat).push(digits()[d as int]));
            assert(decimal(m as nat) + rest =~= decimal((m / 10) as nat) + s@);
        }
        m = m / 10;
    }
    let ghost rest = s@;
    let r = digit_string(m).concat(s.as_str());
    proof {
        assert(decimal(m as nat) + rest =~= r@);
    }
    r
}

} // verus!
