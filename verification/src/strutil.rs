//! Small verified string helpers.

use vstd::prelude::*;
use vstd::string::StringExecFns;

verus! {

/// The lines of `msgs` joined with a newline between consecutive lines.
pub open spec fn spec_joined_lines(msgs: Seq<Seq<char>>) -> Seq<char>
    decreases msgs.len(),
{
    if msgs.len() == 0 {
        Seq::empty()
    } else if msgs.len() == 1 {
        msgs[0]
    } else {
        spec_joined_lines(msgs.drop_last()) + seq!['\n'] + msgs.last()
    }
}

/// Joins the given lines with a newline between consecutive lines.
pub fn join_lines(msgs: &Vec<String>) -> (r: String)
    ensures
        r@ == spec_joined_lines(msgs.deep_view()),
{
    let mut out = String::new();
    let mut i: usize = 0;
    proof {
        assert(msgs.deep_view().take(0int) =~= Seq::<Seq<char>>::empty());
    }
    while i < msgs.len()
        invariant
            i <= msgs.len(),
            out@ == spec_joined_lines(msgs.deep_view().take(i as int)),
        decreases msgs.len() - i,
    {
        if i > 0 {
            out.append("\n");
            proof {
                reveal_strlit("\n");
            }
        }
        out.append(msgs[i].as_str());
        proof {
            let pre = msgs.deep_view().take(i as int);
            let cur = msgs.deep_view().take(i + 1int);
            assert(cur.drop_last() =~= pre);
            assert(cur.last() == msgs.deep_view()[i as int]);
            if i > 0 {
                assert(out@ =~= spec_joined_lines(cur));
            } else {
                assert(out@ =~= spec_joined_lines(cur));
            }
        }
        i += 1;
    }
    proof {
        assert(msgs.deep_view().take(msgs.len() as int) =~= msgs.deep_view());
    }
    out
}

/// Whether two string slices hold the same characters.
pub fn str_matches(a: &str, b: &str) -> (r: bool)
    ensures
        r == (a@ == b@),
{
    let sa = a.to_owned();
    let sb = b.to_owned();
    sa == sb
}

/// The character for one decimal digit.
pub open spec fn spec_digit_char(d: int) -> char {
    ((48 + d) as u8) as char
}

/// The decimal notation of a natural number, most significant digit first.
pub open spec fn spec_decimal(n: nat) -> Seq<char>
    decreases n,
{
    if n < 10 {
        seq![spec_digit_char(n as int)]
    } else {
        spec_decimal(n / 10) + seq![spec_digit_char((n % 10) as int)]
    }
}

/// The characters for a sequence of ASCII bytes.
pub open spec fn chars_of(s: Seq<u8>) -> Seq<char> {
    s.map_values(|b: u8| b as char)
}

/// Relies on `String::from_utf8`: ASCII bytes become the string of exactly
/// those characters.
#[verifier::external_body]
fn ascii_bytes_to_string(v: Vec<u8>) -> (r: String)
    requires
        forall|i: int| 0 <= i < v@.len() ==> v@[i] < 128,
    ensures
        r@ == chars_of(v@),
{
    match String::from_utf8(v) {
        Ok(s) => s,
        Err(_) => String::new(),
    }
}

/// Writes a number in decimal notation.
pub fn u128_to_string(n: u128) -> (r: String)
    ensures
        r@ == spec_decimal(n as nat),
{
    if n == 0 {
        let r = "0".to_owned();
        proof {
            reveal_strlit("0");
            assert(r@ =~= spec_decimal(0));
        }
        return r;
    }
    let ghost n0 = n as nat;
    let mut digits: Vec<u8> = Vec::new();
    let mut cur: u128 = n;
    proof {
        assert(chars_of(digits@) =~= Seq::<char>::empty());
        assert(spec_decimal(n0) =~= spec_decimal(cur as nat) + chars_of(digits@));
    }
    while cur > 0
        invariant
            cur > 0 ==> spec_decimal(n0) =~= spec_decimal(cur as nat) + chars_of(digits@),
            cur == 0 ==> spec_decimal(n0) =~= chars_of(digits@),
            forall|i: int| 0 <= i < digits@.len() ==> 48 <= #[trigger] digits@[i] < 58,
        decreases cur,
    {
        let ghost digits0 = digits@;
        let ghost cur0 = cur as nat;
        let d: u8 = (cur % 10) as u8 + 48;
        digits.insert(0, d);
        cur = cur / 10;
        proof {
            assert(digits@ =~= seq![d].add(digits0));
            assert(chars_of(digits@) =~= seq![spec_digit_char((cur0 % 10) as int)] + chars_of(
                digits0,
            ));
            if cur0 < 10 {
                assert(spec_decimal(cur0) =~= seq![spec_digit_char(cur0 as int)]);
                assert(spec_decimal(n0) =~= chars_of(digits@));
            } else {
                assert(spec_decimal(cur0) =~= spec_decimal(cur0 / 10) + seq![
                    spec_digit_char((cur0 % 10) as int),
                ]);
                assert(spec_decimal(n0) =~= spec_decimal(cur as nat) + chars_of(digits@));
            }
        }
    }
    ascii_bytes_to_string(digits)
}

/// The decimal notation of a version counter, with a minus sign ahead of a
/// negative value.
pub open spec fn spec_decimal_i64(n: int) -> Seq<char> {
    if n >= 0 {
        spec_decimal(n as nat)
    } else {
        seq!['-'] + spec_decimal((-n) as nat)
    }
}

/// Writes a signed number in decimal notation.
pub fn i64_to_string(n: i64) -> (r: String)
    ensures
        r@ == spec_decimal_i64(n as int),
{
    if n >= 0 {
        let r = u128_to_string(n as u128);
        r
    } else {
        let mut r = "-".to_owned();
        let magnitude: u128 = -(n as i128) as u128;
        let digits = u128_to_string(magnitude);
        r.append(digits.as_str());
        proof {
            reveal_strlit("-");
            assert(r@ =~= spec_decimal_i64(n as int));
        }
        r
    }
}

} // verus!
