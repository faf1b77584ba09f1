//! Text pieces of a version: sanitized branch names and decimal numbers.
use vstd::prelude::*;
use vstd::string::*;

verus! {

/// A branch-name character as it may stand in a prerelease: `/` and `_`
/// become `-`, everything else stays.
pub open spec fn sanitize_char(c: char) -> char {
    if c == '/' || c == '_' {
        '-'
    } else {
        c
    }
}

/// A branch name with every `/` and `_` replaced by `-`.
pub open spec fn sanitized(name: Seq<char>) -> Seq<char> {
    name.map_values(|c: char| sanitize_char(c))
}

/// Replaces every `/` and `_` in `name` by `-`.
pub fn sanitize_branch_name(name: &str) -> (r: String)
    ensures
        r@ == sanitized(name@),
{
    let n = name.unicode_len();
    let mut out = String::new();
    let mut i: usize = 0;
    while i < n
        invariant
            n == name@.len(),
            i <= n,
            out@ == sanitized(name@.take(i as int)),
        decreases n - i,
    {
        let c = name.get_char(i);
        if c == '/' || c == '_' {
            proof {
                reveal_strlit("-");
            }
            out.append("-");
        } else {
            out.append(name.substring_char(i, i + 1));
        }
        assert(sanitized(name@.take(i as int + 1)) =~= sanitized(name@.take(i as int)).push(
            sanitize_char(c),
        ));
        i = i + 1;
    }
    assert(name@.take(n as int) =~= name@);
    out
}

/// The character of decimal digit `d`.
pub open spec fn digit_char(d: nat) -> char {
    seq!['0', '1', '2', '3', '4', '5', '6', '7', '8', '9'][d as int]
}

/// The decimal representation of `n`, without leading zeros.
pub open spec fn decimal(n: nat) -> Seq<char>
    decreases n,
{
    if n < 10 {
        seq![digit_char(n)]
    } else {
        decimal(n / 10).push(digit_char(n % 10))
    }
}

fn digit_text(d: u64) -> (r: &'static str)
    requires
        d < 10,
    ensures
        r@ == seq![digit_char(d as nat)],
{
    let digits = "0123456789";
    proof {
        reveal_strlit("0123456789");
    }
    let r = digits.substring_char(d as usize, d as usize + 1);
    assert(r@ =~= seq![digit_char(d as nat)]);
    r
}

/// Writes `n` in decimal.
pub fn decimal_text(n: u64) -> (r: String)
    ensures
        r@ == decimal(n as nat),
    decreases n,
{
    if n < 10 {
        let mut s = String::new();
        s.append(digit_text(n));
        assert(s@ =~= decimal(n as nat));
        s
    } else {
        let mut s = decimal_text(n / 10);
        s.append(digit_text(n % 10));
        s
    }
}

} // verus!
