use vstd::prelude::*;

verus! {

pub open spec fn digit_char(d: int) -> char {
    seq!['0', '1', '2', '3', '4', '5', '6', '7', '8', '9'][d]
}

/// The decimal digits of `n`, most significant first, without leading zeros.
pub open spec fn decimal_digits(n: nat) -> Seq<char>
    decreases n,
{
    if n < 10 {
        seq![digit_char(n as int)]
    } else {
        decimal_digits(n / 10).push(digit_char((n % 10) as int))
    }
}

/// Relies on the Display of u128 (through ToString): the decimal digits, with no sign,
/// padding or leading zeros.
#[verifier::external_body]
fn u128_display(n: u128) -> (r: String)
    ensures
        r@ == decimal_digits(n as nat),
{
    n.to_string()
}

/// The decimal text of an amount.
pub fn amount_text(n: u128) -> (r: String)
    ensures
        r@ == decimal_digits(n as nat),
{
    u128_display(n)
}

/// `s` followed by a dash and `t`.
pub fn dash_join(s: String, t: &str) -> (r: String)
    ensures
        r@ == s@ + seq!['-'] + t@,
{
    let r = s.concat("-");
    proof {
        reveal_strlit("-");
    }
    r.concat(t)
}

} // verus!
