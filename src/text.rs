use vstd::prelude::*;

verus! {

/// What `str::trim` leaves of a string: the characters between its leading
/// and trailing Unicode whitespace.
pub uninterp spec fn trimmed(s: Seq<char>) -> Seq<char>;

/// The characters of `s` before its first `'\n'` (all of `s` where it has none).
pub open spec fn until_newline(s: Seq<char>) -> Seq<char>
    decreases s.len(),
{
    if s.len() == 0 {
        s
    } else if s[0] == '\n' {
        Seq::empty()
    } else {
        seq![s[0]] + until_newline(s.drop_first())
    }
}

/// The first line of `s` as `str::lines` yields it: the text before the first
/// `'\n'`, without a `'\r'` just before that `'\n'`; the whole of `s` where it
/// holds no `'\n'`; empty for an empty `s`.
pub open spec fn first_line(s: Seq<char>) -> Seq<char> {
    let p = until_newline(s);
    if s.contains('\n') && p.len() > 0 && p.last() == '\r' {
        p.drop_last()
    } else {
        p
    }
}

/// Relies on `str::trim`, which removes leading and trailing whitespace and
/// depends on the characters of its argument alone.
#[verifier::external_body]
pub(crate) fn trim_whitespace(s: &str) -> (r: &str)
    ensures
        r@ == trimmed(s@),
{
    s.trim()
}

/// Relies on `str::lines`: its first item is the text up to the first line
/// ending (`"\n"` or `"\r\n"`), and it yields nothing for an empty string.
#[verifier::external_body]
pub(crate) fn first_line_of(s: &str) -> (r: &str)
    ensures
        r@ == first_line(s@),
{
    s.lines().next().unwrap_or("")
}

/// The decimal digit for `d`, which is below ten.
pub open spec fn digit_char(d: nat) -> char {
    if d == 0 { '0' } else if d == 1 { '1' } else if d == 2 { '2' } else if d == 3 { '3' }
    else if d == 4 { '4' } else if d == 5 { '5' } else if d == 6 { '6' } else if d == 7 { '7' }
    else if d == 8 { '8' } else { '9' }
}

/// The decimal notation of `n`, without sign or leading zeros.
pub open spec fn decimal(n: nat) -> Seq<char>
    decreases n,
{
    if n < 10 {
        seq![digit_char(n)]
    } else {
        decimal(n / 10) + seq![digit_char(n % 10)]
    }
}

/// Relies on `u64`'s `Display`, through `ToString::to_string`: the decimal
/// notation of the number.
#[verifier::external_body]
pub(crate) fn decimal_text(n: u64) -> (r: String)
    ensures
        r@ == decimal(n as nat),
{
    n.to_string()
}

} // verus!
