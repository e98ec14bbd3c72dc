use vstd::prelude::*;

verus! {

/// Character-wise equality of two string slices.
///
/// Rust's `==` on `&str` carries no specification for verified code, so
/// the library compares strings with this helper.
pub fn str_eq(a: &str, b: &str) -> (r: bool)
    ensures
        r == (a@ == b@),
{
    let alen = a.unicode_len();
    let blen = b.unicode_len();
    if alen != blen {
        return false;
    }
    let mut i: usize = 0;
    while i < alen
        invariant
            i <= alen,
            alen == a@.len(),
            blen == b@.len(),
            alen == blen,
            forall|j: int| 0 <= j < i ==> a@[j] == b@[j],
        decreases alen - i,
    {
        if a.get_char(i) != b.get_char(i) {
            return false;
        }
        i = i + 1;
    }
    proof {
        assert(a@ =~= b@);
    }
    true
}

/// The character for a single decimal digit.
pub open spec fn decimal_digit(d: nat) -> char {
    if d == 0 {
        '0'
    } else if d == 1 {
        '1'
    } else if d == 2 {
        '2'
    } else if d == 3 {
        '3'
    } else if d == 4 {
        '4'
    } else if d == 5 {
        '5'
    } else if d == 6 {
        '6'
    } else if d == 7 {
        '7'
    } else if d == 8 {
        '8'
    } else {
        '9'
    }
}

/// The usual base-10 rendering of `n`, most significant digit first,
/// with no leading zeros (except for `n == 0` itself).
pub open spec fn spec_decimal(n: nat) -> Seq<char>
    decreases n,
{
    if n < 10 {
        seq![decimal_digit(n)]
    } else {
        spec_decimal(n / 10).push(decimal_digit(n % 10))
    }
}

/// Appends the decimal rendering of `n` to `s`.
pub fn push_decimal(s: &mut String, n: usize)
    ensures
        final(s)@ == old(s)@ + spec_decimal(n as nat),
    decreases n,
{
    if n >= 10 {
        push_decimal(s, n / 10);
    }
    let d = n % 10;
    match d {
        0 => s.append("0"),
        1 => s.append("1"),
        2 => s.append("2"),
        3 => s.append("3"),
        4 => s.append("4"),
        5 => s.append("5"),
        6 => s.append("6"),
        7 => s.append("7"),
        8 => s.append("8"),
        _ => s.append("9"),
    }
    proof {
        reveal_strlit("0");
        reveal_strlit("1");
        reveal_strlit("2");
        reveal_strlit("3");
        reveal_strlit("4");
        reveal_strlit("5");
        reveal_strlit("6");
        reveal_strlit("7");
        reveal_strlit("8");
        reveal_strlit("9");
        assert(s@ =~= old(s)@ + spec_decimal(n as nat));
    }
}

} // verus!
