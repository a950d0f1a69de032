//! Small verified text utilities the command plans are specified with:
//! ASCII-case-insensitive substring search, decimal rendering of port
//! numbers, and the quoted comma-separated list used for DNS servers.

use vstd::prelude::*;

verus! {

/// `c` is an ASCII capital letter.
pub open spec fn is_ascii_upper(c: char) -> bool {
    'A' <= c && c <= 'Z'
}

/// The two characters are equal up to ASCII case.
pub open spec fn chars_eq_ci(a: char, b: char) -> bool {
    a == b || (is_ascii_upper(a) && (a as u32) + 32 == (b as u32)) || (is_ascii_upper(b) && (
    b as u32) + 32 == (a as u32))
}

/// `needle` occurs in `hay` at position `i`, up to ASCII case.
pub open spec fn matches_at(hay: Seq<char>, needle: Seq<char>, i: int) -> bool {
    forall|j: int| 0 <= j < needle.len() ==> chars_eq_ci(hay[i + j], needle[j])
}

/// `needle` occurs somewhere in `hay`, up to ASCII case.
pub open spec fn contains_ci(hay: Seq<char>, needle: Seq<char>) -> bool {
    exists|i: int| 0 <= i && i + needle.len() <= hay.len() && matches_at(hay, needle, i)
}

fn eq_ci(a: char, b: char) -> (r: bool)
    ensures
        r == chars_eq_ci(a, b),
{
    let au = a as u32;
    let bu = b as u32;
    au == bu || (65 <= au && au <= 90 && au + 32 == bu) || (65 <= bu && bu <= 90 && bu + 32 == au)
}

/// Whether `needle` occurs in `hay`, ignoring ASCII case.
pub fn str_contains_ci(hay: &str, needle: &str) -> (r: bool)
    ensures
        r == contains_ci(hay@, needle@),
{
    let hlen = hay.unicode_len();
    let nlen = needle.unicode_len();
    if nlen > hlen {
        return false;
    }
    let mut i: usize = 0;
    while i <= hlen - nlen
        invariant
            nlen <= hlen,
            hlen == hay@.len(),
            nlen == needle@.len(),
            i <= hlen - nlen + 1,
            forall|k: int| 0 <= k < i ==> !matches_at(hay@, needle@, k),
        decreases hlen - nlen - i + 1,
    {
        let mut j: usize = 0;
        let mut hit = true;
        while j < nlen
            invariant
                nlen <= hlen,
                hlen == hay@.len(),
                nlen == needle@.len(),
                i + nlen <= hlen,
                j <= nlen,
                hit == forall|j2: int| 0 <= j2 < j ==> chars_eq_ci(hay@[i + j2], needle@[j2]),
            decreases nlen - j,
        {
            if !eq_ci(hay.get_char(i + j), needle.get_char(j)) {
                hit = false;
                j = nlen;
            } else {
                let ghost j0 = j;
                j = j + 1;
                proof {
                    if hit {
                        assert(forall|j2: int|
                            0 <= j2 < j ==> chars_eq_ci(hay@[i + j2], needle@[j2])) by {
                            assert(chars_eq_ci(hay@[i + j0], needle@[j0 as int]));
                        }
                    }
                }
            }
        }
        if hit {
            assert(matches_at(hay@, needle@, i as int));
            return true;
        }
        i = i + 1;
    }
    false
}

/// The decimal digit character for `d` (which must be below ten).
pub open spec fn dec_digit(d: nat) -> char {
    if d == 0 {
        '0'
    } else if d == 1 {
        '1'
    } else if d == 2 {
        '2'
    } else if d == 3 {
        '3'
    } else if d == 4 {
        '4'
    } else if d == 5 {
        '5'
    } else if d == 6 {
        '6'
    } else if d == 7 {
        '7'
    } else if d == 8 {
        '8'
    } else {
        '9'
    }
}

/// The usual decimal rendering of `n`, most significant digit first and
/// without leading zeros (a single zero for zero itself).
pub open spec fn spec_dec(n: nat) -> Seq<char>
    decreases n,
{
    if n < 10 {
        seq![dec_digit(n)]
    } else {
        spec_dec(n / 10).push(dec_digit(n % 10))
    }
}

fn digit_str(d: u16) -> (r: &'static str)
    requires
        d < 10,
    ensures
        r@ =~= seq![dec_digit(d as nat)],
{
    proof {
        reveal_strlit("0");
        reveal_strlit("1");
        reveal_strlit("2");
        reveal_strlit("3");
        reveal_strlit("4");
        reveal_strlit("5");
        reveal_strlit("6");
        reveal_strlit("7");
        reveal_strlit("8");
        reveal_strlit("9");
    }
    if d == 0 {
        "0"
    } else if d == 1 {
        "1"
    } else if d == 2 {
        "2"
    } else if d == 3 {
        "3"
    } else if d == 4 {
        "4"
    } else if d == 5 {
        "5"
    } else if d == 6 {
        "6"
    } else if d == 7 {
        "7"
    } else if d == 8 {
        "8"
    } else {
        "9"
    }
}

/// Renders `n` in decimal.
pub fn u16_dec(n: u16) -> (r: String)
    ensures
        r@ == spec_dec(n as nat),
    decreases n,
{
    if n < 10 {
        String::from_str(digit_str(n))
    } else {
        let mut r = u16_dec(n / 10);
        r.append(digit_str(n % 10));
        assert(r@ =~= spec_dec((n / 10) as nat).push(dec_digit((n % 10) as nat)));
        r
    }
}

/// `s` wrapped in single quotes.
pub open spec fn quoted(s: Seq<char>) -> Seq<char> {
    seq!['\''] + s + seq!['\'']
}

/// Each element wrapped in single quotes, joined with a comma and a space.
pub open spec fn quoted_list(l: Seq<Seq<char>>) -> Seq<char>
    decreases l.len(),
{
    if l.len() == 0 {
        Seq::empty()
    } else if l.len() == 1 {
        quoted(l[0])
    } else {
        quoted(l[0]) + seq![',', ' '] + quoted_list(l.drop_first())
    }
}

fn join_quoted_from(v: &Vec<String>, i: usize) -> (r: String)
    requires
        i <= v.len(),
    ensures
        r@ == quoted_list(v.deep_view().skip(i as int)),
    decreases v.len() - i,
{
    proof {
        reveal_strlit("'");
        reveal_strlit("', ");
    }
    if i == v.len() {
        assert(v.deep_view().skip(i as int).len() == 0);
        String::new()
    } else {
        let mut r = String::from_str("'");
        r.append(v[i].as_str());
        if i + 1 == v.len() {
            r.append("'");
            assert(v.deep_view().skip(i as int).len() == 1);
            assert(v.deep_view().skip(i as int)[0] == v[i as int]@);
            assert(r@ =~= quoted_list(v.deep_view().skip(i as int)));
            r
        } else {
            r.append("', ");
            let rest = join_quoted_from(v, i + 1);
            let r2 = r.concat(rest.as_str());
            proof {
                let l = v.deep_view().skip(i as int);
                assert(l.len() >= 2);
                assert(l[0] == v[i as int]@);
                assert(l.drop_first() =~= v.deep_view().skip(i + 1));
                assert(rest@ == quoted_list(l.drop_first()));
                assert(("'")@ =~= seq!['\'']);
                assert(("', ")@ =~= seq!['\'', ',', ' ']);
                assert(r@ =~= seq!['\''] + v[i as int]@ + seq!['\'', ',', ' ']);
                assert(quoted_list(l) == quoted(l[0]) + seq![',', ' '] + quoted_list(
                    l.drop_first(),
                ));
                assert(r2@ =~= quoted(l[0]) + seq![',', ' '] + quoted_list(l.drop_first()));
            }
            r2
        }
    }
}

/// Renders the whole vector as a quoted comma-separated list.
pub fn join_quoted(v: &Vec<String>) -> (r: String)
    ensures
        r@ == quoted_list(v.deep_view()),
{
    let r = join_quoted_from(v, 0);
    assert(v.deep_view().skip(0) =~= v.deep_view());
    r
}

} // verus!
