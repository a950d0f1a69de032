//! The gateway resolver's decision logic.
//!
//! The shell queries the host's default-route table and hands over the raw
//! candidates; this module picks the physical gateway: it drops candidates
//! whose next hop is the null address or whose interface looks like a
//! tunnel, prefers the lowest route metric (the earliest candidate on a
//! tie, matching a stable sort), and insists the winner reads as an IPv4
//! literal.  Naive "first default route" selection can pick the tunnel's
//! own interface once it exists; the exclusion happens on every session
//! start because the interface set changes between sessions.

use vstd::prelude::*;
use crate::errors::TunError;
use crate::text::{contains_ci, str_contains_ci};

verus! {

/// `c` is a decimal digit.
pub open spec fn is_digit(c: char) -> bool {
    48 <= (c as u32) <= 57
}

/// The numeric value of a digit character.
pub open spec fn digit_val(c: char) -> int {
    (c as u32) - 48
}

/// Every character of `s` is a decimal digit.
pub open spec fn all_digits(s: Seq<char>) -> bool {
    forall|i: int| 0 <= i < s.len() ==> is_digit(#[trigger] s[i])
}

/// The value of `s` read as a decimal numeral.
pub open spec fn dec_val(s: Seq<char>) -> int
    decreases s.len(),
{
    if s.len() == 0 {
        0
    } else {
        dec_val(s.drop_last()) * 10 + digit_val(s.last())
    }
}

/// `s` is one dotted-quad component: one to three digits valued at most
/// 255.
pub open spec fn is_octet(s: Seq<char>) -> bool {
    1 <= s.len() <= 3 && all_digits(s) && dec_val(s) <= 255
}

/// `s` reads as an IPv4 literal: four octets separated by single dots.
pub open spec fn is_ipv4_literal(s: Seq<char>) -> bool {
    exists|a: int, b: int, c: int|
        {
            &&& 0 <= a < b < c < s.len()
            &&& #[trigger] s[a] == '.'
            &&& #[trigger] s[b] == '.'
            &&& #[trigger] s[c] == '.'
            &&& is_octet(s.subrange(0, a))
            &&& is_octet(s.subrange(a + 1, b))
            &&& is_octet(s.subrange(b + 1, c))
            &&& is_octet(s.subrange(c + 1, s.len() as int))
        }
}

/// Ten to a small power; enough to bound a three-digit numeral.
pub open spec fn pow10_small(n: int) -> int {
    if n <= 0 {
        1
    } else if n == 1 {
        10
    } else if n == 2 {
        100
    } else {
        1000
    }
}

proof fn lemma_dec_val_bounds(s: Seq<char>)
    requires
        all_digits(s),
        s.len() <= 3,
    ensures
        0 <= dec_val(s) < pow10_small(s.len() as int),
    decreases s.len(),
{
    if s.len() > 0 {
        assert(all_digits(s.drop_last())) by {
            assert(forall|i: int|
                0 <= i < s.drop_last().len() ==> #[trigger] s.drop_last()[i] == s[i]);
        }
        lemma_dec_val_bounds(s.drop_last());
    }
}

fn check_octet(s: &str, lo: usize, hi: usize) -> (r: bool)
    requires
        lo <= hi <= s@.len(),
    ensures
        r == is_octet(s@.subrange(lo as int, hi as int)),
{
    let ghost seg = s@.subrange(lo as int, hi as int);
    if hi - lo < 1 || hi - lo > 3 {
        return false;
    }
    let mut val: u32 = 0;
    let mut i: usize = lo;
    while i < hi
        invariant
            lo <= i <= hi <= s@.len(),
            1 <= hi - lo <= 3,
            seg == s@.subrange(lo as int, hi as int),
            all_digits(s@.subrange(lo as int, i as int)),
            val == dec_val(s@.subrange(lo as int, i as int)),
            val < 1000,
        decreases hi - i,
    {
        let c = s.get_char(i);
        let u = c as u32;
        if u < 48 || u > 57 {
            assert(!is_octet(seg)) by {
                assert(seg[i - lo] == s@[i as int]);
                assert(!is_digit(seg[i - lo]));
            }
            return false;
        }
        let ghost pfx = s@.subrange(lo as int, i as int);
        let ghost pfx2 = s@.subrange(lo as int, i + 1);
        proof {
            assert(pfx2.drop_last() =~= pfx);
            assert(pfx2.last() == s@[i as int]);
            assert(all_digits(pfx2)) by {
                assert(forall|k: int| 0 <= k < pfx.len() ==> pfx2[k] == #[trigger] pfx[k]);
            }
            lemma_dec_val_bounds(pfx);
            assert(pfx.len() <= 2);
            assert(dec_val(pfx) < 100);
        }
        val = val * 10 + (u - 48);
        i = i + 1;
    }
    assert(seg =~= s@.subrange(lo as int, hi as int));
    if val <= 255 {
        assert(is_octet(seg));
        true
    } else {
        assert(!is_octet(seg));
        false
    }
}

/// Whether `s` reads as an IPv4 literal.
pub fn is_ipv4_str(s: &str) -> (r: bool)
    ensures
        r == is_ipv4_literal(s@),
{
    let len = s.unicode_len();
    let mut dots: Vec<usize> = Vec::new();
    let mut i: usize = 0;
    while i < len
        invariant
            i <= len,
            len == s@.len(),
            forall|k: int|
                0 <= k < dots.len() ==> (#[trigger] dots[k]) < i && s@[dots[k] as int] == '.',
            forall|k1: int, k2: int| 0 <= k1 < k2 < dots.len() ==> dots[k1] < dots[k2],
            forall|p: int|
                0 <= p < i && s@[p] == '.' ==> exists|k: int|
                    0 <= k < dots.len() && (#[trigger] dots[k]) == p,
        decreases len - i,
    {
        if s.get_char(i) == '.' {
            let ghost olddots = dots@;
            dots.push(i);
            proof {
                assert forall|p: int|
                    0 <= p < i + 1 && s@[p] == '.' implies exists|k: int|
                    0 <= k < dots.len() && (#[trigger] dots[k]) == p by {
                    if p < i {
                        let k = choose|k: int|
                            0 <= k < olddots.len() && (#[trigger] olddots[k]) == p;
                        assert(dots[k] == p);
                    } else {
                        assert(dots[olddots.len() as int] == p);
                    }
                }
            }
        } else {
            proof {
                assert forall|p: int|
                    0 <= p < i + 1 && s@[p] == '.' implies exists|k: int|
                    0 <= k < dots.len() && (#[trigger] dots[k]) == p by {
                    assert(p < i);
                }
            }
        }
        i = i + 1;
    }
    if dots.len() != 3 {
        proof {
            if is_ipv4_literal(s@) {
                let (a, b, c) = choose|a: int, b: int, c: int|
                    {
                        &&& 0 <= a < b < c < s@.len()
                        &&& #[trigger] s@[a] == '.'
                        &&& #[trigger] s@[b] == '.'
                        &&& #[trigger] s@[c] == '.'
                        &&& is_octet(s@.subrange(0, a))
                        &&& is_octet(s@.subrange(a + 1, b))
                        &&& is_octet(s@.subrange(b + 1, c))
                        &&& is_octet(s@.subrange(c + 1, s@.len() as int))
                    };
                lemma_all_dots(s@, a, b, c);
                // The collected dots are exactly {a, b, c}, strictly
                // increasing, so there are three of them.
                let ka = choose|k: int| 0 <= k < dots.len() && (#[trigger] dots[k]) == a;
                let kb = choose|k: int| 0 <= k < dots.len() && (#[trigger] dots[k]) == b;
                let kc = choose|k: int| 0 <= k < dots.len() && (#[trigger] dots[k]) == c;
                assert(dots.len() >= 3);
                if dots.len() > 3 {
                    assert(dots[0] < dots[1] < dots[2] < dots[3]);
                    assert(dots[0] == a || dots[0] == b || dots[0] == c);
                    assert(dots[1] == a || dots[1] == b || dots[1] == c);
                    assert(dots[2] == a || dots[2] == b || dots[2] == c);
                    assert(dots[3] == a || dots[3] == b || dots[3] == c);
                    assert(false);
                }
            }
        }
        return false;
    }
    let a = dots[0];
    let b = dots[1];
    let c = dots[2];
    proof {
        if is_ipv4_literal(s@) {
            assert forall|p: int|
                0 <= p < s@.len() && #[trigger] s@[p] == '.' implies p == a || p == b || p
                == c by {
                let k = choose|k: int| 0 <= k < dots.len() && (#[trigger] dots[k]) == p;
                assert(k == 0 || k == 1 || k == 2);
            }
            assert(dots[0] < dots[1] < dots[2]);
            lemma_dots_are_witnesses(s@, a as int, b as int, c as int);
        }
    }
    let ok = check_octet(s, 0, a) && check_octet(s, a + 1, b) && check_octet(s, b + 1, c)
        && check_octet(s, c + 1, len);
    if ok {
        assert(is_ipv4_literal(s@)) by {
            assert({
                &&& 0 <= a < b < c < s@.len()
                &&& s@[a as int] == '.'
                &&& s@[b as int] == '.'
                &&& s@[c as int] == '.'
                &&& is_octet(s@.subrange(0, a as int))
                &&& is_octet(s@.subrange(a as int + 1, b as int))
                &&& is_octet(s@.subrange(b as int + 1, c as int))
                &&& is_octet(s@.subrange(c as int + 1, s@.len() as int))
            });
        }
    }
    ok
}

/// One default-route candidate, as read from the host's routing table.
pub struct RouteCandidate {
    pub next_hop: String,
    pub interface_alias: String,
    pub metric: u32,
}

/// A candidate that may carry the physical default route: its next hop is
/// not the null address, and its interface does not look like a tunnel
/// (`tun`, `TAP`, or the product's own virtual adapter, compared without
/// regard to ASCII case).
pub open spec fn eligible(c: RouteCandidate) -> bool {
    &&& c.next_hop@ != "0.0.0.0"@
    &&& !contains_ci(c.interface_alias@, "tun"@)
    &&& !contains_ci(c.interface_alias@, "tap"@)
    &&& !contains_ci(c.interface_alias@, "v-nexus"@)
}

/// `i` is the selected candidate: eligible, of minimal route metric, and
/// the earliest such (ties keep the candidates' order, as a stable
/// metric sort would).
pub open spec fn is_best_candidate(cs: Seq<RouteCandidate>, i: int) -> bool {
    &&& 0 <= i < cs.len()
    &&& eligible(cs[i])
    &&& forall|j: int| 0 <= j < cs.len() && eligible(#[trigger] cs[j]) ==> cs[i].metric <= cs[j].metric
    &&& forall|j: int| 0 <= j < i && eligible(#[trigger] cs[j]) ==> cs[i].metric < cs[j].metric
}

fn eligible_check(c: &RouteCandidate) -> (r: bool)
    ensures
        r == eligible(*c),
{
    let zero = String::from_str("0.0.0.0");
    !(c.next_hop == zero) && !str_contains_ci(c.interface_alias.as_str(), "tun")
        && !str_contains_ci(c.interface_alias.as_str(), "tap") && !str_contains_ci(
        c.interface_alias.as_str(),
        "v-nexus",
    )
}

/// Picks the physical default gateway from the raw route candidates, in
/// the order the routing table reported them.
///
/// Succeeds with the next hop of the best candidate exactly when one
/// exists and reads as an IPv4 literal; otherwise no usable gateway was
/// found.
pub fn select_gateway(candidates: &Vec<RouteCandidate>) -> (r: Result<String, TunError>)
    ensures
        match r {
            Ok(gw) => exists|i: int|
                #[trigger] is_best_candidate(candidates@, i) && gw@ == candidates@[i].next_hop@
                    && is_ipv4_literal(gw@),
            Err(e) => e == TunError::NoGatewayFound && forall|i: int|
                #[trigger] is_best_candidate(candidates@, i) ==> !is_ipv4_literal(
                    candidates@[i].next_hop@,
                ),
        },
{
    let ghost cs = candidates@;
    let mut best: Option<usize> = None;
    let mut k: usize = 0;
    while k < candidates.len()
        invariant
            cs == candidates@,
            k <= cs.len(),
            match best {
                None => forall|j: int| 0 <= j < k ==> !eligible(#[trigger] cs[j]),
                Some(bi) => {
                    &&& bi < k
                    &&& eligible(cs[bi as int])
                    &&& forall|j: int|
                        0 <= j < k && eligible(#[trigger] cs[j]) ==> cs[bi as int].metric
                            <= cs[j].metric
                    &&& forall|j: int|
                        0 <= j < bi && eligible(#[trigger] cs[j]) ==> cs[bi as int].metric
                            < cs[j].metric
                },
            },
        decreases cs.len() - k,
    {
        if eligible_check(&candidates[k]) {
            match best {
                None => { best = Some(k) },
                Some(bi) => {
                    if candidates[k].metric < candidates[bi].metric {
                        best = Some(k);
                    }
                },
            }
        }
        k = k + 1;
    }
    match best {
        None => {
            assert(forall|i: int| !is_best_candidate(cs, i));
            Err(TunError::NoGatewayFound)
        },
        Some(bi) => {
            assert(is_best_candidate(cs, bi as int));
            if is_ipv4_str(candidates[bi].next_hop.as_str()) {
                Ok(candidates[bi].next_hop.clone())
            } else {
                assert forall|i: int| #[trigger] is_best_candidate(cs, i) implies !is_ipv4_literal(
                    cs[i].next_hop@,
                ) by {
                    if i < bi {
                        assert(cs[bi as int].metric < cs[i].metric);
                        assert(cs[i].metric <= cs[bi as int].metric);
                    } else if i > bi {
                        assert(cs[i].metric < cs[bi as int].metric);
                        assert(cs[bi as int].metric <= cs[i].metric);
                    }
                }
                Err(TunError::NoGatewayFound)
            }
        },
    }
}

/// In an IPv4 literal with dot positions `a < b < c`, every dot is one of
/// them: all other positions sit inside an octet, which holds only digits.
proof fn lemma_all_dots(s: Seq<char>, a: int, b: int, c: int)
    requires
        0 <= a < b < c < s.len(),
        s[a] == '.',
        s[b] == '.',
        s[c] == '.',
        is_octet(s.subrange(0, a)),
        is_octet(s.subrange(a + 1, b)),
        is_octet(s.subrange(b + 1, c)),
        is_octet(s.subrange(c + 1, s.len() as int)),
    ensures
        forall|p: int| 0 <= p < s.len() && #[trigger] s[p] == '.' ==> p == a || p == b || p == c,
{
    assert forall|p: int|
        0 <= p < s.len() && #[trigger] s[p] == '.' implies p == a || p == b || p == c by {
        if p != a && p != b && p != c {
            if p < a {
                assert(s.subrange(0, a)[p] == s[p]);
                assert(is_digit(s[p]));
            } else if p < b {
                assert(s.subrange(a + 1, b)[p - (a + 1)] == s[p]);
                assert(is_digit(s[p]));
            } else if p < c {
                assert(s.subrange(b + 1, c)[p - (b + 1)] == s[p]);
                assert(is_digit(s[p]));
            } else {
                assert(s.subrange(c + 1, s.len() as int)[p - (c + 1)] == s[p]);
                assert(is_digit(s[p]));
            }
            assert(('.' as u32) == 46);
            assert(false);
        }
    }
}

/// If `s` is an IPv4 literal and `a < b < c` are exactly its dot
/// positions, those three positions split `s` into four octets.
proof fn lemma_dots_are_witnesses(s: Seq<char>, a: int, b: int, c: int)
    requires
        is_ipv4_literal(s),
        0 <= a < b < c < s.len(),
        s[a] == '.',
        s[b] == '.',
        s[c] == '.',
        forall|p: int| 0 <= p < s.len() && #[trigger] s[p] == '.' ==> p == a || p == b || p == c,
    ensures
        is_octet(s.subrange(0, a)),
        is_octet(s.subrange(a + 1, b)),
        is_octet(s.subrange(b + 1, c)),
        is_octet(s.subrange(c + 1, s.len() as int)),
{
    let (x, y, z) = choose|x: int, y: int, z: int|
        {
            &&& 0 <= x < y < z < s.len()
            &&& #[trigger] s[x] == '.'
            &&& #[trigger] s[y] == '.'
            &&& #[trigger] s[z] == '.'
            &&& is_octet(s.subrange(0, x))
            &&& is_octet(s.subrange(x + 1, y))
            &&& is_octet(s.subrange(y + 1, z))
            &&& is_octet(s.subrange(z + 1, s.len() as int))
        };
    lemma_all_dots(s, x, y, z);
    // Both triples list exactly the dot positions of `s` in increasing
    // order, so they coincide.
    assert(x == a || x == b || x == c);
    assert(y == a || y == b || y == c);
    assert(z == a || z == b || z == c);
    assert(a == x || a == y || a == z);
    assert(b == x || b == y || b == z);
    assert(c == x || c == y || c == z);
    assert(x == a && y == b && z == c);
}

} // verus!
