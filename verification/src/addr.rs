//! Dotted-quad host addresses.
//!
//! A monitored host is named by a string. Before a probe can be sent the
//! string must denote an address: four decimal octets, each between 0 and
//! 255 and written without leading zeros, separated by single dots. The
//! grammar is stated as spec functions over the string's characters and
//! [`parse_ipv4`] is proved to accept exactly the strings the grammar
//! allows.

use vstd::prelude::*;

verus! {

/// A parsed dotted-quad address, one field per octet.
#[derive(PartialEq, Eq, Structural, Clone, Copy, Debug)]
pub struct HostAddress {
    pub o0: u8,
    pub o1: u8,
    pub o2: u8,
    pub o3: u8,
}

/// A decimal digit.
pub open spec fn is_dec_digit(c: char) -> bool {
    '0' <= c && c <= '9'
}

/// The numeric value of one decimal digit.
pub open spec fn digit_value(c: char) -> int {
    c as int - '0' as int
}

/// Every character of the sequence is a decimal digit.
pub open spec fn all_digits(s: Seq<char>) -> bool {
    forall|i: int| 0 <= i < s.len() ==> is_dec_digit(#[trigger] s[i])
}

/// The numeric value of a digit string, most significant digit first.
pub open spec fn dec_value(s: Seq<char>) -> int
    decreases s.len(),
{
    if s.len() == 0 {
        0
    } else {
        dec_value(s.drop_last()) * 10 + digit_value(s.last())
    }
}

/// One octet of a dotted-quad address: one to three decimal digits, no
/// leading zero unless the octet is exactly "0", and a value at most 255.
pub open spec fn valid_octet(s: Seq<char>) -> bool {
    &&& 1 <= s.len() <= 3
    &&& all_digits(s)
    &&& (s.len() > 1 ==> s[0] != '0')
    &&& dec_value(s) <= 255
}

/// The positions `i < j < k` split `s` into four valid octets separated
/// by dots.
pub open spec fn ipv4_split(s: Seq<char>, i: int, j: int, k: int) -> bool {
    &&& 0 <= i < j < k < s.len()
    &&& s[i] == '.'
    &&& s[j] == '.'
    &&& s[k] == '.'
    &&& valid_octet(s.subrange(0, i))
    &&& valid_octet(s.subrange(i + 1, j))
    &&& valid_octet(s.subrange(j + 1, k))
    &&& valid_octet(s.subrange(k + 1, s.len() as int))
}

/// The string is a dotted-quad address.
pub open spec fn valid_ipv4(s: Seq<char>) -> bool {
    exists|i: int, j: int, k: int| ipv4_split(s, i, j, k)
}

/// The address a split denotes.
pub open spec fn address_of_split(s: Seq<char>, i: int, j: int, k: int) -> HostAddress {
    HostAddress {
        o0: dec_value(s.subrange(0, i)) as u8,
        o1: dec_value(s.subrange(i + 1, j)) as u8,
        o2: dec_value(s.subrange(j + 1, k)) as u8,
        o3: dec_value(s.subrange(k + 1, s.len() as int)) as u8,
    }
}

/// A valid octet string never contains a dot, so in a valid split the
/// separator positions are exactly the dot positions of the whole string.
pub proof fn lemma_split_dots_are_all_dots(s: Seq<char>, i: int, j: int, k: int)
    requires
        ipv4_split(s, i, j, k),
    ensures
        forall|q: int| 0 <= q < s.len() && s[q] == '.' ==> q == i || q == j || q == k,
{
    assert forall|q: int| 0 <= q < s.len() && s[q] == '.' implies q == i || q == j || q == k by {
        if q != i && q != j && q != k {
            if q < i {
                assert(s.subrange(0, i)[q] == s[q]);
            } else if q < j {
                assert(s.subrange(i + 1, j)[q - (i + 1)] == s[q]);
            } else if q < k {
                assert(s.subrange(j + 1, k)[q - (j + 1)] == s[q]);
            } else {
                assert(s.subrange(k + 1, s.len() as int)[q - (k + 1)] == s[q]);
            }
        }
    }
}

/// Whether `c` is a decimal digit.
fn check_digit(c: char) -> (r: bool)
    ensures
        r == is_dec_digit(c),
{
    '0' <= c && c <= '9'
}

/// The numeric value of a decimal digit.
fn digit_of(c: char) -> (r: u8)
    requires
        is_dec_digit(c),
    ensures
        r == digit_value(c),
{
    (c as u8) - ('0' as u8)
}

/// Parses the characters of `host` between `start` and `end` as one octet.
/// Returns the value exactly when that segment is a valid octet string.
fn parse_octet(host: &str, start: usize, end: usize) -> (r: Option<u8>)
    requires
        start <= end <= host@.len(),
    ensures
        r is Some <==> valid_octet(host@.subrange(start as int, end as int)),
        r is Some ==> r->Some_0 == dec_value(host@.subrange(start as int, end as int)),
{
    let ghost seg = host@.subrange(start as int, end as int);
    let len = end - start;
    if len == 0 || len > 3 {
        return None;
    }
    let c0 = host.get_char(start);
    proof {
        assert(seg[0] == c0);
    }
    if !check_digit(c0) {
        return None;
    }
    let d0 = digit_of(c0);
    if len == 1 {
        proof {
            assert(seg.drop_last() =~= Seq::<char>::empty());
            assert(dec_value(seg.drop_last()) == 0);
            assert(seg.last() == c0);
            assert(dec_value(seg) == digit_value(c0));
        }
        return Some(d0);
    }
    if c0 == '0' {
        return None;
    }
    let c1 = host.get_char(start + 1);
    proof {
        assert(seg[1] == c1);
    }
    if !check_digit(c1) {
        return None;
    }
    let d1 = digit_of(c1);
    if len == 2 {
        proof {
            assert(seg.drop_last().drop_last() =~= Seq::<char>::empty());
            assert(dec_value(seg.drop_last().drop_last()) == 0);
            assert(seg.drop_last().last() == c0);
            assert(dec_value(seg.drop_last()) == digit_value(c0));
            assert(seg.last() == c1);
            assert(dec_value(seg) == digit_value(c0) * 10 + digit_value(c1));
        }
        return Some(d0 * 10 + d1);
    }
    let c2 = host.get_char(start + 2);
    proof {
        assert(seg[2] == c2);
    }
    if !check_digit(c2) {
        return None;
    }
    let d2 = digit_of(c2);
    proof {
        assert(seg.drop_last().drop_last().drop_last() =~= Seq::<char>::empty());
        assert(dec_value(seg.drop_last().drop_last().drop_last()) == 0);
        assert(seg.drop_last().drop_last().last() == c0);
        assert(dec_value(seg.drop_last().drop_last()) == digit_value(c0));
        assert(seg.drop_last().last() == c1);
        assert(dec_value(seg.drop_last()) == digit_value(c0) * 10 + digit_value(c1));
        assert(seg.last() == c2);
        assert(dec_value(seg) == digit_value(c0) * 100 + digit_value(c1) * 10 + digit_value(c2));
    }
    let value: u32 = (d0 as u32) * 100 + (d1 as u32) * 10 + (d2 as u32);
    if value > 255 {
        return None;
    }
    Some(value as u8)
}

/// Parses a host string as a dotted-quad address. The result is the
/// address exactly when the string is in the grammar, and every valid
/// split of the string denotes that same address.
pub fn parse_ipv4(host: &str) -> (r: Option<HostAddress>)
    ensures
        r is Some <==> valid_ipv4(host@),
        forall|i: int, j: int, k: int|
            ipv4_split(host@, i, j, k) ==> r == Some(address_of_split(host@, i, j, k)),
{
    let ghost s = host@;
    let n = host.unicode_len();
    let mut dots: Vec<usize> = Vec::new();
    let mut idx: usize = 0;
    while idx < n
        invariant
            idx <= n,
            n == s.len(),
            s == host@,
            forall|a: int|
                0 <= a < dots@.len() ==> (#[trigger] dots@[a]) < idx && s[dots@[a] as int] == '.',
            forall|q: int|
                0 <= q < idx && s[q] == '.' ==> exists|a: int|
                    0 <= a < dots@.len() && #[trigger] dots@[a] as int == q,
            forall|a: int, b: int| 0 <= a < b < dots@.len() ==> dots@[a] < dots@[b],
        decreases n - idx,
    {
        let c = host.get_char(idx);
        let ghost prev = dots@;
        if c == '.' {
            dots.push(idx);
        }
        proof {
            assert forall|q: int| 0 <= q < idx + 1 && s[q] == '.' implies exists|a: int|
                0 <= a < dots@.len() && #[trigger] dots@[a] as int == q by {
                if q == idx {
                    assert(dots@[dots@.len() - 1] as int == q);
                } else {
                    let a = choose|a: int| 0 <= a < prev.len() && prev[a] as int == q;
                    assert(dots@[a] as int == q);
                }
            }
        }
        idx += 1;
    }
    if dots.len() != 3 {
        proof {
            assert forall|i: int, j: int, k: int| !ipv4_split(s, i, j, k) by {
                if ipv4_split(s, i, j, k) {
                    lemma_split_dots_are_all_dots(s, i, j, k);
                    if dots@.len() < 3 {
                        // three distinct separator positions were each
                        // recorded, so fewer than three records is absurd
                        let a = choose|a: int| 0 <= a < dots@.len() && dots@[a] as int == i;
                        let b = choose|b: int| 0 <= b < dots@.len() && dots@[b] as int == j;
                        let c = choose|c: int| 0 <= c < dots@.len() && dots@[c] as int == k;
                        assert(0 <= a < dots@.len() && dots@[a] as int == i);
                        assert(0 <= b < dots@.len() && dots@[b] as int == j);
                        assert(0 <= c < dots@.len() && dots@[c] as int == k);
                        assert(false);
                    } else {
                        // at least four recorded dots, but every dot is one
                        // of the three separators
                        assert(dots@.len() >= 4);
                        assert(dots@[0] < dots@[1] < dots@[2] < dots@[3]);
                        assert(s[dots@[0] as int] == '.');
                        assert(s[dots@[1] as int] == '.');
                        assert(s[dots@[2] as int] == '.');
                        assert(s[dots@[3] as int] == '.');
                        assert(false);
                    }
                }
            }
        }
        return None;
    }
    let p0 = dots[0];
    let p1 = dots[1];
    let p2 = dots[2];
    proof {
        assert(s[p0 as int] == '.' && s[p1 as int] == '.' && s[p2 as int] == '.');
        assert(p0 < p1 < p2 < n);
        assert forall|i: int, j: int, k: int| ipv4_split(s, i, j, k) implies i == p0 as int && j
            == p1 as int && k == p2 as int by {
            lemma_split_dots_are_all_dots(s, i, j, k);
            let a = choose|a: int| 0 <= a < dots@.len() && dots@[a] as int == i;
            let b = choose|b: int| 0 <= b < dots@.len() && dots@[b] as int == j;
            let c = choose|c: int| 0 <= c < dots@.len() && dots@[c] as int == k;
            assert(0 <= a < dots@.len() && dots@[a] as int == i);
            assert(0 <= b < dots@.len() && dots@[b] as int == j);
            assert(0 <= c < dots@.len() && dots@[c] as int == k);
        }
    }
    let o0 = parse_octet(host, 0, p0);
    let o1 = parse_octet(host, p0 + 1, p1);
    let o2 = parse_octet(host, p1 + 1, p2);
    let o3 = parse_octet(host, p2 + 1, n);
    match (o0, o1, o2, o3) {
        (Some(v0), Some(v1), Some(v2), Some(v3)) => {
            proof {
                assert(ipv4_split(s, p0 as int, p1 as int, p2 as int));
            }
            Some(HostAddress { o0: v0, o1: v1, o2: v2, o3: v3 })
        },
        _ => {
            proof {
                assert forall|i: int, j: int, k: int| !ipv4_split(s, i, j, k) by {
                    if ipv4_split(s, i, j, k) {
                        assert(i == p0 as int && j == p1 as int && k == p2 as int);
                    }
                }
            }
            None
        },
    }
}

} // verus!
