//! Dotted-decimal IPv4 addresses, read as `std::net::Ipv4Addr` reads them:
//! exactly four parts separated by dots, each one to three ASCII digits with
//! a value of at most 255 and no leading zero (other than `0` itself).

use vstd::prelude::*;
use crate::text::{decimal, digit_char, lemma_decimal_denotes, lemma_digit_char, lemma_digits_value_push};

verus! {

/// `c` is an ASCII decimal digit.
pub open spec fn is_digit(c: char) -> bool {
    '0' <= c && c <= '9'
}

/// The value of the ASCII digit `c`.
pub open spec fn digit_value(c: char) -> nat {
    (c as nat - '0' as nat) as nat
}

/// The value of a string of decimal digits.
pub open spec fn digits_value(d: Seq<char>) -> nat
    decreases d.len(),
{
    if d.len() == 0 {
        0
    } else {
        digits_value(d.drop_last()) * 10 + digit_value(d.last())
    }
}

/// `d` is a well-formed part of a dotted-decimal address.
pub open spec fn valid_octet(d: Seq<char>) -> bool {
    &&& 1 <= d.len() <= 3
    &&& forall|i: int| 0 <= i < d.len() ==> is_digit(#[trigger] d[i])
    &&& (d.len() == 1 || d[0] != '0')
    &&& digits_value(d) <= 255
}

/// The parts of `s` between dots (one more than there are dots).
pub open spec fn split_dots(s: Seq<char>) -> Seq<Seq<char>>
    decreases s.len(),
{
    if s.len() == 0 {
        seq![Seq::empty()]
    } else {
        let p = split_dots(s.drop_last());
        if s.last() == '.' {
            p.push(Seq::empty())
        } else {
            p.update(p.len() - 1, p.last().push(s.last()))
        }
    }
}

/// The four octets `s` denotes in dotted-decimal notation, if it does.
pub open spec fn ipv4_octets(s: Seq<char>) -> Option<Seq<u8>> {
    let p = split_dots(s);
    if p.len() == 4 && forall|j: int| 0 <= j < 4 ==> valid_octet(#[trigger] p[j]) {
        Some(
            seq![
                digits_value(p[0]) as u8,
                digits_value(p[1]) as u8,
                digits_value(p[2]) as u8,
                digits_value(p[3]) as u8,
            ],
        )
    } else {
        None
    }
}

/// The address as a 32-bit number, first octet most significant.
pub open spec fn octets_to_u32(o: Seq<u8>) -> nat {
    ((o[0] as nat * 256 + o[1] as nat) * 256 + o[2] as nat) * 256 + o[3] as nat
}

/// The dotted-decimal text of four octets: their decimal texts joined by
/// dots.
pub open spec fn dotted(o: Seq<u8>) -> Seq<char> {
    decimal(o[0] as nat) + seq!['.'] + decimal(o[1] as nat) + seq!['.'] + decimal(o[2] as nat)
        + seq!['.'] + decimal(o[3] as nat)
}

/// `q` holds no dot.
pub open spec fn no_dot(q: Seq<char>) -> bool {
    forall|i: int| 0 <= i < q.len() ==> #[trigger] q[i] != '.'
}

/// Parts joined by dots (the inverse of `split_dots`).
pub open spec fn join_dots(p: Seq<Seq<char>>) -> Seq<char>
    decreases p.len(),
{
    if p.len() <= 1 {
        if p.len() == 0 {
            Seq::empty()
        } else {
            p[0]
        }
    } else {
        join_dots(p.drop_last()) + seq!['.'] + p.last()
    }
}

proof fn lemma_split_nonempty(s: Seq<char>)
    ensures
        split_dots(s).len() >= 1,
    decreases s.len(),
{
    if s.len() > 0 {
        lemma_split_nonempty(s.drop_last());
    }
}

proof fn lemma_split_no_dot(q: Seq<char>)
    requires
        no_dot(q),
    ensures
        split_dots(q) == seq![q],
    decreases q.len(),
{
    if q.len() == 0 {
        assert(q =~= Seq::<char>::empty());
        assert(split_dots(q) =~= seq![q]);
    } else {
        let r = q.drop_last();
        assert(no_dot(r)) by {
            assert forall|i: int| 0 <= i < r.len() implies #[trigger] r[i] != '.' by {
                assert(r[i] == q[i]);
            }
        }
        lemma_split_no_dot(r);
        assert(q[q.len() - 1] != '.');
        assert(r.push(q.last()) =~= q);
        assert(split_dots(q) == seq![r].update(0, r.push(q.last())));
        assert(split_dots(q) =~= seq![q]);
    }
}

proof fn lemma_split_after_dot(p: Seq<char>, q: Seq<char>)
    requires
        no_dot(q),
    ensures
        split_dots(p + seq!['.'] + q) == split_dots(p).push(q),
    decreases q.len(),
{
    let s = p + seq!['.'] + q;
    if q.len() == 0 {
        assert(s.drop_last() =~= p);
        assert(s.last() == '.');
        assert(q =~= Seq::<char>::empty());
    } else {
        let r = q.drop_last();
        assert(no_dot(r)) by {
            assert forall|i: int| 0 <= i < r.len() implies #[trigger] r[i] != '.' by {
                assert(r[i] == q[i]);
            }
        }
        lemma_split_after_dot(p, r);
        assert(s.drop_last() =~= p + seq!['.'] + r);
        assert(s.last() == q[q.len() - 1]);
        assert(r.push(q.last()) =~= q);
        assert(split_dots(s) =~= split_dots(p).push(q));
    }
}

proof fn lemma_join_split(s: Seq<char>)
    ensures
        join_dots(split_dots(s)) == s,
    decreases s.len(),
{
    if s.len() == 0 {
        assert(split_dots(s) =~= seq![Seq::<char>::empty()]);
    } else {
        let t = s.drop_last();
        let p = split_dots(t);
        lemma_join_split(t);
        lemma_split_nonempty(t);
        if s.last() == '.' {
            let p2 = p.push(Seq::<char>::empty());
            assert(p2.drop_last() =~= p);
            assert(join_dots(p2) =~= t + seq!['.'] + Seq::<char>::empty());
            assert(s =~= t.push('.'));
        } else {
            let p2 = p.update(p.len() - 1, p.last().push(s.last()));
            if p.len() == 1 {
                assert(join_dots(p2) == p2[0]);
                assert(s =~= t.push(s.last()));
            } else {
                assert(p2.drop_last() =~= p.drop_last());
                assert(join_dots(p2) =~= join_dots(p.drop_last()) + seq!['.'] + p.last().push(
                    s.last(),
                ));
                assert(s =~= t.push(s.last()));
            }
        }
    }
}

proof fn lemma_digit_round_trip(c: char)
    requires
        is_digit(c),
    ensures
        digit_value(c) < 10,
        digit_char(digit_value(c)) == c,
{
}

proof fn lemma_leading_digit_value(d: Seq<char>)
    requires
        d.len() >= 1,
        forall|i: int| 0 <= i < d.len() ==> is_digit(#[trigger] d[i]),
        d[0] != '0',
    ensures
        digits_value(d) >= 1,
    decreases d.len(),
{
    let r = d.drop_last();
    if d.len() == 1 {
        assert(r =~= Seq::<char>::empty());
    } else {
        assert(forall|i: int| 0 <= i < r.len() ==> is_digit(#[trigger] r[i]) && r[i] == d[i]);
        assert(r[0] == d[0]);
        lemma_leading_digit_value(r);
    }
}

/// A digit string without a leading zero is the decimal text of its value.
proof fn lemma_digits_canonical(d: Seq<char>)
    requires
        d.len() >= 1,
        forall|i: int| 0 <= i < d.len() ==> is_digit(#[trigger] d[i]),
        d.len() == 1 || d[0] != '0',
    ensures
        decimal(digits_value(d)) == d,
    decreases d.len(),
{
    let r = d.drop_last();
    let c = d.last();
    assert(is_digit(d[d.len() - 1]));
    lemma_digit_round_trip(c);
    assert(r.push(c) =~= d);
    lemma_digits_value_push(r, c);
    if d.len() == 1 {
        assert(r =~= Seq::<char>::empty());
        assert(seq![c] =~= d);
    } else {
        assert(forall|i: int| 0 <= i < r.len() ==> is_digit(#[trigger] r[i]) && r[i] == d[i]);
        assert(r[0] == d[0]);
        lemma_leading_digit_value(r);
        lemma_digits_canonical(r);
        let v = digits_value(d);
        let x = digit_value(c);
        assert(v == digits_value(r) * 10 + x);
        assert(v / 10 == digits_value(r) && v % 10 == x);
    }
}

/// The decimal text of a value up to 255 is a well-formed octet.
proof fn lemma_octet_text(x: nat)
    requires
        x <= 255,
    ensures
        valid_octet(decimal(x)),
        digits_value(decimal(x)) == x,
        no_dot(decimal(x)),
{
    lemma_decimal_denotes(x);
    let d = decimal(x);
    assert forall|i: int| 0 <= i < d.len() implies is_digit(#[trigger] d[i]) by {
        assert('0' <= d[i] <= '9');
    }
    assert forall|i: int| 0 <= i < d.len() implies #[trigger] d[i] != '.' by {
        assert('0' <= d[i] <= '9');
    }
}

/// Every four octets written in dotted decimal are read back as themselves:
/// each part of one to three ASCII digits `0`..`9`, up to 255, is accepted.
pub proof fn lemma_ipv4_round_trip(o: Seq<u8>)
    requires
        o.len() == 4,
    ensures
        ipv4_octets(dotted(o)) == Some(o),
{
    let d0 = decimal(o[0] as nat);
    let d1 = decimal(o[1] as nat);
    let d2 = decimal(o[2] as nat);
    let d3 = decimal(o[3] as nat);
    lemma_octet_text(o[0] as nat);
    lemma_octet_text(o[1] as nat);
    lemma_octet_text(o[2] as nat);
    lemma_octet_text(o[3] as nat);
    lemma_split_no_dot(d0);
    lemma_split_after_dot(d0, d1);
    lemma_split_after_dot(d0 + seq!['.'] + d1, d2);
    lemma_split_after_dot(d0 + seq!['.'] + d1 + seq!['.'] + d2, d3);
    let p = split_dots(dotted(o));
    assert(p =~= seq![d0, d1, d2, d3]);
    assert(forall|j: int| 0 <= j < 4 ==> valid_octet(#[trigger] p[j])) by {
        assert(p[0] == d0 && p[1] == d1 && p[2] == d2 && p[3] == d3);
    }
    assert(seq![
        digits_value(p[0]) as u8,
        digits_value(p[1]) as u8,
        digits_value(p[2]) as u8,
        digits_value(p[3]) as u8,
    ] =~= o);
}

/// Only the canonical dotted-decimal text of an address is accepted: text
/// that is read as four octets is exactly their decimal texts joined by
/// dots (no leading zeros, signs, spaces or other characters).
pub proof fn lemma_ipv4_canonical(s: Seq<char>)
    ensures
        ipv4_octets(s) matches Some(o) ==> o.len() == 4 && s == dotted(o),
{
    let p = split_dots(s);
    if p.len() == 4 && forall|j: int| 0 <= j < 4 ==> valid_octet(#[trigger] p[j]) {
        let o = ipv4_octets(s)->0;
        assert(valid_octet(p[0]) && valid_octet(p[1]) && valid_octet(p[2]) && valid_octet(p[3]));
        lemma_digits_canonical(p[0]);
        lemma_digits_canonical(p[1]);
        lemma_digits_canonical(p[2]);
        lemma_digits_canonical(p[3]);
        assert(o[0] as nat == digits_value(p[0]));
        assert(o[1] as nat == digits_value(p[1]));
        assert(o[2] as nat == digits_value(p[2]));
        assert(o[3] as nat == digits_value(p[3]));
        lemma_join_split(s);
        let p1 = seq![p[0]];
        let p2 = seq![p[0], p[1]];
        let p3 = seq![p[0], p[1], p[2]];
        assert(p2.drop_last() =~= p1);
        assert(p3.drop_last() =~= p2);
        assert(p.drop_last() =~= p3);
        assert(join_dots(p1) == p[0]);
        assert(join_dots(p2) == join_dots(p1) + seq!['.'] + p[1]);
        assert(join_dots(p3) == join_dots(p2) + seq!['.'] + p[2]);
        assert(join_dots(p) == join_dots(p3) + seq!['.'] + p[3]);
        assert(join_dots(p) =~= dotted(o));
    }
}

/// The view of a list of character vectors.
pub open spec fn parts_view(v: Seq<Vec<char>>) -> Seq<Seq<char>> {
    v.map_values(|x: Vec<char>| x@)
}

fn octet_value(d: &Vec<char>) -> (r: Option<u8>)
    ensures
        r is Some <==> valid_octet(d@),
        r matches Some(v) ==> v == digits_value(d@),
{
    let n = d.len();
    if n < 1 || n > 3 {
        return None;
    }
    if n > 1 && d[0] == '0' {
        return None;
    }
    let mut v: u32 = 0;
    let mut i: usize = 0;
    while i < n
        invariant
            n == d@.len(),
            1 <= n <= 3,
            i <= n,
            forall|k: int| 0 <= k < i ==> is_digit(#[trigger] d@[k]),
            v == digits_value(d@.take(i as int)),
            i == 0 ==> v == 0,
            i <= 1 ==> v < 10,
            i <= 2 ==> v < 100,
            v < 1000,
        decreases n - i,
    {
        let c = d[i];
        if !('0' <= c && c <= '9') {
            return None;
        }
        assert(d@.take(i + 1).drop_last() =~= d@.take(i as int));
        v = v * 10 + ((c as u32) - ('0' as u32));
        i = i + 1;
    }
    assert(d@.take(n as int) =~= d@);
    if v > 255 {
        return None;
    }
    Some(v as u8)
}

/// The four octets of a dotted-decimal IPv4 address, or `None` when `s` is
/// not one.
pub fn parse_ipv4(s: &str) -> (r: Option<[u8; 4]>)
    ensures
        match r {
            Some(a) => ipv4_octets(s@) == Some(a@),
            None => ipv4_octets(s@) is None,
        },
{
    let n = s.unicode_len();
    let mut parts: Vec<Vec<char>> = Vec::new();
    let mut cur: Vec<char> = Vec::new();
    let mut i: usize = 0;
    assert(s@.take(0) =~= Seq::<char>::empty());
    assert(parts_view(parts@).push(cur@) =~= split_dots(s@.take(0)));
    while i < n
        invariant
            n == s@.len(),
            i <= n,
            parts_view(parts@).push(cur@) == split_dots(s@.take(i as int)),
        decreases n - i,
    {
        let c = s.get_char(i);
        let ghost t = s@.take(i + 1);
        assert(t.drop_last() =~= s@.take(i as int));
        assert(t.last() == c);
        if c == '.' {
            parts.push(cur);
            cur = Vec::new();
            assert(parts_view(parts@).push(cur@) =~= split_dots(s@.take(i as int)).push(
                Seq::empty(),
            ));
        } else {
            let ghost old_cur = cur@;
            cur.push(c);
            assert(parts_view(parts@).push(cur@) =~= split_dots(s@.take(i as int)).update(
                parts@.len() as int,
                old_cur.push(c),
            ));
        }
        i = i + 1;
    }
    assert(s@.take(n as int) =~= s@);
    parts.push(cur);
    let ghost p = split_dots(s@);
    assert(parts_view(parts@) =~= p);
    if parts.len() != 4 {
        return None;
    }
    assert(parts@[0]@ == p[0] && parts@[1]@ == p[1] && parts@[2]@ == p[2] && parts@[3]@ == p[3]);
    let a = octet_value(&parts[0]);
    let b = octet_value(&parts[1]);
    let c = octet_value(&parts[2]);
    let d = octet_value(&parts[3]);
    match (a, b, c, d) {
        (Some(a), Some(b), Some(c), Some(d)) => {
            assert(forall|j: int| 0 <= j < 4 ==> valid_octet(#[trigger] p[j])) by {
                assert(valid_octet(p[0]) && valid_octet(p[1]) && valid_octet(p[2]) && valid_octet(
                    p[3],
                ));
            }
            let r = [a, b, c, d];
            assert(r@ =~= seq![a, b, c, d]);
            Some(r)
        },
        _ => {
            assert(!valid_octet(p[0]) || !valid_octet(p[1]) || !valid_octet(p[2])
                || !valid_octet(p[3]));
            None
        },
    }
}

/// An address as a 32-bit number, first octet most significant (the value
/// `u32::from_be_bytes` gives for the octets).
pub fn ipv4_to_u32(a: [u8; 4]) -> (r: u32)
    ensures
        r as nat == octets_to_u32(a@),
{
    (((a[0] as u32) * 256 + a[1] as u32) * 256 + a[2] as u32) * 256 + a[3] as u32
}

} // verus!
