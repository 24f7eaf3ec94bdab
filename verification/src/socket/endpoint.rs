//! IP addresses, their text, and socket addresses: an IP address and a port.

use crate::command::at::{decimal_text, lemma_decimal_text_reads, push_decimal};
use crate::text::{
    digits_value, is_decimal, is_digit, lemma_index_of_finds, lemma_pieces_back, lemma_pieces_front, lemma_pieces_whole,
    parse_decimal, pieces, slice_of, split_pieces,
};
use vstd::prelude::*;

verus! {

/// An IPv4 address (its four octets) or an IPv6 address (its eight
/// 16-bit groups).
#[derive(Debug, Clone, Copy, PartialEq, Eq)]
pub enum IpAddr {
    V4([u8; 4]),
    V6([u16; 8]),
}

/// The dotted decimal text `a.b.c.d` of the IPv4 address with the octets `o`.
pub open spec fn ipv4_text(o: Seq<u8>) -> Seq<char> {
    decimal_text(o[0] as nat) + seq!['.'] + decimal_text(o[1] as nat) + seq!['.']
        + decimal_text(o[2] as nat) + seq!['.'] + decimal_text(o[3] as nat)
}

/// The character of the lower case hexadecimal digit `d`.
pub open spec fn lower_hex_char(d: nat) -> char {
    if d < 10 {
        (48 + d) as char
    } else {
        (87 + d) as char
    }
}

/// The lower case hexadecimal text of `n`, without leading zeros.
pub open spec fn hex_text(n: nat) -> Seq<char>
    decreases n,
{
    if n < 16 {
        seq![lower_hex_char(n)]
    } else {
        hex_text(n / 16) + seq![lower_hex_char(n % 16)]
    }
}

/// The groups `g` in hexadecimal, separated by colons.
pub open spec fn groups_text(g: Seq<u16>) -> Seq<char>
    decreases g.len(),
{
    if g.len() == 0 {
        Seq::empty()
    } else if g.len() == 1 {
        hex_text(g[0] as nat)
    } else {
        groups_text(g.drop_last()) + seq![':'] + hex_text(g.last() as nat)
    }
}

/// Whether the `l` groups of `g` from the index `s` on are all zero, and
/// there is at least one.
pub open spec fn zero_run(g: Seq<u16>, s: int, l: int) -> bool {
    &&& 1 <= l
    &&& 0 <= s
    &&& s + l <= g.len()
    &&& forall|k: int| s <= k < s + l ==> g[k] == 0
}

/// Whether the run of `l` zero groups of `g` from `s` on is a longest one,
/// and the first of that length.
pub open spec fn first_longest_zero_run(g: Seq<u16>, s: int, l: int) -> bool {
    &&& zero_run(g, s, l)
    &&& forall|s2: int, l2: int| #[trigger] zero_run(g, s2, l2) ==> l2 <= l
    &&& forall|s2: int| 0 <= s2 < s ==> !#[trigger] zero_run(g, s2, l)
}

/// Whether the IPv6 address with the groups `g` is an IPv4-mapped one
/// (`::ffff:a.b.c.d`).
pub open spec fn is_ipv4_mapped(g: Seq<u16>) -> bool {
    &&& g[0] == 0
    &&& g[1] == 0
    &&& g[2] == 0
    &&& g[3] == 0
    &&& g[4] == 0
    &&& g[5] == 0xffff
}

/// The text of the IPv6 address with the groups `g`, in the canonical form
/// of RFC 5952: an IPv4-mapped address as `::ffff:` and its dotted IPv4
/// text; otherwise the groups in lower case hexadecimal without leading
/// zeros, separated by colons, where the first longest run of at least two
/// zero groups is written as `::`.
pub open spec fn ipv6_text(g: Seq<u16>) -> Seq<char> {
    if is_ipv4_mapped(g) {
        seq![':', ':', 'f', 'f', 'f', 'f', ':'] + ipv4_text(
            seq![(g[6] / 256) as u8, (g[6] % 256) as u8, (g[7] / 256) as u8, (g[7] % 256) as u8],
        )
    } else if exists|s: int, l: int| first_longest_zero_run(g, s, l) && l >= 2 {
        let (s, l) = choose|s: int, l: int| first_longest_zero_run(g, s, l) && l >= 2;
        groups_text(g.subrange(0, s)) + seq![':', ':'] + groups_text(g.subrange(s + l, g.len() as int))
    } else {
        groups_text(g)
    }
}

/// The text of the address `ip`.
pub open spec fn ip_text(ip: IpAddr) -> Seq<char> {
    match ip {
        IpAddr::V4(o) => ipv4_text(o@),
        IpAddr::V6(g) => ipv6_text(g@),
    }
}

/// There is one first longest run of zero groups.
pub proof fn lemma_first_longest_zero_run_unique(g: Seq<u16>, s1: int, l1: int, s2: int, l2: int)
    requires
        first_longest_zero_run(g, s1, l1),
        first_longest_zero_run(g, s2, l2),
    ensures
        s1 == s2,
        l1 == l2,
{
    assert(zero_run(g, s2, l2));
    assert(zero_run(g, s1, l1));
    assert(l1 == l2);
    if s1 < s2 {
        assert(!zero_run(g, s1, l2));
    } else if s2 < s1 {
        assert(!zero_run(g, s2, l1));
    }
}

fn push_hex(out: &mut Vec<char>, n: u16)
    ensures
        final(out)@ == old(out)@ + hex_text(n as nat),
    decreases n,
{
    if n >= 16 {
        push_hex(out, n / 16);
    }
    let d: u8 = (n % 16) as u8;
    if d < 10 {
        out.push((48 + d) as char);
    } else {
        out.push((87 + d) as char);
    }
    proof {
        assert(old(out)@ + hex_text(n as nat) =~= if n < 16 {
            old(out)@ + seq![lower_hex_char(n as nat)]
        } else {
            old(out)@ + hex_text((n / 16) as nat) + seq![lower_hex_char((n % 16) as nat)]
        });
    }
}

fn push_groups(out: &mut Vec<char>, g: &[u16; 8], from: usize, to: usize)
    requires
        from <= to <= 8,
    ensures
        final(out)@ == old(out)@ + groups_text(g@.subrange(from as int, to as int)),
{
    let ghost start = out@;
    let mut i: usize = from;
    while i < to
        invariant
            from <= i <= to <= 8,
            g@.len() == 8,
            out@ == start + groups_text(g@.subrange(from as int, i as int)),
        decreases to - i,
    {
        let ghost before = out@;
        if i > from {
            out.push(':');
        }
        push_hex(out, g[i]);
        proof {
            let part = g@.subrange(from as int, i + 1);
            assert(part.drop_last() =~= g@.subrange(from as int, i as int));
            assert(part.last() == g@[i as int]);
            if i == from {
                assert(part.len() == 1);
                assert(out@ =~= start + groups_text(part));
            } else {
                assert(out@ =~= start + groups_text(part));
            }
        }
        i = i + 1;
    }
}

fn push_ipv4(out: &mut Vec<char>, o: [u8; 4])
    ensures
        final(out)@ == old(out)@ + ipv4_text(o@),
{
    push_decimal(out, o[0] as u128);
    out.push('.');
    push_decimal(out, o[1] as u128);
    out.push('.');
    push_decimal(out, o[2] as u128);
    out.push('.');
    push_decimal(out, o[3] as u128);
    proof {
        assert(final(out)@ =~= old(out)@ + ipv4_text(o@));
    }
}

/// The first longest run of zero groups of `g`, as its start and length;
/// the length is 0 where no group is zero.
fn longest_zero_run(g: &[u16; 8]) -> (r: (usize, usize))
    ensures
        r.1 == 0 ==> forall|k: int| 0 <= k < 8 ==> g@[k] != 0,
        r.1 > 0 ==> first_longest_zero_run(g@, r.0 as int, r.1 as int),
{
    let mut best_s: usize = 0;
    let mut best_l: usize = 0;
    let mut cur_s: usize = 0;
    let mut cur_l: usize = 0;
    let mut i: usize = 0;
    while i < 8
        invariant
            0 <= i <= 8,
            g@.len() == 8,
            cur_l <= best_l <= i,
            cur_l > 0 ==> cur_s + cur_l == i && zero_run(g@, cur_s as int, cur_l as int),
            forall|s2: int, l2: int| #[trigger] zero_run(g@, s2, l2) && s2 + l2 == i ==> l2 <= cur_l,
            best_l > 0 ==> best_s + best_l <= i && zero_run(g@, best_s as int, best_l as int),
            forall|s2: int, l2: int| #[trigger] zero_run(g@, s2, l2) && s2 + l2 <= i ==> l2 <= best_l,
            best_l > 0 ==> forall|s2: int| 0 <= s2 < best_s ==> !#[trigger] zero_run(g@, s2, best_l as int),
            best_l == 0 ==> forall|k: int| 0 <= k < i ==> g@[k] != 0,
        decreases 8 - i,
    {
        let ghost old_cur_l = cur_l;
        let ghost old_best_l = best_l;
        if g[i] == 0 {
            if cur_l == 0 {
                cur_s = i;
            }
            cur_l = cur_l + 1;
            proof {
                assert forall|k: int| cur_s <= k < cur_s + cur_l implies g@[k] == 0 by {
                    if k < i {
                        assert(zero_run(g@, cur_s as int, old_cur_l as int));
                    }
                }
                assert forall|s2: int, l2: int| #[trigger] zero_run(g@, s2, l2) && s2 + l2 == i + 1 implies l2 <= cur_l by {
                    if l2 >= 2 {
                        assert(zero_run(g@, s2, l2 - 1));
                    }
                }
            }
            if cur_l > best_l {
                best_s = cur_s;
                best_l = cur_l;
                proof {
                    assert forall|s2: int| 0 <= s2 < best_s implies !#[trigger] zero_run(g@, s2, best_l as int) by {
                        if zero_run(g@, s2, best_l as int) {
                            assert(s2 + best_l <= i);
                        }
                    }
                }
            }
        } else {
            cur_l = 0;
            proof {
                assert forall|s2: int, l2: int| #[trigger] zero_run(g@, s2, l2) && s2 + l2 == i + 1 implies l2 <= cur_l by {
                    assert(g@[s2 + l2 - 1] == 0);
                }
            }
        }
        proof {
            assert forall|s2: int, l2: int| #[trigger] zero_run(g@, s2, l2) && s2 + l2 <= i + 1 implies l2 <= best_l by {
                if s2 + l2 <= i {
                    assert(l2 <= old_best_l);
                }
            }
        }
        i = i + 1;
    }
    proof {
        if best_l > 0 {
            assert forall|s2: int, l2: int| #[trigger] zero_run(g@, s2, l2) implies l2 <= best_l by {
                assert(s2 + l2 <= 8);
            }
        }
    }
    (best_s, best_l)
}

/// Append the text of the address `ip` to `out`.
pub fn push_ip_text(out: &mut Vec<char>, ip: &IpAddr)
    ensures
        final(out)@ == old(out)@ + ip_text(*ip),
{
    match ip {
        IpAddr::V4(o) => {
            push_ipv4(out, *o);
        },
        IpAddr::V6(g) => {
            let ghost gs = g@;
            assert(gs.len() == 8);
            if g[0] == 0 && g[1] == 0 && g[2] == 0 && g[3] == 0 && g[4] == 0 && g[5] == 0xffff {
                out.push(':');
                out.push(':');
                out.push('f');
                out.push('f');
                out.push('f');
                out.push('f');
                out.push(':');
                let o: [u8; 4] = [(g[6] / 256) as u8, (g[6] % 256) as u8, (g[7] / 256) as u8, (g[7] % 256) as u8];
                let ghost mid = out@;
                push_ipv4(out, o);
                proof {
                    assert(o@ =~= seq![(gs[6] / 256) as u8, (gs[6] % 256) as u8, (gs[7] / 256) as u8, (gs[7] % 256) as u8]);
                    assert(final(out)@ =~= old(out)@ + ip_text(*ip));
                }
            } else {
                let (s, l) = longest_zero_run(g);
                if l >= 2 {
                    push_groups(out, g, 0, s);
                    out.push(':');
                    out.push(':');
                    push_groups(out, g, s + l, 8);
                    proof {
                        assert(first_longest_zero_run(gs, s as int, l as int) && l >= 2);
                        let (s2, l2) = choose|s2: int, l2: int| first_longest_zero_run(gs, s2, l2) && l2 >= 2;
                        lemma_first_longest_zero_run_unique(gs, s as int, l as int, s2, l2);
                        assert(final(out)@ =~= old(out)@ + ip_text(*ip));
                    }
                } else {
                    push_groups(out, g, 0, 8);
                    proof {
                        if exists|s2: int, l2: int| first_longest_zero_run(gs, s2, l2) && l2 >= 2 {
                            let (s2, l2) = choose|s2: int, l2: int| first_longest_zero_run(gs, s2, l2) && l2 >= 2;
                            if l == 0 {
                                assert(gs[s2] == 0);
                            } else {
                                assert(zero_run(gs, s2, l2));
                            }
                        }
                        assert(gs.subrange(0, 8) =~= gs);
                        assert(final(out)@ =~= old(out)@ + ip_text(*ip));
                    }
                }
            }
        },
    }
}

/// The octet that the text `t` writes: one to three decimal digits,
/// without a leading zero unless it is `0` alone, for at most 255.
pub open spec fn octet_of(t: Seq<char>) -> Option<u8> {
    if 1 <= t.len() <= 3 && is_decimal(t) && (t.len() == 1 || t[0] != '0') && digits_value(t) <= 255 {
        Some(digits_value(t) as u8)
    } else {
        None
    }
}

/// The IPv4 address that the text `t` writes in dotted decimal: four
/// octets (see [octet_of]) separated by dots, and nothing else.
pub open spec fn ipv4_of(t: Seq<char>) -> Option<Seq<u8>> {
    let ps = pieces(t, '.');
    if ps.len() == 4 {
        match (octet_of(ps[0]), octet_of(ps[1]), octet_of(ps[2]), octet_of(ps[3])) {
            (Some(a), Some(b), Some(c), Some(d)) => Some(seq![a, b, c, d]),
            _ => None,
        }
    } else {
        None
    }
}

fn read_octet(t: &[char]) -> (r: Option<u8>)
    ensures
        r == octet_of(t@),
{
    let n = t.len();
    if n < 1 || n > 3 || (n > 1 && t[0] == '0') {
        return None;
    }
    match parse_decimal(t, 255) {
        Some(v) => Some(v as u8),
        None => None,
    }
}

/// The IPv4 address that the text `t` writes in dotted decimal, if any.
pub fn parse_ipv4(t: &[char]) -> (r: Option<[u8; 4]>)
    ensures
        match ipv4_of(t@) {
            Some(v) => r matches Some(o) && o@ == v,
            None => r is None,
        },
{
    let ps = split_pieces(t, '.');
    if ps.len() != 4 {
        return None;
    }
    let a = match read_octet(ps[0].as_slice()) {
        Some(v) => v,
        None => {
            return None;
        },
    };
    let b = match read_octet(ps[1].as_slice()) {
        Some(v) => v,
        None => {
            return None;
        },
    };
    let c = match read_octet(ps[2].as_slice()) {
        Some(v) => v,
        None => {
            return None;
        },
    };
    let d = match read_octet(ps[3].as_slice()) {
        Some(v) => v,
        None => {
            return None;
        },
    };
    let o: [u8; 4] = [a, b, c, d];
    assert(o@ =~= seq![a, b, c, d]);
    Some(o)
}

/// Whether `c` is a hexadecimal digit, in either case.
pub open spec fn is_hex_digit(c: char) -> bool {
    ('0' <= c && c <= '9') || ('a' <= c && c <= 'f') || ('A' <= c && c <= 'F')
}

/// The value of the hexadecimal digit `c`.
pub open spec fn hex_digit_value(c: char) -> nat {
    if c <= '9' {
        (c as nat - '0' as nat) as nat
    } else if c <= 'F' {
        (c as nat - 'A' as nat + 10) as nat
    } else {
        (c as nat - 'a' as nat + 10) as nat
    }
}

/// The number that the hexadecimal digits `s` write.
pub open spec fn hex_digits_value(s: Seq<char>) -> nat
    decreases s.len(),
{
    if s.len() == 0 {
        0
    } else {
        hex_digits_value(s.drop_last()) * 16 + hex_digit_value(s.last())
    }
}

/// `16` to the power `n`.
pub open spec fn pow16(n: nat) -> nat
    decreases n,
{
    if n == 0 {
        1
    } else {
        16 * pow16((n - 1) as nat)
    }
}

/// The 16-bit group that the text `t` writes: one to four hexadecimal
/// digits, in either case, leading zeros allowed.
pub open spec fn group_of(t: Seq<char>) -> Option<u16> {
    if 1 <= t.len() <= 4 && forall|i: int| 0 <= i < t.len() ==> is_hex_digit(#[trigger] t[i]) {
        Some(hex_digits_value(t) as u16)
    } else {
        None
    }
}

/// The groups that the texts `ps` write, one group each, where each of
/// them writes one.
pub open spec fn hex_groups_of(ps: Seq<Seq<char>>) -> Option<Seq<u16>> {
    if forall|i: int| 0 <= i < ps.len() ==> #[trigger] group_of(ps[i]) is Some {
        Some(Seq::new(ps.len(), |i: int| group_of(ps[i])->0))
    } else {
        None
    }
}

/// The two groups that hold the IPv4 address with the octets `o`.
pub open spec fn v4_groups(o: Seq<u8>) -> Seq<u16> {
    seq![(o[0] * 256 + o[1]) as u16, (o[2] * 256 + o[3]) as u16]
}

/// The groups that the colon separated text `t` writes: none for the empty
/// text; otherwise one for each piece between colons, where, if `v4_last`,
/// the last piece may instead be a dotted IPv4 address (see [ipv4_of]),
/// which gives two.
pub open spec fn side_groups(t: Seq<char>, v4_last: bool) -> Option<Seq<u16>> {
    if t.len() == 0 {
        Some(Seq::empty())
    } else {
        let ps = pieces(t, ':');
        match hex_groups_of(ps) {
            Some(g) => Some(g),
            None => if v4_last && ps.len() > 0 {
                match (hex_groups_of(ps.drop_last()), ipv4_of(ps.last())) {
                    (Some(g), Some(o)) => Some(g + v4_groups(o)),
                    _ => None,
                }
            } else {
                None
            },
        }
    }
}

/// The index of the first `::` in `t`, or the length of `t` where there is
/// none.
pub open spec fn double_colon_at(t: Seq<char>) -> nat
    decreases t.len(),
{
    if t.len() < 2 {
        t.len()
    } else if t[0] == ':' && t[1] == ':' {
        0
    } else {
        1 + double_colon_at(t.drop_first())
    }
}

/// The IPv6 address (its eight groups) that the text `t` writes. Without
/// `::`: eight groups separated by colons (see [group_of]), of which the
/// last two may be written as a dotted IPv4 address. With it: the groups
/// before the first `::` (none in IPv4 form) and those after it, at most
/// seven in all, where the `::` stands for as many zero groups as make
/// eight.
pub open spec fn ipv6_of(t: Seq<char>) -> Option<Seq<u16>> {
    let k = double_colon_at(t);
    if k < t.len() {
        match (side_groups(t.subrange(0, k as int), false), side_groups(t.subrange(k as int + 2, t.len() as int), true)) {
            (Some(h), Some(tl)) => if h.len() + tl.len() <= 7 {
                Some(h + Seq::new((8 - h.len() - tl.len()) as nat, |i: int| 0u16) + tl)
            } else {
                None
            },
            _ => None,
        }
    } else {
        match side_groups(t, true) {
            Some(g) => if g.len() == 8 {
                Some(g)
            } else {
                None
            },
            None => None,
        }
    }
}

/// Whether the text `t` writes an IP address: in dotted decimal (see
/// [ipv4_of]) or as IPv6 text (see [ipv6_of]).
pub open spec fn is_ip_text(t: Seq<char>) -> bool {
    ipv4_of(t) is Some || ipv6_of(t) is Some
}

/// Whether the text `t` writes the address `ip`: an IPv4 address in dotted
/// decimal, or else an IPv6 address.
pub open spec fn ip_written(t: Seq<char>, ip: IpAddr) -> bool {
    match ip {
        IpAddr::V4(o) => ipv4_of(t) == Some(o@),
        IpAddr::V6(g) => ipv4_of(t) is None && ipv6_of(t) == Some(g@),
    }
}

proof fn lemma_double_colon_at(t: Seq<char>)
    ensures
        double_colon_at(t) <= t.len(),
        double_colon_at(t) < t.len() ==> double_colon_at(t) + 2 <= t.len(),
    decreases t.len(),
{
    if t.len() >= 2 && !(t[0] == ':' && t[1] == ':') {
        lemma_double_colon_at(t.drop_first());
    }
}

fn find_double_colon(t: &[char]) -> (k: usize)
    ensures
        k == double_colon_at(t@),
{
    let mut i: usize = 0;
    assert(t@.subrange(0, t@.len() as int) =~= t@);
    while t.len() - i >= 2
        invariant
            i <= t@.len(),
            double_colon_at(t@) == i + double_colon_at(t@.subrange(i as int, t@.len() as int)),
        decreases t@.len() - i,
    {
        let ghost rest = t@.subrange(i as int, t@.len() as int);
        if t[i] == ':' && t[i + 1] == ':' {
            assert(rest[0] == ':' && rest[1] == ':');
            return i;
        }
        assert(rest.drop_first() =~= t@.subrange(i + 1, t@.len() as int));
        i = i + 1;
    }
    i + (t.len() - i)
}

fn read_group(p: &[char]) -> (r: Option<u16>)
    ensures
        r == group_of(p@),
{
    let n = p.len();
    if n < 1 || n > 4 {
        return None;
    }
    let mut v: u32 = 0;
    let mut i: usize = 0;
    assert(p@.subrange(0, 0) =~= Seq::<char>::empty());
    while i < n
        invariant
            i <= n <= 4,
            n == p@.len(),
            v == hex_digits_value(p@.subrange(0, i as int)),
            v < pow16(i as nat),
            pow16(i as nat) <= 65536,
            forall|j: int| 0 <= j < i ==> is_hex_digit(#[trigger] p@[j]),
        decreases n - i,
    {
        let c = p[i];
        let d: u32 = if '0' <= c && c <= '9' {
            (c as u32) - 48
        } else if 'a' <= c && c <= 'f' {
            (c as u32) - 87
        } else if 'A' <= c && c <= 'F' {
            (c as u32) - 55
        } else {
            return None;
        };
        proof {
            assert(p@.subrange(0, i + 1).drop_last() =~= p@.subrange(0, i as int));
            assert(d == hex_digit_value(c));
            reveal_with_fuel(pow16, 5);
        }
        v = v * 16 + d;
        i = i + 1;
    }
    assert(p@.subrange(0, n as int) =~= p@);
    Some(v as u16)
}

fn read_side(x: &[char], v4_last: bool) -> (r: Option<Vec<u16>>)
    ensures
        match side_groups(x@, v4_last) {
            Some(g) => r matches Some(v) && v@ == g,
            None => r is None,
        },
{
    if x.len() == 0 {
        return Some(Vec::new());
    }
    let ps = split_pieces(x, ':');
    let ghost sp = pieces(x@, ':');
    let n = ps.len();
    assert(sp.len() >= 1);
    let mut g: Vec<u16> = Vec::new();
    let mut i: usize = 0;
    while i + 1 < n
        invariant
            n == ps@.len(),
            n == sp.len(),
            sp == pieces(x@, ':'),
            n >= 1,
            i + 1 <= n,
            g@.len() == i,
            forall|j: int| 0 <= j < ps@.len() ==> #[trigger] ps@[j]@ == sp[j],
            forall|j: int| 0 <= j < i ==> group_of(#[trigger] sp[j]) == Some(g@[j]),
        decreases n - i,
    {
        match read_group(ps[i].as_slice()) {
            Some(v) => {
                g.push(v);
            },
            None => {
                proof {
                    assert(group_of(sp[i as int]) is None);
                    assert(sp.drop_last()[i as int] == sp[i as int]);
                }
                return None;
            },
        }
        i = i + 1;
    }
    match read_group(ps[i].as_slice()) {
        Some(v) => {
            g.push(v);
            proof {
                assert forall|j: int| 0 <= j < sp.len() implies #[trigger] group_of(sp[j]) is Some by {
                    if j < i {
                        assert(group_of(sp[j]) == Some(g@[j]));
                    }
                }
                assert(g@ =~= Seq::new(sp.len(), |j: int| group_of(sp[j])->0));
            }
            Some(g)
        },
        None => {
            if !v4_last {
                return None;
            }
            match parse_ipv4(ps[i].as_slice()) {
                Some(o) => {
                    proof {
                        let front = sp.drop_last();
                        assert forall|j: int| 0 <= j < front.len() implies #[trigger] group_of(front[j]) is Some by {
                            assert(front[j] == sp[j]);
                        }
                        assert(g@ =~= Seq::new(front.len(), |j: int| group_of(front[j])->0));
                    }
                    let a: u16 = (o[0] as u16) * 256 + (o[1] as u16);
                    let b: u16 = (o[2] as u16) * 256 + (o[3] as u16);
                    let ghost before = g@;
                    g.push(a);
                    g.push(b);
                    proof {
                        assert(g@ =~= before + v4_groups(o@));
                    }
                    Some(g)
                },
                None => None,
            }
        },
    }
}

fn fill_zeros(h: Vec<u16>, tl: &Vec<u16>) -> (r: Vec<u16>)
    requires
        h@.len() + tl@.len() <= 7,
    ensures
        r@ == h@ + Seq::new((8 - h@.len() - tl@.len()) as nat, |i: int| 0u16) + tl@,
{
    let zeros: usize = 8 - h.len() - tl.len();
    let ghost h0 = h@;
    let mut g = h;
    let mut j: usize = 0;
    assert(g@ =~= h0 + Seq::new(0, |i: int| 0u16));
    while j < zeros
        invariant
            j <= zeros,
            g@ == h0 + Seq::new(j as nat, |i: int| 0u16),
        decreases zeros - j,
    {
        g.push(0);
        j = j + 1;
        assert(g@ =~= h0 + Seq::new(j as nat, |i: int| 0u16));
    }
    let ghost front = g@;
    let mut m: usize = 0;
    assert(g@ =~= front + tl@.subrange(0, 0));
    while m < tl.len()
        invariant
            m <= tl@.len(),
            g@ == front + tl@.subrange(0, m as int),
        decreases tl@.len() - m,
    {
        g.push(tl[m]);
        m = m + 1;
        assert(g@ =~= front + tl@.subrange(0, m as int));
    }
    assert(tl@.subrange(0, tl@.len() as int) =~= tl@);
    g
}

fn read_ipv6_groups(t: &[char]) -> (r: Option<Vec<u16>>)
    ensures
        match ipv6_of(t@) {
            Some(g) => r matches Some(v) && v@ == g,
            None => r is None,
        },
{
    let k = find_double_colon(t);
    proof {
        lemma_double_colon_at(t@);
    }
    if k < t.len() {
        let head = slice_of(t, 0, k);
        let tail = slice_of(t, k + 2, t.len());
        let h = match read_side(head.as_slice(), false) {
            Some(v) => v,
            None => {
                return None;
            },
        };
        let tl = match read_side(tail.as_slice(), true) {
            Some(v) => v,
            None => {
                return None;
            },
        };
        if h.len() > 7 || tl.len() > 7 - h.len() {
            return None;
        }
        Some(fill_zeros(h, &tl))
    } else {
        assert(t@.subrange(0, t@.len() as int) =~= t@);
        let g = match read_side(t, true) {
            Some(v) => v,
            None => {
                return None;
            },
        };
        if g.len() != 8 {
            return None;
        }
        Some(g)
    }
}

/// The IPv6 address that the text `t` writes, if any (see [ipv6_of]).
pub fn parse_ipv6(t: &[char]) -> (r: Option<[u16; 8]>)
    ensures
        match ipv6_of(t@) {
            Some(g) => r matches Some(a) && a@ == g,
            None => r is None,
        },
{
    let g = match read_ipv6_groups(t) {
        Some(v) => v,
        None => {
            return None;
        },
    };
    proof {
        let k = double_colon_at(t@);
        if k < t@.len() {
            let h = side_groups(t@.subrange(0, k as int), false)->0;
            let tl = side_groups(t@.subrange(k as int + 2, t@.len() as int), true)->0;
            assert(g@.len() == h.len() + (8 - h.len() - tl.len()) + tl.len());
        }
        assert(g@.len() == 8);
    }
    let a: [u16; 8] = [g[0], g[1], g[2], g[3], g[4], g[5], g[6], g[7]];
    assert(a@ =~= g@);
    Some(a)
}

/// The IP address that the text `t` writes, if any: an IPv4 address in
/// dotted decimal, or else an IPv6 address (see [ip_written]).
pub fn parse_ip(t: &[char]) -> (r: Option<IpAddr>)
    ensures
        r is Some == is_ip_text(t@),
        r matches Some(ip) ==> ip_written(t@, ip),
{
    match parse_ipv4(t) {
        Some(o) => Some(IpAddr::V4(o)),
        None => match parse_ipv6(t) {
            Some(g) => Some(IpAddr::V6(g)),
            None => None,
        },
    }
}

proof fn lemma_octet_text_reads(n: u8)
    ensures
        octet_of(decimal_text(n as nat)) == Some(n),
        is_decimal(decimal_text(n as nat)),
{
    lemma_decimal_text_reads(n as nat);
}

proof fn lemma_ipv4_text_pieces(o: Seq<u8>)
    requires
        o.len() == 4,
    ensures
        pieces(ipv4_text(o), '.') == seq![
            decimal_text(o[0] as nat),
            decimal_text(o[1] as nat),
            decimal_text(o[2] as nat),
            decimal_text(o[3] as nat),
        ],
        forall|i: int| 0 <= i < ipv4_text(o).len() ==> is_digit(#[trigger] ipv4_text(o)[i]) || ipv4_text(o)[i] == '.',
        ipv4_text(o).len() >= 7,
{
    let d0 = decimal_text(o[0] as nat);
    let d1 = decimal_text(o[1] as nat);
    let d2 = decimal_text(o[2] as nat);
    let d3 = decimal_text(o[3] as nat);
    lemma_octet_text_reads(o[0]);
    lemma_octet_text_reads(o[1]);
    lemma_octet_text_reads(o[2]);
    lemma_octet_text_reads(o[3]);
    assert forall|i: int| 0 <= i < d0.len() implies d0[i] != '.' by {
        assert(is_digit(d0[i]));
    }
    assert forall|i: int| 0 <= i < d1.len() implies d1[i] != '.' by {
        assert(is_digit(d1[i]));
    }
    assert forall|i: int| 0 <= i < d2.len() implies d2[i] != '.' by {
        assert(is_digit(d2[i]));
    }
    assert forall|i: int| 0 <= i < d3.len() implies d3[i] != '.' by {
        assert(is_digit(d3[i]));
    }
    lemma_pieces_whole(d0, '.');
    lemma_pieces_back(d0, '.', d1);
    lemma_pieces_back(d0 + seq!['.'] + d1, '.', d2);
    lemma_pieces_back(d0 + seq!['.'] + d1 + seq!['.'] + d2, '.', d3);
    let t = ipv4_text(o);
    assert forall|i: int| 0 <= i < t.len() implies is_digit(#[trigger] t[i]) || t[i] == '.' by {
        let a = d0.len() as int;
        let b = a + 1 + d1.len();
        let c = b + 1 + d2.len();
        if i < a {
            assert(t[i] == d0[i]);
        } else if a < i < b {
            assert(t[i] == d1[i - a - 1]);
        } else if b < i < c {
            assert(t[i] == d2[i - b - 1]);
        } else if c < i {
            assert(t[i] == d3[i - c - 1]);
        }
    }
}

/// Dotted decimal text reads back as its address.
proof fn lemma_ipv4_text_reads(o: Seq<u8>)
    requires
        o.len() == 4,
    ensures
        ipv4_of(ipv4_text(o)) == Some(o),
{
    lemma_ipv4_text_pieces(o);
    lemma_octet_text_reads(o[0]);
    lemma_octet_text_reads(o[1]);
    lemma_octet_text_reads(o[2]);
    lemma_octet_text_reads(o[3]);
    assert(seq![o[0], o[1], o[2], o[3]] =~= o);
}

proof fn lemma_hex_text_reads(n: nat)
    ensures
        hex_text(n).len() >= 1,
        forall|i: int| 0 <= i < hex_text(n).len() ==> is_hex_digit(#[trigger] hex_text(n)[i]),
        hex_digits_value(hex_text(n)) == n,
        n < 65536 ==> group_of(hex_text(n)) == Some(n as u16),
        n < 16 ==> hex_text(n).len() == 1,
        n < 256 ==> hex_text(n).len() <= 2,
        n < 4096 ==> hex_text(n).len() <= 3,
        n < 65536 ==> hex_text(n).len() <= 4,
    decreases n,
{
    let d = n % 16;
    let c = lower_hex_char(d);
    if d < 10 {
        assert(c as nat == 48 + d);
    } else {
        assert(c as nat == 87 + d);
    }
    assert(is_hex_digit(c));
    assert(hex_digit_value(c) == d);
    assert(hex_digits_value(Seq::<char>::empty()) == 0);
    if n < 16 {
        assert(hex_text(n).drop_last() =~= Seq::<char>::empty());
    } else {
        lemma_hex_text_reads(n / 16);
        let t = hex_text(n);
        let front = hex_text(n / 16);
        assert(t.drop_last() =~= front);
        assert(t.last() == c);
        assert forall|i: int| 0 <= i < t.len() implies is_hex_digit(#[trigger] t[i]) by {
            if i < front.len() {
                assert(t[i] == front[i]);
            }
        }
    }
}

/// Whether `t` holds no two colons in a row.
spec fn no_double_colon(t: Seq<char>) -> bool {
    forall|i: int| 0 <= i < t.len() - 1 ==> !(#[trigger] t[i] == ':' && t[i + 1] == ':')
}

proof fn lemma_double_colon_none(t: Seq<char>)
    requires
        no_double_colon(t),
    ensures
        double_colon_at(t) == t.len(),
    decreases t.len(),
{
    if t.len() >= 2 {
        assert(!(t[0] == ':' && t[1] == ':'));
        let r = t.drop_first();
        assert forall|i: int| 0 <= i < r.len() - 1 implies !(#[trigger] r[i] == ':' && r[i + 1] == ':') by {
            assert(r[i] == t[i + 1] && r[i + 1] == t[i + 2]);
        }
        lemma_double_colon_none(r);
    }
}

proof fn lemma_double_colon_first(t: Seq<char>, k: int)
    requires
        0 <= k,
        k + 1 < t.len(),
        t[k] == ':' && t[k + 1] == ':',
        forall|i: int| 0 <= i < k ==> !(#[trigger] t[i] == ':' && t[i + 1] == ':'),
    ensures
        double_colon_at(t) == k,
    decreases k,
{
    if k > 0 {
        assert(!(t[0] == ':' && t[1] == ':'));
        let r = t.drop_first();
        assert forall|i: int| 0 <= i < k - 1 implies !(#[trigger] r[i] == ':' && r[i + 1] == ':') by {
            assert(r[i] == t[i + 1] && r[i + 1] == t[i + 2]);
        }
        lemma_double_colon_first(r, k - 1);
    }
}

proof fn lemma_groups_text(g: Seq<u16>)
    requires
        g.len() >= 1,
    ensures
        groups_text(g).len() >= 1,
        groups_text(g)[0] != ':',
        groups_text(g).last() != ':',
        no_double_colon(groups_text(g)),
        forall|i: int| 0 <= i < groups_text(g).len() ==> #[trigger] groups_text(g)[i] != '.',
        pieces(groups_text(g), ':') == Seq::new(g.len(), |i: int| hex_text(g[i] as nat)),
    decreases g.len(),
{
    let t = groups_text(g);
    let h = hex_text(g.last() as nat);
    lemma_hex_text_reads(g.last() as nat);
    assert forall|i: int| 0 <= i < h.len() implies h[i] != ':' by {
        assert(is_hex_digit(h[i]));
    }
    if g.len() == 1 {
        assert(t == hex_text(g[0] as nat));
        lemma_pieces_whole(t, ':');
        assert(Seq::new(g.len(), |i: int| hex_text(g[i] as nat)) =~= seq![t]);
        assert forall|i: int| 0 <= i < t.len() implies #[trigger] t[i] != '.' by {
            assert(is_hex_digit(t[i]));
        }
    } else {
        let f = groups_text(g.drop_last());
        lemma_groups_text(g.drop_last());
        assert(t == f + seq![':'] + h);
        lemma_pieces_back(f, ':', h);
        assert(Seq::new(g.len(), |i: int| hex_text(g[i] as nat)) =~= Seq::new(
            g.drop_last().len(),
            |i: int| hex_text(g.drop_last()[i] as nat),
        ) + seq![h]);
        let n = f.len() as int;
        assert(t[0] == f[0]);
        assert(t.last() == h.last());
        assert(is_hex_digit(h.last()));
        assert(is_hex_digit(h[0]));
        assert forall|i: int| 0 <= i < t.len() - 1 implies !(#[trigger] t[i] == ':' && t[i + 1] == ':') by {
            if i < n - 1 {
                assert(t[i] == f[i] && t[i + 1] == f[i + 1]);
            } else if i == n - 1 {
                assert(t[i] == f.last());
            } else if i == n {
                assert(t[i + 1] == h[0]);
            } else {
                assert(t[i] == h[i - n - 1]);
                assert(is_hex_digit(h[i - n - 1]));
            }
        }
        assert forall|i: int| 0 <= i < t.len() implies #[trigger] t[i] != '.' by {
            if i < n {
                assert(t[i] == f[i]);
            } else if i > n {
                assert(t[i] == h[i - n - 1]);
                assert(is_hex_digit(h[i - n - 1]));
            }
        }
    }
}

proof fn lemma_hex_groups_read(g: Seq<u16>)
    requires
        g.len() >= 1,
    ensures
        side_groups(groups_text(g), true) == Some(g),
        side_groups(groups_text(g), false) == Some(g),
{
    lemma_groups_text(g);
    let ps = pieces(groups_text(g), ':');
    assert forall|i: int| 0 <= i < ps.len() implies #[trigger] group_of(ps[i]) == Some(g[i]) by {
        lemma_hex_text_reads(g[i] as nat);
    }
    assert(hex_groups_of(ps) == Some(Seq::new(ps.len(), |i: int| group_of(ps[i])->0)));
    assert(Seq::new(ps.len(), |i: int| group_of(ps[i])->0) =~= g);
}

/// A text with no dot in it writes no IPv4 address.
proof fn lemma_no_dot_not_ipv4(t: Seq<char>)
    requires
        forall|i: int| 0 <= i < t.len() ==> #[trigger] t[i] != '.',
    ensures
        ipv4_of(t) is None,
{
    lemma_pieces_whole(t, '.');
}

proof fn lemma_mapped_text_reads(g: Seq<u16>)
    requires
        g.len() == 8,
        is_ipv4_mapped(g),
    ensures
        ipv6_of(ipv6_text(g)) == Some(g),
        ipv4_of(ipv6_text(g)) is None,
{
    let t = ipv6_text(g);
    let o = seq![(g[6] / 256) as u8, (g[6] % 256) as u8, (g[7] / 256) as u8, (g[7] % 256) as u8];
    let v4 = ipv4_text(o);
    let ffff = seq!['f', 'f', 'f', 'f'];
    lemma_ipv4_text_reads(o);
    lemma_ipv4_text_pieces(o);
    assert(t =~= seq![':', ':'] + (ffff + seq![':'] + v4));
    lemma_double_colon_first(t, 0);
    let tail = t.subrange(2, t.len() as int);
    assert(tail =~= ffff + seq![':'] + v4);
    assert(t.subrange(0, 0) =~= Seq::<char>::empty());
    assert forall|i: int| 0 <= i < v4.len() implies v4[i] != ':' by {
        assert(is_digit(v4[i]) || v4[i] == '.');
    }
    lemma_pieces_front(ffff, ':', v4);
    lemma_pieces_whole(v4, ':');
    let ps = pieces(tail, ':');
    assert(ps =~= seq![ffff, v4]);
    assert(group_of(ps[1]) is None);
    assert(hex_groups_of(ps) is None);
    assert(group_of(ffff) == Some(0xffffu16)) by {
        reveal_with_fuel(hex_digits_value, 5);
    }
    assert(ps.drop_last() =~= seq![ffff]);
    assert(hex_groups_of(seq![ffff]) == Some(seq![0xffffu16])) by {
        assert(Seq::new(1, |i: int| group_of(seq![ffff][i])->0) =~= seq![0xffffu16]);
    }
    assert(v4_groups(o) =~= seq![g[6], g[7]]);
    assert(side_groups(tail, true) == Some(seq![0xffffu16] + seq![g[6], g[7]]));
    assert(Seq::<u16>::empty() + Seq::new(5, |i: int| 0u16) + (seq![0xffffu16] + seq![g[6], g[7]]) =~= g);
    // The text begins with a colon, so its first piece between dots is no octet.
    lemma_index_of_finds(t, '.');
    let ds = pieces(t, '.');
    assert(ds[0][0] == ':');
    assert(octet_of(ds[0]) is None);
}

proof fn lemma_compressed_text_reads(g: Seq<u16>, s: int, l: int)
    requires
        g.len() == 8,
        zero_run(g, s, l),
    ensures
        ({
            let t = groups_text(g.subrange(0, s)) + seq![':', ':'] + groups_text(g.subrange(s + l, 8));
            &&& ipv6_of(t) == Some(g)
            &&& ipv4_of(t) is None
        }),
{
    let a = groups_text(g.subrange(0, s));
    let b = groups_text(g.subrange(s + l, 8));
    let t = a + seq![':', ':'] + b;
    if s > 0 {
        lemma_groups_text(g.subrange(0, s));
        lemma_hex_groups_read(g.subrange(0, s));
    } else {
        assert(g.subrange(0, s).len() == 0);
        assert(a.len() == 0);
    }
    if s + l < 8 {
        lemma_groups_text(g.subrange(s + l, 8));
        lemma_hex_groups_read(g.subrange(s + l, 8));
    } else {
        assert(g.subrange(s + l, 8).len() == 0);
        assert(b.len() == 0);
    }
    let k = a.len() as int;
    assert forall|i: int| 0 <= i < k implies !(#[trigger] t[i] == ':' && t[i + 1] == ':') by {
        assert(t[i] == a[i]);
        if i < k - 1 {
            assert(t[i + 1] == a[i + 1]);
        }
    }
    lemma_double_colon_first(t, k);
    assert(t.subrange(0, k) =~= a);
    assert(t.subrange(k + 2, t.len() as int) =~= b);
    assert(g.subrange(0, s) + Seq::new(l as nat, |i: int| 0u16) + g.subrange(s + l, 8) =~= g);
    assert forall|i: int| 0 <= i < t.len() implies #[trigger] t[i] != '.' by {
        if i < k {
            assert(t[i] == a[i]);
        } else if i >= k + 2 {
            assert(t[i] == b[i - k - 2]);
        }
    }
    lemma_no_dot_not_ipv4(t);
}

/// IPv6 text, in the form that [push_ip_text] writes, reads back as its
/// groups, and writes no IPv4 address.
proof fn lemma_ipv6_text_reads(g: Seq<u16>)
    requires
        g.len() == 8,
    ensures
        ipv6_of(ipv6_text(g)) == Some(g),
        ipv4_of(ipv6_text(g)) is None,
{
    if is_ipv4_mapped(g) {
        lemma_mapped_text_reads(g);
    } else if exists|s: int, l: int| first_longest_zero_run(g, s, l) && l >= 2 {
        let (s, l) = choose|s: int, l: int| first_longest_zero_run(g, s, l) && l >= 2;
        lemma_compressed_text_reads(g, s, l);
    } else {
        let t = groups_text(g);
        lemma_groups_text(g);
        lemma_hex_groups_read(g);
        lemma_double_colon_none(t);
        lemma_no_dot_not_ipv4(t);
    }
}

/// The text of an address reads back as that address: [parse_ip] gives
/// back every address whose text [push_ip_text] writes.
pub proof fn lemma_ip_text_read_back(ip: IpAddr)
    ensures
        is_ip_text(ip_text(ip)),
        ip_written(ip_text(ip), ip),
{
    match ip {
        IpAddr::V4(o) => {
            lemma_ipv4_text_reads(o@);
        },
        IpAddr::V6(g) => {
            lemma_ipv6_text_reads(g@);
        },
    }
}

/// An IPv4 socket address.
#[derive(Debug, Clone, Copy, PartialEq, Eq)]
pub struct SocketAddrV4 {
    pub ip: [u8; 4],
    pub port: u16,
}

/// An IPv6 socket address.
#[derive(Debug, Clone, Copy, PartialEq, Eq)]
pub struct SocketAddrV6 {
    pub ip: [u16; 8],
    pub port: u16,
    pub flowinfo: u32,
    pub scope_id: u32,
}

/// An IPv4 or IPv6 socket address.
#[derive(Debug, Clone, Copy, PartialEq, Eq)]
pub enum SocketAddr {
    V4(SocketAddrV4),
    V6(SocketAddrV6),
}

impl SocketAddrV4 {
    pub fn new(ip: [u8; 4], port: u16) -> (r: Self)
        ensures
            r.ip == ip,
            r.port == port,
    {
        SocketAddrV4 { ip, port }
    }
}

impl SocketAddr {
    /// The port of the address.
    pub open spec fn spec_port(self) -> u16 {
        match self {
            SocketAddr::V4(a) => a.port,
            SocketAddr::V6(a) => a.port,
        }
    }

    /// The address with its port replaced by `port`.
    pub open spec fn with_port(self, port: u16) -> SocketAddr {
        match self {
            SocketAddr::V4(a) => SocketAddr::V4(SocketAddrV4 { port, ..a }),
            SocketAddr::V6(a) => SocketAddr::V6(SocketAddrV6 { port, ..a }),
        }
    }

    /// The unspecified IPv4 address, port 0.
    pub open spec fn spec_unspecified() -> SocketAddr {
        SocketAddr::V4(SocketAddrV4 { ip: [0u8, 0u8, 0u8, 0u8], port: 0 })
    }

    /// The unspecified IPv4 address, port 0.
    pub fn unspecified() -> (r: SocketAddr)
        ensures
            r == Self::spec_unspecified(),
    {
        SocketAddr::V4(SocketAddrV4 { ip: [0u8, 0u8, 0u8, 0u8], port: 0 })
    }

    pub fn port(&self) -> (r: u16)
        ensures
            r == self.spec_port(),
    {
        match self {
            SocketAddr::V4(a) => a.port,
            SocketAddr::V6(a) => a.port,
        }
    }

    pub fn set_port(&mut self, port: u16)
        ensures
            *final(self) == old(self).with_port(port),
    {
        match self {
            SocketAddr::V4(a) => {
                a.port = port;
            },
            SocketAddr::V6(a) => {
                a.port = port;
            },
        }
    }
}

} // verus!
