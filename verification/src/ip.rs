use vstd::prelude::*;

use crate::dns::{chars_of, slice_chars, IpLiteral};
use crate::engine::{trim_brackets, trim_brackets_chars};

verus! {

/// The value of a decimal digit.
pub open spec fn dec_digit(c: char) -> Option<nat> {
    if '0' as u32 <= c as u32 && c as u32 <= '9' as u32 {
        Some((c as u32 - '0' as u32) as nat)
    } else {
        None
    }
}

/// The value of a hexadecimal digit, in either case.
pub open spec fn hex_digit(c: char) -> Option<nat> {
    if '0' as u32 <= c as u32 && c as u32 <= '9' as u32 {
        Some((c as u32 - '0' as u32) as nat)
    } else if 'a' as u32 <= c as u32 && c as u32 <= 'f' as u32 {
        Some((c as u32 - 'a' as u32 + 10) as nat)
    } else if 'A' as u32 <= c as u32 && c as u32 <= 'F' as u32 {
        Some((c as u32 - 'A' as u32 + 10) as nat)
    } else {
        None
    }
}

/// The number that decimal digits spell, most significant first.
pub open spec fn dec_value(t: Seq<char>) -> nat
    decreases t.len(),
{
    if t.len() == 0 {
        0
    } else {
        dec_value(t.drop_last()) * 10 + match dec_digit(t.last()) {
            Some(d) => d,
            None => 0,
        }
    }
}

/// The number that hexadecimal digits spell, most significant first.
pub open spec fn hex_value(t: Seq<char>) -> nat
    decreases t.len(),
{
    if t.len() == 0 {
        0
    } else {
        hex_value(t.drop_last()) * 16 + match hex_digit(t.last()) {
            Some(d) => d,
            None => 0,
        }
    }
}

/// One part of an IPv4 address: one to three decimal digits without a
/// leading zero (but `0` itself), at most 255.
pub open spec fn octet_spec(t: Seq<char>) -> Option<u8> {
    if 1 <= t.len() <= 3 && (forall|i: int| 0 <= i < t.len() ==> (#[trigger] dec_digit(t[i])) is Some) && (t.len()
        == 1 || t[0] != '0') && dec_value(t) <= 255 {
        Some(dec_value(t) as u8)
    } else {
        None
    }
}

/// One group of an IPv6 address: one to four hexadecimal digits.
pub open spec fn group_spec(t: Seq<char>) -> Option<u16> {
    if 1 <= t.len() <= 4 && forall|i: int| 0 <= i < t.len() ==> (#[trigger] hex_digit(t[i])) is Some {
        Some(hex_value(t) as u16)
    } else {
        None
    }
}

/// The fields of `cur + s` separated by `c`, where `cur` is the start of
/// the first field.
pub open spec fn split_from(cur: Seq<char>, s: Seq<char>, c: char) -> Seq<Seq<char>>
    decreases s.len(),
{
    if s.len() == 0 {
        seq![cur]
    } else if s[0] == c {
        seq![cur] + split_from(Seq::empty(), s.drop_first(), c)
    } else {
        split_from(cur.push(s[0]), s.drop_first(), c)
    }
}

/// The fields of `s` separated by `c` (one field when `c` does not occur).
pub open spec fn split_on(s: Seq<char>, c: char) -> Seq<Seq<char>> {
    split_from(Seq::empty(), s, c)
}

/// An IPv4 address in dotted-decimal form: four parts separated by dots.
pub open spec fn ipv4_spec(s: Seq<char>) -> Option<(u8, u8, u8, u8)> {
    let f = split_on(s, '.');
    if f.len() == 4 && octet_spec(f[0]) is Some && octet_spec(f[1]) is Some && octet_spec(f[2]) is Some
        && octet_spec(f[3]) is Some {
        Some((octet_spec(f[0]).unwrap(), octet_spec(f[1]).unwrap(), octet_spec(f[2]).unwrap(), octet_spec(f[3]).unwrap()))
    } else {
        None
    }
}

/// The 16-bit groups that colon-separated fields of an IPv6 address stand
/// for: each field one hexadecimal group, except that the last one may be
/// an IPv4 address (two groups) when `allow_v4`.
pub open spec fn groups_of(fields: Seq<Seq<char>>, allow_v4: bool) -> Option<Seq<u16>>
    decreases fields.len(),
{
    if fields.len() == 0 {
        Some(Seq::empty())
    } else if fields.len() == 1 && allow_v4 && ipv4_spec(fields[0]) is Some {
        let (a, b, c, d) = ipv4_spec(fields[0]).unwrap();
        Some(seq![(a as nat * 256 + b as nat) as u16, (c as nat * 256 + d as nat) as u16])
    } else {
        match group_spec(fields[0]) {
            None => None,
            Some(g) => match groups_of(fields.drop_first(), allow_v4) {
                None => None,
                Some(rest) => Some(seq![g] + rest),
            },
        }
    }
}

/// The first position, at `from` or later, where `::` occurs in `s`.
pub open spec fn double_colon_from(s: Seq<char>, from: int) -> Option<int>
    decreases s.len() - from,
{
    if from < 0 || from + 1 >= s.len() {
        None
    } else if s[from] == ':' && s[from + 1] == ':' {
        Some(from)
    } else {
        double_colon_from(s, from + 1)
    }
}

/// The groups of one side of `::`: none for empty text.
pub open spec fn side_groups(s: Seq<char>, allow_v4: bool) -> Option<Seq<u16>> {
    if s.len() == 0 {
        Some(Seq::empty())
    } else {
        groups_of(split_on(s, ':'), allow_v4)
    }
}

/// An IPv6 address in text form: eight groups, or the groups before and
/// after the first `::`, which stands for at least one zero group; an
/// IPv4 address may end the text, standing for the last two groups.
pub open spec fn ipv6_spec(s: Seq<char>) -> Option<Seq<u16>> {
    match double_colon_from(s, 0) {
        None => match groups_of(split_on(s, ':'), true) {
            Some(g) => if g.len() == 8 {
                Some(g)
            } else {
                None
            },
            None => None,
        },
        Some(i) => match (side_groups(s.take(i), false), side_groups(s.skip(i + 2), true)) {
            (Some(h), Some(t)) => if h.len() + t.len() <= 7 {
                Some(h + Seq::new((8 - h.len() - t.len()) as nat, |k: int| 0u16) + t)
            } else {
                None
            },
            _ => None,
        },
    }
}

/// The IP literal that a server address names, square brackets around it
/// ignored: a dotted-decimal IPv4 address, or else an IPv6 address; `None`
/// when it is neither (a host name).
pub open spec fn ip_literal_spec(address: Seq<char>) -> Option<IpLiteral> {
    let t = trim_brackets(address);
    match ipv4_spec(t) {
        Some((a, b, c, d)) => Some(IpLiteral::V4(a, b, c, d)),
        None => match ipv6_spec(t) {
            Some(g) => Some(IpLiteral::V6(g[0], g[1], g[2], g[3], g[4], g[5], g[6], g[7])),
            None => None,
        },
    }
}

/// The value of a decimal digit.
fn dec_digit_of(c: char) -> (r: Option<u32>)
    ensures
        match dec_digit(c) {
            Some(d) => r == Some(d as u32),
            None => r is None,
        },
{
    let v = c as u32;
    if 48 <= v && v <= 57 {
        Some(v - 48)
    } else {
        None
    }
}

/// The value of a hexadecimal digit.
fn hex_digit_of(c: char) -> (r: Option<u32>)
    ensures
        match hex_digit(c) {
            Some(d) => r == Some(d as u32),
            None => r is None,
        },
{
    let v = c as u32;
    if 48 <= v && v <= 57 {
        Some(v - 48)
    } else if 97 <= v && v <= 102 {
        Some(v - 87)
    } else if 65 <= v && v <= 70 {
        Some(v - 55)
    } else {
        None
    }
}

/// Reads one part of an IPv4 address.
pub fn octet(t: &Vec<char>) -> (r: Option<u8>)
    ensures
        r == octet_spec(t@),
{
    let n = t.len();
    if n < 1 || n > 3 {
        return None;
    }
    let mut acc: u32 = 0;
    let mut i: usize = 0;
    while i < n
        invariant
            n == t@.len(),
            1 <= n <= 3,
            0 <= i <= n,
            forall|j: int| 0 <= j < i ==> (#[trigger] dec_digit(t@[j])) is Some,
            acc == dec_value(t@.take(i as int)),
            acc < if i == 0 { 1int } else if i == 1 { 10int } else if i == 2 { 100int } else { 1000int },
        decreases n - i,
    {
        match dec_digit_of(t[i]) {
            None => {
                assert(!(forall|j: int| 0 <= j < t@.len() ==> (#[trigger] dec_digit(t@[j])) is Some));
                return None;
            },
            Some(d) => {
                assert(t@.take(i + 1).drop_last() =~= t@.take(i as int));
                acc = acc * 10 + d;
            },
        }
        i = i + 1;
    }
    assert(t@.take(n as int) =~= t@);
    if n > 1 && t[0] == '0' {
        return None;
    }
    if acc > 255 {
        return None;
    }
    Some(acc as u8)
}

/// Reads one group of an IPv6 address.
pub fn group(t: &Vec<char>) -> (r: Option<u16>)
    ensures
        r == group_spec(t@),
{
    let n = t.len();
    if n < 1 || n > 4 {
        return None;
    }
    let mut acc: u32 = 0;
    let mut i: usize = 0;
    while i < n
        invariant
            n == t@.len(),
            1 <= n <= 4,
            0 <= i <= n,
            forall|j: int| 0 <= j < i ==> (#[trigger] hex_digit(t@[j])) is Some,
            acc == hex_value(t@.take(i as int)),
            acc < if i == 0 { 1int } else if i == 1 { 16int } else if i == 2 { 256int } else if i == 3 { 4096int } else { 65536int },
        decreases n - i,
    {
        match hex_digit_of(t[i]) {
            None => {
                assert(!(forall|j: int| 0 <= j < t@.len() ==> (#[trigger] hex_digit(t@[j])) is Some));
                return None;
            },
            Some(d) => {
                assert(t@.take(i + 1).drop_last() =~= t@.take(i as int));
                acc = acc * 16 + d;
            },
        }
        i = i + 1;
    }
    assert(t@.take(n as int) =~= t@);
    Some(acc as u16)
}

/// Splits characters into the fields between the separator `c`.
pub fn split_chars(s: &Vec<char>, c: char) -> (r: Vec<Vec<char>>)
    ensures
        r@.len() == split_on(s@, c).len(),
        forall|i: int| 0 <= i < r@.len() ==> #[trigger] r@[i]@ == split_on(s@, c)[i],
{
    let ghost total = split_on(s@, c);
    let mut done: Vec<Vec<char>> = Vec::new();
    let mut cur: Vec<char> = Vec::new();
    let n = s.len();
    let mut i: usize = 0;
    proof {
        assert(s@.skip(0) =~= s@);
    }
    while i < n
        invariant
            n == s@.len(),
            0 <= i <= n,
            total == split_on(s@, c),
            total == done@.map_values(|v: Vec<char>| v@) + split_from(cur@, s@.skip(i as int), c),
        decreases n - i,
    {
        let ch = s[i];
        let ghost rest = s@.skip(i as int);
        assert(rest[0] == ch);
        assert(rest.drop_first() =~= s@.skip(i + 1));
        if ch == c {
            let ghost before = done@.map_values(|v: Vec<char>| v@);
            let finished = cur;
            cur = Vec::new();
            done.push(finished);
            assert(done@.map_values(|v: Vec<char>| v@) =~= before + seq![finished@]);
            assert(cur@ =~= Seq::<char>::empty());
        } else {
            cur.push(ch);
        }
        i = i + 1;
    }
    let ghost before = done@.map_values(|v: Vec<char>| v@);
    assert(s@.skip(n as int) =~= Seq::<char>::empty());
    done.push(cur);
    assert(done@.map_values(|v: Vec<char>| v@) =~= total);
    done
}

/// Reads a dotted-decimal IPv4 address.
pub fn ipv4(t: &Vec<char>) -> (r: Option<(u8, u8, u8, u8)>)
    ensures
        r == ipv4_spec(t@),
{
    let f = split_chars(t, '.');
    if f.len() != 4 {
        return None;
    }
    let a = octet(&f[0]);
    let b = octet(&f[1]);
    let c = octet(&f[2]);
    let d = octet(&f[3]);
    match (a, b, c, d) {
        (Some(a), Some(b), Some(c), Some(d)) => Some((a, b, c, d)),
        _ => None,
    }
}

/// The groups that colon-separated fields stand for.
fn groups_of_fields(fields: &Vec<Vec<char>>, allow_v4: bool, Ghost(fs): Ghost<Seq<Seq<char>>>) -> (r: Option<Vec<u16>>)
    requires
        fields@.len() == fs.len(),
        forall|i: int| 0 <= i < fs.len() ==> #[trigger] fields@[i]@ == fs[i],
    ensures
        match groups_of(fs, allow_v4) {
            Some(g) => r matches Some(v) && v@ == g,
            None => r is None,
        },
{
    let n = fields.len();
    let mut acc: Vec<u16> = Vec::new();
    let mut i: usize = 0;
    proof {
        assert(fs.skip(0) =~= fs);
        assert(acc@ + Seq::<u16>::empty() =~= acc@);
    }
    while i < n
        invariant
            n == fs.len(),
            fields@.len() == fs.len(),
            forall|j: int| 0 <= j < fs.len() ==> #[trigger] fields@[j]@ == fs[j],
            0 <= i <= n,
            groups_of(fs, allow_v4) == match groups_of(fs.skip(i as int), allow_v4) {
                Some(g) => Some(acc@ + g),
                None => None,
            },
        decreases n - i,
    {
        let ghost rest = fs.skip(i as int);
        assert(rest[0] == fs[i as int]);
        assert(rest.drop_first() =~= fs.skip(i + 1));
        assert(fields@[i as int]@ == fs[i as int]);
        if i + 1 == n && allow_v4 {
            match ipv4(&fields[i]) {
                Some((a, b, c, d)) => {
                    let hi = (a as u16) * 256 + (b as u16);
                    let lo = (c as u16) * 256 + (d as u16);
                    let ghost before = acc@;
                    acc.push(hi);
                    acc.push(lo);
                    proof {
                        assert(rest.len() == 1);
                        let g = groups_of(rest, allow_v4).unwrap();
                        assert(g =~= seq![hi, lo]);
                        assert(acc@ =~= before + seq![hi, lo]);
                    }
                    return Some(acc);
                },
                None => {},
            }
        }
        match group(&fields[i]) {
            None => {
                return None;
            },
            Some(g) => {
                let ghost before = acc@;
                acc.push(g);
                proof {
                    match groups_of(fs.skip(i + 1), allow_v4) {
                        Some(rest_g) => {
                            assert(before + (seq![g] + rest_g) =~= acc@ + rest_g);
                        },
                        None => {},
                    }
                }
            },
        }
        i = i + 1;
    }
    proof {
        assert(fs.skip(n as int) =~= Seq::<Seq<char>>::empty());
        assert(acc@ + Seq::<u16>::empty() =~= acc@);
    }
    Some(acc)
}

/// The groups of one side of `::`.
fn side(s: &Vec<char>, allow_v4: bool) -> (r: Option<Vec<u16>>)
    ensures
        match side_groups(s@, allow_v4) {
            Some(g) => r matches Some(v) && v@ == g,
            None => r is None,
        },
{
    if s.len() == 0 {
        return Some(Vec::new());
    }
    let fields = split_chars(s, ':');
    groups_of_fields(&fields, allow_v4, Ghost(split_on(s@, ':')))
}

/// The first position of `::` in the characters.
fn first_double_colon(t: &Vec<char>) -> (r: Option<usize>)
    ensures
        r matches Some(i) ==> double_colon_from(t@, 0) == Some(i as int) && i + 2 <= t@.len(),
        r is None ==> double_colon_from(t@, 0) is None,
{
    let n = t.len();
    let mut i: usize = 0;
    while i < n && i + 1 < n
        invariant
            n == t@.len(),
            0 <= i <= n,
            double_colon_from(t@, 0) == double_colon_from(t@, i as int),
        decreases n - i,
    {
        if t[i] == ':' && t[i + 1] == ':' {
            return Some(i);
        }
        i = i + 1;
    }
    None
}

/// Reads an IPv6 address into its eight groups.
pub fn ipv6(t: &Vec<char>) -> (r: Option<Vec<u16>>)
    ensures
        match ipv6_spec(t@) {
            Some(g) => r matches Some(v) && v@ == g,
            None => r is None,
        },
{
    let n = t.len();
    let found = first_double_colon(t);
    if found.is_none() {
        let fields = split_chars(t, ':');
        let g = groups_of_fields(&fields, true, Ghost(split_on(t@, ':')));
        return match g {
            Some(v) => if v.len() == 8 { Some(v) } else { None },
            None => None,
        };
    }
    let i = found.unwrap();
    assert(double_colon_from(t@, 0) == Some(i as int));
    let head = slice_chars(t, 0, i);
    let tail = slice_chars(t, i + 2, n);
    assert(head@ =~= t@.take(i as int));
    assert(tail@ =~= t@.skip(i + 2));
    let h = side(&head, false);
    let tl = side(&tail, true);
    match (h, tl) {
        (Some(h), Some(tl)) => {
            if h.len() > 7 || tl.len() > 7 - h.len() {
                return None;
            }
            let zeros = 8 - h.len() - tl.len();
            let mut out: Vec<u16> = Vec::new();
            let mut k: usize = 0;
            while k < h.len()
                invariant
                    0 <= k <= h@.len(),
                    out@ == h@.take(k as int),
                decreases h@.len() - k,
            {
                out.push(h[k]);
                assert(h@.take(k as int).push(h@[k as int]) =~= h@.take(k + 1));
                k = k + 1;
            }
            assert(h@.take(h@.len() as int) =~= h@);
            let mut z: usize = 0;
            while z < zeros
                invariant
                    0 <= z <= zeros,
                    out@ == h@ + Seq::new(z as nat, |j: int| 0u16),
                decreases zeros - z,
            {
                out.push(0);
                assert(h@ + Seq::new(z as nat, |j: int| 0u16) + seq![0u16] =~= h@ + Seq::new((z + 1) as nat, |j: int| 0u16));
                z = z + 1;
            }
            let ghost mid = out@;
            let mut k: usize = 0;
            while k < tl.len()
                invariant
                    0 <= k <= tl@.len(),
                    out@ == mid + tl@.take(k as int),
                decreases tl@.len() - k,
            {
                out.push(tl[k]);
                assert(mid + tl@.take(k as int) + seq![tl@[k as int]] =~= mid + tl@.take(k + 1));
                k = k + 1;
            }
            assert(tl@.take(tl@.len() as int) =~= tl@);
            Some(out)
        },
        _ => None,
    }
}

/// Reads the IP literal that a server address names, square brackets
/// around it ignored; `None` for a host name.
pub fn ip_literal(address: &str) -> (r: Option<IpLiteral>)
    ensures
        r == ip_literal_spec(address@),
{
    let t = trim_brackets_chars(address);
    match ipv4(&t) {
        Some((a, b, c, d)) => Some(IpLiteral::V4(a, b, c, d)),
        None => match ipv6(&t) {
            Some(g) => Some(IpLiteral::V6(g[0], g[1], g[2], g[3], g[4], g[5], g[6], g[7])),
            None => None,
        },
    }
}

} // verus!
