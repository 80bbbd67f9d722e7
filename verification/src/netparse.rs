//! Parsing and formatting of the module's server-address strings.
//!
//! The module hands the hook a combined "host and port" string in either of
//! two legacy separator conventions: the host and the port divided by a
//! space or by a colon. The hook normalizes spaces to colons and parses the
//! result against this grammar:
//!
//! - `name` or `name:port` — a named or dotted-decimal host: letters,
//!   digits, `-` and `.`;
//! - `v6` — a bare colon-grouped literal: hex digits, `:` and `.`, with two
//!   or more colons;
//! - `[v6]` or `[v6]:port` — the same literal in brackets;
//!
//! where `port` is one to five decimal digits valued at most 65535. A
//! missing or zero port falls back to 6667. A null or empty input falls
//! back to a fixed default host. A host that is a dotted-decimal literal
//! is written in canonical form, each part without leading zeros; other
//! hosts are written as given. The parsed host is written into the
//! caller's fixed-size buffer, truncated to the buffer's length and never
//! past it.

use vstd::prelude::*;

verus! {

pub const SPACE: u8 = 0x20;

pub const COLON: u8 = 0x3A;

pub const DOT: u8 = 0x2E;

pub const LEFT_BRACKET: u8 = 0x5B;

pub const RIGHT_BRACKET: u8 = 0x5D;

/// The port used when the input names none (or names port zero).
pub const FALLBACK_PORT: u16 = 6667;

/// The host used when the module passes a null address string:
/// `dir.irc7.com`.
pub open spec fn default_host() -> Seq<u8> {
    seq![0x64u8, 0x69, 0x72, 0x2E, 0x69, 0x72, 0x63, 0x37, 0x2E, 0x63, 0x6F, 0x6D]
}

/// The input with every space turned into a colon.
pub open spec fn colonized(s: Seq<u8>) -> Seq<u8> {
    s.map_values(|b: u8| if b == SPACE { COLON } else { b })
}

/// Index of the first occurrence of `b`, or the length if there is none.
pub open spec fn find_byte(t: Seq<u8>, b: u8) -> int
    decreases t.len(),
{
    if t.len() == 0 {
        0
    } else if t[0] == b {
        0
    } else {
        1 + find_byte(t.drop_first(), b)
    }
}

/// `find_byte` returns the first occurrence: nothing before it matches, and
/// it lies on a match unless there is none.
pub proof fn lemma_find_byte(t: Seq<u8>, b: u8)
    ensures
        0 <= find_byte(t, b) <= t.len(),
        find_byte(t, b) < t.len() ==> t[find_byte(t, b)] == b,
        forall|j: int| 0 <= j < find_byte(t, b) ==> t[j] != b,
    decreases t.len(),
{
    if t.len() > 0 && t[0] != b {
        lemma_find_byte(t.drop_first(), b);
        assert forall|j: int| 0 <= j < find_byte(t, b) implies t[j] != b by {
            if j > 0 {
                assert(t.drop_first()[j - 1] == t[j]);
            }
        }
    }
}

pub open spec fn is_digit(b: u8) -> bool {
    0x30 <= b <= 0x39
}

pub open spec fn is_letter(b: u8) -> bool {
    (0x41 <= b <= 0x5A) || (0x61 <= b <= 0x7A)
}

pub open spec fn is_hex_digit(b: u8) -> bool {
    is_digit(b) || (0x41 <= b <= 0x46) || (0x61 <= b <= 0x66)
}

/// A byte allowed in a named or dotted-decimal host.
pub open spec fn is_name_byte(b: u8) -> bool {
    is_letter(b) || is_digit(b) || b == 0x2D || b == 0x2E
}

/// A byte allowed in a colon-grouped numeric literal.
pub open spec fn is_v6_byte(b: u8) -> bool {
    is_hex_digit(b) || b == COLON || b == 0x2E
}

/// A non-empty host of name bytes.
pub open spec fn valid_name(h: Seq<u8>) -> bool {
    h.len() > 0 && forall|i: int| 0 <= i < h.len() ==> is_name_byte(h[i])
}

/// A non-empty host of colon-grouped-literal bytes.
pub open spec fn valid_v6(h: Seq<u8>) -> bool {
    h.len() > 0 && forall|i: int| 0 <= i < h.len() ==> is_v6_byte(h[i])
}

/// The decimal value of a digit string.
pub open spec fn digits_value(d: Seq<u8>) -> int
    decreases d.len(),
{
    if d.len() == 0 {
        0
    } else {
        digits_value(d.drop_last()) * 10 + (d.last() - 0x30)
    }
}

/// A port literal: one to five decimal digits valued at most 65535.
pub open spec fn valid_port(d: Seq<u8>) -> bool {
    &&& 1 <= d.len() <= 5
    &&& forall|i: int| 0 <= i < d.len() ==> is_digit(d[i])
    &&& digits_value(d) <= 65535
}

/// A parsed address: the host text and the port, zero when none was given.
pub open spec fn parse_host_port(h: Seq<u8>, d: Seq<u8>) -> Option<(Seq<u8>, u16)> {
    if valid_name(h) && valid_port(d) {
        Some((h, digits_value(d) as u16))
    } else {
        None
    }
}

/// A bracketed literal with an optional `:port` after the closing bracket.
/// The brackets are not part of the parsed host.
pub open spec fn parse_bracketed(t: Seq<u8>) -> Option<(Seq<u8>, u16)> {
    let rb = find_byte(t, RIGHT_BRACKET);
    if rb == t.len() {
        None
    } else {
        let inside = t.subrange(1, rb);
        let rest = t.subrange(rb + 1, t.len() as int);
        if !valid_v6(inside) {
            None
        } else if rest.len() == 0 {
            Some((inside, 0))
        } else if rest[0] == COLON && valid_port(rest.drop_first()) {
            Some((inside, digits_value(rest.drop_first()) as u16))
        } else {
            None
        }
    }
}

/// Parses one normalized (already colonized) address string against the
/// grammar above.
pub open spec fn parse_spec(t: Seq<u8>) -> Option<(Seq<u8>, u16)> {
    if t.len() == 0 {
        None
    } else if t[0] == LEFT_BRACKET {
        parse_bracketed(t)
    } else {
        let p = find_byte(t, COLON);
        if p == t.len() {
            if valid_name(t) {
                Some((t, 0))
            } else {
                None
            }
        } else {
            let rest = t.subrange(p + 1, t.len() as int);
            if find_byte(rest, COLON) == rest.len() {
                parse_host_port(t.subrange(0, p), rest)
            } else if valid_v6(t) {
                Some((t, 0))
            } else {
                None
            }
        }
    }
}

/// A dotted-quad part: one to three decimal digits valued at most 255.
pub open spec fn quad_part_valid(d: Seq<u8>) -> bool {
    &&& 1 <= d.len() <= 3
    &&& forall|i: int| 0 <= i < d.len() ==> is_digit(d[i])
    &&& digits_value(d) <= 255
}

/// The four part values of a dotted-decimal host: exactly four valid parts
/// separated by three dots, or nothing for any other text.
pub open spec fn parse_quad(h: Seq<u8>) -> Option<(int, int, int, int)> {
    let i = find_byte(h, DOT);
    if i == h.len() {
        None
    } else {
        let r1 = h.skip(i + 1);
        let j = find_byte(r1, DOT);
        if j == r1.len() {
            None
        } else {
            let r2 = r1.skip(j + 1);
            let k = find_byte(r2, DOT);
            if k == r2.len() {
                None
            } else {
                let r3 = r2.skip(k + 1);
                if find_byte(r3, DOT) != r3.len() {
                    None
                } else if quad_part_valid(h.take(i)) && quad_part_valid(r1.take(j))
                    && quad_part_valid(r2.take(k)) && quad_part_valid(r3) {
                    Some(
                        (
                            digits_value(h.take(i)),
                            digits_value(r1.take(j)),
                            digits_value(r2.take(k)),
                            digits_value(r3),
                        ),
                    )
                } else {
                    None
                }
            }
        }
    }
}

/// The canonical decimal text of a part value: no leading zeros.
pub open spec fn dec_bytes(v: int) -> Seq<u8> {
    if v >= 100 {
        seq![(0x30 + v / 100) as u8, (0x30 + (v / 10) % 10) as u8, (0x30 + v % 10) as u8]
    } else if v >= 10 {
        seq![(0x30 + v / 10) as u8, (0x30 + v % 10) as u8]
    } else {
        seq![(0x30 + v) as u8]
    }
}

/// A host in canonical form: a dotted-decimal host is re-emitted with each
/// part's leading zeros removed; any other host — a name, or a
/// colon-grouped literal, whose inner structure the grammar does not
/// validate — is written as given.
pub open spec fn canonical_host(h: Seq<u8>) -> Seq<u8> {
    match parse_quad(h) {
        Some((a, b, c, d)) => dec_bytes(a) + seq![DOT] + dec_bytes(b) + seq![DOT] + dec_bytes(c)
            + seq![DOT] + dec_bytes(d),
        None => h,
    }
}

/// What the validation hook computes for one input: a null or empty input
/// falls back to the default host with no port; anything else is
/// normalized, parsed, and its host put in canonical form.
pub open spec fn validate_spec(input: Option<Seq<u8>>) -> Option<(Seq<u8>, u16)> {
    match input {
        None => Some((default_host(), 0)),
        Some(s) => if s.len() == 0 {
            Some((default_host(), 0))
        } else {
            match parse_spec(colonized(s)) {
                Some(hp) => Some((canonical_host(hp.0), hp.1)),
                None => None,
            }
        },
    }
}

/// The buffer after the host and a terminating zero are copied into it,
/// truncated to the buffer's length; bytes past the copy keep their old
/// value.
pub open spec fn written_out(buf: Seq<u8>, host: Seq<u8>) -> Seq<u8> {
    Seq::new(
        buf.len(),
        |i: int|
            if i < host.len() {
                host[i]
            } else if i == host.len() {
                0u8
            } else {
                buf[i]
            },
    )
}

/// The port reported for a parse result: the parsed port, or the fallback
/// when none (or zero) was given.
pub open spec fn reported_port(p: u16) -> i32 {
    if p == 0 {
        FALLBACK_PORT as i32
    } else {
        p as i32
    }
}

/// The view of the hook's input: the byte string, or nothing for a null
/// pointer.
pub open spec fn input_view(input: Option<&Vec<u8>>) -> Option<Seq<u8>> {
    match input {
        None => None,
        Some(v) => Some(v@),
    }
}

/// The default host as bytes.
fn default_host_bytes() -> (r: Vec<u8>)
    ensures
        r@ == default_host(),
{
    let host = vec![0x64u8, 0x69, 0x72, 0x2E, 0x69, 0x72, 0x63, 0x37, 0x2E, 0x63, 0x6F, 0x6D];
    proof {
        assert(host@ =~= default_host());
    }
    host
}

spec fn pow10(n: nat) -> int
    decreases n,
{
    if n == 0 {
        1
    } else {
        10 * pow10((n - 1) as nat)
    }
}

/// Finds the first occurrence of `b` at or after `start`, returning the
/// vector's length if there is none.
fn find_byte_at(v: &Vec<u8>, start: usize, b: u8) -> (p: usize)
    requires
        start <= v@.len(),
    ensures
        start <= p <= v@.len(),
        p - start == find_byte(v@.skip(start as int), b),
{
    let ghost t = v@.skip(start as int);
    let mut i: usize = start;
    while i < v.len()
        invariant
            start <= i <= v@.len(),
            t == v@.skip(start as int),
            forall|j: int| start <= j < i ==> v@[j] != b,
        decreases v@.len() - i,
    {
        if v[i] == b {
            proof {
                lemma_find_byte(t, b);
                assert(t[i - start] == b);
                assert(forall|j: int| 0 <= j < i - start ==> t[j] == v@[j + start] && t[j] != b);
            }
            return i;
        }
        i = i + 1;
    }
    proof {
        lemma_find_byte(t, b);
        assert(forall|j: int| 0 <= j < t.len() ==> t[j] == v@[j + start] && t[j] != b);
    }
    i
}

/// Copies `v[a..b]` out as its own vector.
fn copy_range(v: &Vec<u8>, a: usize, b: usize) -> (r: Vec<u8>)
    requires
        a <= b <= v@.len(),
    ensures
        r@ == v@.subrange(a as int, b as int),
{
    let mut r: Vec<u8> = Vec::new();
    let mut i: usize = a;
    while i < b
        invariant
            a <= i <= b <= v@.len(),
            r@.len() == i - a,
            forall|j: int| 0 <= j < r@.len() ==> r@[j] == v@[a + j],
        decreases b - i,
    {
        r.push(v[i]);
        i = i + 1;
    }
    proof {
        assert(r@ =~= v@.subrange(a as int, b as int));
    }
    r
}

/// Replaces every space with a colon.
fn colonize(v: &Vec<u8>) -> (r: Vec<u8>)
    ensures
        r@ == colonized(v@),
{
    let mut r: Vec<u8> = Vec::new();
    let mut i: usize = 0;
    while i < v.len()
        invariant
            i <= v@.len(),
            r@.len() == i,
            forall|j: int|
                0 <= j < i ==> r@[j] == (if v@[j] == SPACE {
                    COLON
                } else {
                    v@[j]
                }),
        decreases v@.len() - i,
    {
        let b = v[i];
        if b == SPACE {
            r.push(COLON);
        } else {
            r.push(b);
        }
        i = i + 1;
    }
    proof {
        assert(r@ =~= colonized(v@));
    }
    r
}

/// Checks that `v[a..b]` is a valid named host.
fn check_name_range(v: &Vec<u8>, a: usize, b: usize) -> (r: bool)
    requires
        a <= b <= v@.len(),
    ensures
        r == valid_name(v@.subrange(a as int, b as int)),
{
    let ghost h = v@.subrange(a as int, b as int);
    if a == b {
        return false;
    }
    let mut i: usize = a;
    while i < b
        invariant
            a <= i <= b <= v@.len(),
            h == v@.subrange(a as int, b as int),
            forall|j: int| a <= j < i ==> is_name_byte(v@[j]),
        decreases b - i,
    {
        let c = v[i];
        let ok = (0x41 <= c && c <= 0x5A) || (0x61 <= c && c <= 0x7A) || (0x30 <= c && c <= 0x39)
            || c == 0x2D || c == 0x2E;
        if !ok {
            proof {
                assert(h[i - a] == v@[i as int]);
            }
            return false;
        }
        i = i + 1;
    }
    proof {
        assert(forall|j: int| 0 <= j < h.len() ==> h[j] == v@[a + j] && is_name_byte(h[j]));
    }
    true
}

/// Checks that `v[a..b]` is a valid colon-grouped literal host.
fn check_v6_range(v: &Vec<u8>, a: usize, b: usize) -> (r: bool)
    requires
        a <= b <= v@.len(),
    ensures
        r == valid_v6(v@.subrange(a as int, b as int)),
{
    let ghost h = v@.subrange(a as int, b as int);
    if a == b {
        return false;
    }
    let mut i: usize = a;
    while i < b
        invariant
            a <= i <= b <= v@.len(),
            h == v@.subrange(a as int, b as int),
            forall|j: int| a <= j < i ==> is_v6_byte(v@[j]),
        decreases b - i,
    {
        let c = v[i];
        let ok = (0x30 <= c && c <= 0x39) || (0x41 <= c && c <= 0x46) || (0x61 <= c && c <= 0x66)
            || c == COLON || c == 0x2E;
        if !ok {
            proof {
                assert(h[i - a] == v@[i as int]);
            }
            return false;
        }
        i = i + 1;
    }
    proof {
        assert(forall|j: int| 0 <= j < h.len() ==> h[j] == v@[a + j] && is_v6_byte(h[j]));
    }
    true
}

/// Parses `v[start..]` as a port literal.
fn parse_port(v: &Vec<u8>, start: usize) -> (r: Option<u16>)
    requires
        start <= v@.len(),
    ensures
        r is Some <==> valid_port(v@.skip(start as int)),
        r matches Some(p) ==> p == digits_value(v@.skip(start as int)),
{
    let ghost d = v@.skip(start as int);
    let n = v.len() - start;
    if n < 1 || n > 5 {
        return None;
    }
    proof {
        assert(pow10(0) == 1);
        assert(pow10(1) == 10);
        assert(pow10(2) == 100);
        assert(pow10(3) == 1000);
        assert(pow10(4) == 10000);
        assert(pow10(5) == 100000);
    }
    let mut acc: u32 = 0;
    let mut i: usize = 0;
    while i < n
        invariant
            d == v@.skip(start as int),
            start + n == v@.len(),
            start + n <= usize::MAX,
            start <= v@.len(),
            1 <= n <= 5,
            i <= n,
            forall|j: int| 0 <= j < i ==> is_digit(d[j]),
            acc == digits_value(d.take(i as int)),
            acc < pow10(i as nat),
            pow10(0) == 1 && pow10(1) == 10 && pow10(2) == 100 && pow10(3) == 1000 && pow10(4)
                == 10000 && pow10(5) == 100000,
        decreases n - i,
    {
        let b = v[start + i];
        if !(0x30 <= b && b <= 0x39) {
            proof {
                assert(d[i as int] == v@[start + i]);
            }
            return None;
        }
        proof {
            assert(d.take(i + 1).drop_last() =~= d.take(i as int));
            assert(d.take(i + 1).last() == d[i as int]);
            assert(pow10((i + 1) as nat) == 10 * pow10(i as nat));
        }
        acc = acc * 10 + (b - 0x30) as u32;
        i = i + 1;
    }
    proof {
        assert(d.take(n as int) =~= d);
    }
    if acc > 65535 {
        return None;
    }
    Some(acc as u16)
}

/// Parses `v[a..b]` as a dotted-quad part.
fn parse_quad_part(v: &Vec<u8>, a: usize, b: usize) -> (r: Option<u8>)
    requires
        a <= b <= v@.len(),
    ensures
        r is Some <==> quad_part_valid(v@.subrange(a as int, b as int)),
        r matches Some(p) ==> p == digits_value(v@.subrange(a as int, b as int)),
{
    let ghost d = v@.subrange(a as int, b as int);
    let n = b - a;
    if n < 1 || n > 3 {
        return None;
    }
    proof {
        assert(pow10(0) == 1);
        assert(pow10(1) == 10);
        assert(pow10(2) == 100);
        assert(pow10(3) == 1000);
    }
    let mut acc: u32 = 0;
    let mut i: usize = 0;
    while i < n
        invariant
            d == v@.subrange(a as int, b as int),
            a + n == b,
            b <= v@.len(),
            1 <= n <= 3,
            i <= n,
            forall|j: int| 0 <= j < i ==> is_digit(d[j]),
            acc == digits_value(d.take(i as int)),
            acc < pow10(i as nat),
            pow10(0) == 1 && pow10(1) == 10 && pow10(2) == 100 && pow10(3) == 1000,
        decreases n - i,
    {
        let c = v[a + i];
        if !(0x30 <= c && c <= 0x39) {
            proof {
                assert(d[i as int] == v@[a + i]);
            }
            return None;
        }
        proof {
            assert(d.take(i + 1).drop_last() =~= d.take(i as int));
            assert(d.take(i + 1).last() == d[i as int]);
            assert(pow10((i + 1) as nat) == 10 * pow10(i as nat));
        }
        acc = acc * 10 + (c - 0x30) as u32;
        i = i + 1;
    }
    proof {
        assert(d.take(n as int) =~= d);
    }
    if acc > 255 {
        return None;
    }
    Some(acc as u8)
}

/// Appends the canonical decimal text of a part value.
fn push_dec(out: &mut Vec<u8>, v: u8)
    ensures
        final(out)@ == old(out)@ + dec_bytes(v as int),
{
    if v >= 100 {
        out.push(0x30 + v / 100);
        out.push(0x30 + (v / 10) % 10);
        out.push(0x30 + v % 10);
    } else if v >= 10 {
        out.push(0x30 + v / 10);
        out.push(0x30 + v % 10);
    } else {
        out.push(0x30 + v);
    }
    proof {
        assert(out@ =~= old(out)@ + dec_bytes(v as int));
    }
}

/// Rewrites a dotted-decimal host in canonical form, each part without
/// leading zeros; any other host comes back as given.
pub fn canonicalize_host(h: &Vec<u8>) -> (r: Vec<u8>)
    ensures
        r@ == canonical_host(h@),
{
    let n = h.len();
    let i = find_byte_at(h, 0, DOT);
    proof {
        assert(h@.skip(0) =~= h@);
    }
    if i == n {
        let r = copy_range(h, 0, n);
        proof {
            assert(h@.subrange(0, n as int) =~= h@);
        }
        return r;
    }
    let ghost r1 = h@.skip(i + 1);
    let j = find_byte_at(h, i + 1, DOT);
    if j == n {
        let r = copy_range(h, 0, n);
        proof {
            assert(h@.subrange(0, n as int) =~= h@);
        }
        return r;
    }
    let ghost r2 = r1.skip(j - i);
    proof {
        assert(r2 =~= h@.skip(j + 1));
    }
    let k = find_byte_at(h, j + 1, DOT);
    if k == n {
        let r = copy_range(h, 0, n);
        proof {
            assert(h@.subrange(0, n as int) =~= h@);
        }
        return r;
    }
    let ghost r3 = r2.skip(k - j);
    proof {
        assert(r3 =~= h@.skip(k + 1));
    }
    let e = find_byte_at(h, k + 1, DOT);
    if e != n {
        let r = copy_range(h, 0, n);
        proof {
            assert(h@.subrange(0, n as int) =~= h@);
        }
        return r;
    }
    proof {
        assert(h@.take(i as int) =~= h@.subrange(0, i as int));
        assert(r1.take(j - i - 1) =~= h@.subrange(i + 1, j as int));
        assert(r2.take(k - j - 1) =~= h@.subrange(j + 1, k as int));
        assert(r3 =~= h@.subrange(k + 1, n as int));
    }
    let p0 = parse_quad_part(h, 0, i);
    let p1 = parse_quad_part(h, i + 1, j);
    let p2 = parse_quad_part(h, j + 1, k);
    let p3 = parse_quad_part(h, k + 1, n);
    match (p0, p1, p2, p3) {
        (Some(a), Some(b), Some(c), Some(d)) => {
            let mut out: Vec<u8> = Vec::new();
            push_dec(&mut out, a);
            out.push(DOT);
            push_dec(&mut out, b);
            out.push(DOT);
            push_dec(&mut out, c);
            out.push(DOT);
            push_dec(&mut out, d);
            proof {
                assert(out@ =~= dec_bytes(a as int) + seq![DOT] + dec_bytes(b as int) + seq![DOT]
                    + dec_bytes(c as int) + seq![DOT] + dec_bytes(d as int));
            }
            out
        },
        _ => {
            let r = copy_range(h, 0, n);
            proof {
                assert(h@.subrange(0, n as int) =~= h@);
            }
            r
        },
    }
}

/// Writes `host` and a terminating zero into the fixed-size buffer,
/// truncated to the buffer's length; bytes past the copy keep their old
/// value, and nothing is ever written past the buffer.
fn write_host_out(addr_out: &mut Vec<u8>, host: &Vec<u8>)
    ensures
        final(addr_out)@ == written_out(old(addr_out)@, host@),
{
    let limit = if host.len() < addr_out.len() {
        host.len() + 1
    } else {
        addr_out.len()
    };
    let mut i: usize = 0;
    while i < limit
        invariant
            limit <= addr_out@.len(),
            limit <= host@.len() + 1,
            i <= limit,
            addr_out@.len() == old(addr_out)@.len(),
            forall|j: int| i <= j < addr_out@.len() ==> addr_out@[j] == old(addr_out)@[j],
            forall|j: int| 0 <= j < i && j < host@.len() ==> addr_out@[j] == host@[j],
            forall|j: int| 0 <= j < i && j == host@.len() ==> addr_out@[j] == 0,
        decreases limit - i,
    {
        if i < host.len() {
            let b = host[i];
            addr_out.set(i, b);
        } else {
            addr_out.set(i, 0);
        }
        i = i + 1;
    }
    proof {
        assert(final(addr_out)@ =~= written_out(old(addr_out)@, host@));
    }
}

/// Parses a raw (not yet normalized) address string: spaces become colons,
/// then the grammar above decides. Returns the host text and the port
/// (zero when none was given), or nothing for an input the grammar
/// rejects.
pub fn parse_server_address(s: &Vec<u8>) -> (r: Option<(Vec<u8>, u16)>)
    ensures
        r is Some <==> parse_spec(colonized(s@)) is Some,
        r matches Some(hp) ==> parse_spec(colonized(s@)) == Some((hp.0@, hp.1)),
{
    let t = colonize(s);
    let ghost tv = colonized(s@);
    if t.len() == 0 {
        return None;
    }
    if t[0] == LEFT_BRACKET {
        let rb = find_byte_at(&t, 0, RIGHT_BRACKET);
        proof {
            assert(t@.skip(0) =~= t@);
            lemma_find_byte(t@, RIGHT_BRACKET);
        }
        if rb == t.len() {
            return None;
        }
        proof {
            assert(t@[rb as int] == RIGHT_BRACKET);
            assert(rb >= 1);
        }
        let ghost rest = tv.subrange(rb + 1, tv.len() as int);
        if !check_v6_range(&t, 1, rb) {
            return None;
        }
        let inside = copy_range(&t, 1, rb);
        if rb + 1 == t.len() {
            proof {
                assert(rest.len() == 0);
            }
            return Some((inside, 0));
        }
        proof {
            assert(rest[0] == tv[rb + 1]);
            assert(rest.drop_first() =~= tv.skip(rb + 2));
        }
        if t[rb + 1] != COLON {
            return None;
        }
        match parse_port(&t, rb + 2) {
            Some(p) => Some((inside, p)),
            None => None,
        }
    } else {
        let p = find_byte_at(&t, 0, COLON);
        proof {
            assert(t@.skip(0) =~= t@);
        }
        if p == t.len() {
            if check_name_range(&t, 0, t.len()) {
                proof {
                    assert(t@.subrange(0, t@.len() as int) =~= t@);
                }
                let whole = copy_range(&t, 0, t.len());
                return Some((whole, 0));
            }
            proof {
                assert(t@.subrange(0, t@.len() as int) =~= t@);
            }
            return None;
        }
        let ghost rest = tv.subrange(p + 1, tv.len() as int);
        let q = find_byte_at(&t, p + 1, COLON);
        proof {
            assert(t@.skip(p + 1) =~= rest);
        }
        if q == t.len() {
            // exactly one colon: host before it, port after it
            if !check_name_range(&t, 0, p) {
                return None;
            }
            let host = copy_range(&t, 0, p);
            proof {
                assert(t@.skip(p + 1) =~= rest);
            }
            match parse_port(&t, p + 1) {
                Some(prt) => Some((host, prt)),
                None => None,
            }
        } else {
            // two or more colons: a bare colon-grouped literal
            if check_v6_range(&t, 0, t.len()) {
                proof {
                    assert(t@.subrange(0, t@.len() as int) =~= t@);
                }
                let whole = copy_range(&t, 0, t.len());
                return Some((whole, 0));
            }
            proof {
                assert(t@.subrange(0, t@.len() as int) =~= t@);
            }
            None
        }
    }
}

/// The address-validation hook: parses the module's combined host-and-port
/// string (or the default host for a null or empty input), writes the
/// canonical host into the caller's fixed-size buffer with truncation, and
/// returns the success flag and the port, 6667 when the input named none
/// or zero. On a rejected input nothing is written and the flag is zero.
pub fn validate_server_address(input: Option<&Vec<u8>>, addr_out: &mut Vec<u8>) -> (r: (u8, i32))
    ensures
        final(addr_out)@.len() == old(addr_out)@.len(),
        validate_spec(input_view(input)) is None ==> r.0 == 0 && final(addr_out)@ == old(
            addr_out,
        )@,
        validate_spec(input_view(input)) matches Some(hp) ==> r.0 == 1 && r.1 == reported_port(
            hp.1,
        ) && final(addr_out)@ == written_out(old(addr_out)@, hp.0),
{
    let parsed: Option<(Vec<u8>, u16)> = match input {
        None => Some((default_host_bytes(), 0)),
        Some(s) => {
            if s.len() == 0 {
                Some((default_host_bytes(), 0))
            } else {
                match parse_server_address(s) {
                    Some((host, port)) => Some((canonicalize_host(&host), port)),
                    None => None,
                }
            }
        },
    };
    match parsed {
        Some((host, port)) => {
            write_host_out(addr_out, &host);
            let reported: i32 = if port == 0 {
                6667
            } else {
                port as i32
            };
            (1, reported)
        },
        None => (0, 0),
    }
}

} // verus!
