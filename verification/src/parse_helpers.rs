//! The byte-level grammar of SMTP envelope addresses and of the helpers the
//! command parsers share: hostnames (dotted atoms or bracketed literals),
//! addresses, and source-routed paths whose `@ONE,@TWO:` prefix is stripped
//! before storage.
//!
//! Each grammar production is a specification function that computes where a
//! greedy parse of the production ends; the executable parsers are proved to
//! return exactly that. Parsers take the input and the position to start at,
//! and report positions into the input, so a caller can both extract the
//! matched bytes and keep parsing the rest.

use vstd::prelude::*;

verus! {

pub const LOWER_A: u8 = 97;

pub const LOWER_Z: u8 = 122;

pub const UPPER_A: u8 = 65;

pub const UPPER_Z: u8 = 90;

pub const DIGIT_0: u8 = 48;

pub const DIGIT_9: u8 = 57;

/// `-`
pub const HYPHEN: u8 = 45;

/// `+`
pub const PLUS: u8 = 43;

/// `.`
pub const DOT: u8 = 46;

/// `_`
pub const UNDERSCORE: u8 = 95;

/// Space.
pub const SP: u8 = 32;

/// Horizontal tab.
pub const HT: u8 = 9;

/// Carriage return.
pub const CR: u8 = 13;

/// Line feed.
pub const LF: u8 = 10;

/// `[`
pub const LBRACKET: u8 = 91;

/// `]`
pub const RBRACKET: u8 = 93;

/// `@`
pub const AT: u8 = 64;

/// `,`
pub const COMMA: u8 = 44;

/// `:`
pub const COLON: u8 = 58;

/// `<`
pub const LT: u8 = 60;

/// `>`
pub const GT: u8 = 62;

/// ASCII letter.
pub open spec fn is_alpha(c: u8) -> bool {
    (LOWER_A <= c && c <= LOWER_Z) || (UPPER_A <= c && c <= UPPER_Z)
}

/// ASCII digit.
pub open spec fn is_digit(c: u8) -> bool {
    DIGIT_0 <= c && c <= DIGIT_9
}

/// A character of a hostname atom: letter, digit or hyphen.
pub open spec fn is_host_char(c: u8) -> bool {
    is_alpha(c) || is_digit(c) || c == HYPHEN
}

/// A character of an address local part.
pub open spec fn is_localpart_char(c: u8) -> bool {
    is_alpha(c) || is_digit(c) || c == PLUS || c == HYPHEN || c == DOT || c == UNDERSCORE
}

/// Horizontal whitespace between tokens: space or tab.
pub open spec fn is_space_char(c: u8) -> bool {
    c == SP || c == HT
}

/// End of the run of hostname characters starting at `i`.
pub open spec fn host_run_end(s: Seq<u8>, i: int) -> int
    decreases s.len() - i,
{
    if i < s.len() && is_host_char(s[i]) {
        host_run_end(s, i + 1)
    } else {
        i
    }
}

/// End of the run of local-part characters starting at `i`.
pub open spec fn local_run_end(s: Seq<u8>, i: int) -> int
    decreases s.len() - i,
{
    if i < s.len() && is_localpart_char(s[i]) {
        local_run_end(s, i + 1)
    } else {
        i
    }
}

/// End of the run of spaces and tabs starting at `i`.
pub open spec fn spaces_end(s: Seq<u8>, i: int) -> int
    decreases s.len() - i,
{
    if i < s.len() && is_space_char(s[i]) {
        spaces_end(s, i + 1)
    } else {
        i
    }
}

/// Position of the first `b` at or after `i`, or the input's length if none.
pub open spec fn find_byte(s: Seq<u8>, i: int, b: u8) -> int
    decreases s.len() - i,
{
    if i >= s.len() {
        s.len() as int
    } else if s[i] == b {
        i
    } else {
        find_byte(s, i + 1, b)
    }
}

/// Position of the first CR immediately followed by LF at or after `i`, or
/// the input's length if none.
pub open spec fn find_crlf(s: Seq<u8>, i: int) -> int
    decreases s.len() - i,
{
    if i >= s.len() {
        s.len() as int
    } else if s[i] == CR && i + 1 < s.len() && s[i + 1] == LF {
        i
    } else {
        find_crlf(s, i + 1)
    }
}

pub proof fn lemma_host_run_end_bounds(s: Seq<u8>, i: int)
    requires
        i <= s.len(),
    ensures
        i <= host_run_end(s, i) <= s.len(),
    decreases s.len() - i,
{
    if i < s.len() && is_host_char(s[i]) {
        lemma_host_run_end_bounds(s, i + 1);
    }
}

pub proof fn lemma_find_byte_bounds(s: Seq<u8>, i: int, b: u8)
    requires
        i <= s.len(),
    ensures
        i <= find_byte(s, i, b) <= s.len(),
    decreases s.len() - i,
{
    if i < s.len() && s[i] != b {
        lemma_find_byte_bounds(s, i + 1, b);
    }
}

/// A found CRLF really is one, and leaves room for both bytes.
pub proof fn lemma_find_crlf_found(s: Seq<u8>, i: int)
    requires
        i <= s.len(),
    ensures
        find_crlf(s, i) < s.len() ==> find_crlf(s, i) + 1 < s.len() && s[find_crlf(s, i)] == CR
            && s[find_crlf(s, i) + 1] == LF,
    decreases s.len() - i,
{
    if i < s.len() && !(s[i] == CR && i + 1 < s.len() && s[i + 1] == LF) {
        lemma_find_crlf_found(s, i + 1);
    }
}

/// Rest of a dotted hostname after a completed atom ending at `j`: as long
/// as a dot followed by a non-empty atom follows, both are part of the
/// hostname.
pub open spec fn dotted_more(s: Seq<u8>, j: int) -> int
    decreases s.len() - j,
    via dotted_more_decreases
{
    if j < s.len() && s[j] == DOT && host_run_end(s, j + 1) > j + 1 {
        dotted_more(s, host_run_end(s, j + 1))
    } else {
        j
    }
}

#[via_fn]
proof fn dotted_more_decreases(s: Seq<u8>, j: int) {
    if j < s.len() && s[j] == DOT && host_run_end(s, j + 1) > j + 1 {
        lemma_host_run_end_bounds(s, j + 1);
    }
}

/// End of a dotted hostname starting at `i`: atoms of hostname characters
/// separated by single dots. An empty match (no leading atom) ends at `i`;
/// a trailing dot is not consumed.
pub open spec fn dotted_end(s: Seq<u8>, i: int) -> int {
    if host_run_end(s, i) == i {
        i
    } else {
        dotted_more(s, host_run_end(s, i))
    }
}

pub proof fn lemma_dotted_more_bounds(s: Seq<u8>, j: int)
    requires
        j <= s.len(),
    ensures
        j <= dotted_more(s, j) <= s.len(),
    decreases s.len() - j,
{
    if j < s.len() && s[j] == DOT && host_run_end(s, j + 1) > j + 1 {
        lemma_host_run_end_bounds(s, j + 1);
        lemma_dotted_more_bounds(s, host_run_end(s, j + 1));
    }
}

pub proof fn lemma_dotted_end_bounds(s: Seq<u8>, i: int)
    requires
        i <= s.len(),
    ensures
        i <= dotted_end(s, i) <= s.len(),
{
    lemma_host_run_end_bounds(s, i);
    if host_run_end(s, i) != i {
        lemma_dotted_more_bounds(s, host_run_end(s, i));
    }
}

/// End of a hostname starting at `i`: either a bracketed literal
/// (`[123.255.37.2]`, `[IPv6:...]`), everything through the closing bracket,
/// or a dotted hostname (possibly empty).
pub open spec fn hostname_end(s: Seq<u8>, i: int) -> int {
    if i < s.len() && s[i] == LBRACKET && find_byte(s, i + 1, RBRACKET) < s.len() {
        find_byte(s, i + 1, RBRACKET) + 1
    } else {
        dotted_end(s, i)
    }
}

pub proof fn lemma_hostname_end_bounds(s: Seq<u8>, i: int)
    requires
        i <= s.len(),
    ensures
        i <= hostname_end(s, i) <= s.len(),
{
    if i < s.len() && s[i] == LBRACKET && find_byte(s, i + 1, RBRACKET) < s.len() {
        lemma_find_byte_bounds(s, i + 1, RBRACKET);
    } else {
        lemma_dotted_end_bounds(s, i);
    }
}

/// End of an address starting at `i`, or nothing if no address starts
/// there: a non-empty local part, optionally followed by `@` and a
/// non-empty hostname. `Postmaster` is an address without a hostname.
pub open spec fn email_end(s: Seq<u8>, i: int) -> Option<int> {
    let l = local_run_end(s, i);
    if l == i {
        None
    } else if l < s.len() && s[l] == AT {
        if hostname_end(s, l + 1) > l + 1 {
            Some(hostname_end(s, l + 1))
        } else {
            None
        }
    } else {
        Some(l)
    }
}

/// Rest of a source route after an element ending at `j`: as long as a comma
/// followed by `@` and a hostname follows, it is part of the route.
pub open spec fn route_more(s: Seq<u8>, j: int) -> int
    decreases s.len() - j,
    via route_more_decreases
{
    if j < s.len() && s[j] == COMMA && j + 1 < s.len() && s[j + 1] == AT {
        route_more(s, hostname_end(s, j + 2))
    } else {
        j
    }
}

#[via_fn]
proof fn route_more_decreases(s: Seq<u8>, j: int) {
    if j < s.len() && s[j] == COMMA && j + 1 < s.len() && s[j + 1] == AT {
        lemma_hostname_end_bounds(s, j + 2);
    }
}

/// End of the list of source-route elements (`@host`, comma-separated)
/// starting at `i`; the list may be empty.
pub open spec fn route_elems_end(s: Seq<u8>, i: int) -> int {
    if i < s.len() && s[i] == AT {
        route_more(s, hostname_end(s, i + 1))
    } else {
        i
    }
}

/// Position just after the colon that closes a source route starting at
/// `i`, or nothing if no source route stands there.
pub open spec fn route_end(s: Seq<u8>, i: int) -> Option<int> {
    let e = route_elems_end(s, i);
    if e < s.len() && s[e] == COLON {
        Some(e + 1)
    } else {
        None
    }
}

/// A path: an optional source route, then the address. The result is the
/// span of the address alone — the source-route prefix is stripped.
pub open spec fn address_in_path_spec(s: Seq<u8>, i: int) -> Option<(int, int)> {
    match route_end(s, i) {
        Some(r) => match email_end(s, r) {
            Some(e) => Some((r, e)),
            None => None,
        },
        None => match email_end(s, i) {
            Some(e) => Some((i, e)),
            None => None,
        },
    }
}

/// A path, with or without angle brackets. The result is the address span
/// and the position just after the whole path.
pub open spec fn maybe_bracketed_path_spec(s: Seq<u8>, i: int) -> Option<(int, int, int)> {
    let plain = match address_in_path_spec(s, i) {
        Some((a, e)) => Some((a, e, e)),
        None => None,
    };
    if i < s.len() && s[i] == LT {
        match address_in_path_spec(s, i + 1) {
            Some((a, e)) => if e < s.len() && s[e] == GT {
                Some((a, e, e + 1))
            } else {
                plain
            },
            None => plain,
        }
    } else {
        plain
    }
}

fn is_host_char_x(c: u8) -> (b: bool)
    ensures
        b == is_host_char(c),
{
    (LOWER_A <= c && c <= LOWER_Z) || (UPPER_A <= c && c <= UPPER_Z) || (DIGIT_0 <= c && c <= DIGIT_9) || c == HYPHEN
}

fn is_localpart_char_x(c: u8) -> (b: bool)
    ensures
        b == is_localpart_char(c),
{
    (LOWER_A <= c && c <= LOWER_Z) || (UPPER_A <= c && c <= UPPER_Z) || (DIGIT_0 <= c && c <= DIGIT_9) || c == PLUS
        || c == HYPHEN || c == DOT || c == UNDERSCORE
}

fn scan_host(s: &[u8], i: usize) -> (r: usize)
    requires
        i <= s.len(),
    ensures
        r == host_run_end(s@, i as int),
        i <= r <= s.len(),
    decreases s.len() - i,
{
    if i < s.len() && is_host_char_x(s[i]) {
        scan_host(s, i + 1)
    } else {
        i
    }
}

/// End of the run of local-part characters starting at `i`.
pub fn scan_local(s: &[u8], i: usize) -> (r: usize)
    requires
        i <= s.len(),
    ensures
        r == local_run_end(s@, i as int),
        i <= r <= s.len(),
    decreases s.len() - i,
{
    if i < s.len() && is_localpart_char_x(s[i]) {
        scan_local(s, i + 1)
    } else {
        i
    }
}

/// Skip spaces and tabs.
pub fn eat_spaces(s: &[u8], from: usize) -> (r: usize)
    requires
        from <= s.len(),
    ensures
        r == spaces_end(s@, from as int),
        from <= r <= s.len(),
    decreases s.len() - from,
{
    if from < s.len() && (s[from] == SP || s[from] == HT) {
        eat_spaces(s, from + 1)
    } else {
        from
    }
}

fn find_byte_x(s: &[u8], i: usize, b: u8) -> (r: usize)
    requires
        i <= s.len(),
    ensures
        r == find_byte(s@, i as int, b),
        i <= r <= s.len(),
    decreases s.len() - i,
{
    if i >= s.len() {
        s.len()
    } else if s[i] == b {
        i
    } else {
        find_byte_x(s, i + 1, b)
    }
}

/// Find the next CRLF pair, or the input's length if there is none.
pub fn find_crlf_at(s: &[u8], i: usize) -> (r: usize)
    requires
        i <= s.len(),
    ensures
        r == find_crlf(s@, i as int),
        i <= r <= s.len(),
    decreases s.len() - i,
{
    if i >= s.len() {
        s.len()
    } else if s[i] == CR && i + 1 < s.len() && s[i + 1] == LF {
        i
    } else {
        find_crlf_at(s, i + 1)
    }
}

fn dotted_more_x(s: &[u8], j: usize) -> (r: usize)
    requires
        j <= s.len(),
    ensures
        r == dotted_more(s@, j as int),
        j <= r <= s.len(),
    decreases s.len() - j,
{
    if j < s.len() && s[j] == DOT {
        let k = scan_host(s, j + 1);
        if k > j + 1 {
            dotted_more_x(s, k)
        } else {
            j
        }
    } else {
        j
    }
}

/// Parse a hostname starting at `from`; the match (possibly empty) ends at
/// the returned position.
pub fn hostname(s: &[u8], from: usize) -> (r: usize)
    requires
        from <= s.len(),
    ensures
        r == hostname_end(s@, from as int),
        from <= r <= s.len(),
{
    if from < s.len() && s[from] == LBRACKET {
        let close = find_byte_x(s, from + 1, RBRACKET);
        if close < s.len() {
            return close + 1;
        }
    }
    let atom = scan_host(s, from);
    if atom == from {
        from
    } else {
        dotted_more_x(s, atom)
    }
}

/// Parse an address starting at `from`: its end, or nothing if no address
/// starts there.
pub fn email(s: &[u8], from: usize) -> (r: Option<usize>)
    requires
        from <= s.len(),
    ensures
        match r {
            Some(e) => email_end(s@, from as int) == Some(e as int) && from <= e <= s.len(),
            None => email_end(s@, from as int) is None,
        },
{
    let l = scan_local(s, from);
    if l == from {
        None
    } else if l < s.len() && s[l] == AT {
        let h = hostname(s, l + 1);
        if h > l + 1 {
            Some(h)
        } else {
            None
        }
    } else {
        Some(l)
    }
}

fn route_more_x(s: &[u8], j: usize) -> (r: usize)
    requires
        j <= s.len(),
    ensures
        r == route_more(s@, j as int),
        j <= r <= s.len(),
    decreases s.len() - j,
{
    if j < s.len() && s[j] == COMMA && j + 1 < s.len() && s[j + 1] == AT {
        let h = hostname(s, j + 2);
        route_more_x(s, h)
    } else {
        j
    }
}

/// Parse a path starting at `from`: an optional source route, then the
/// address. Returns the span of the address alone, route stripped.
pub fn address_in_path(s: &[u8], from: usize) -> (r: Option<(usize, usize)>)
    requires
        from <= s.len(),
    ensures
        match r {
            Some(p) => address_in_path_spec(s@, from as int) == Some((p.0 as int, p.1 as int))
                && from <= p.0 <= p.1 <= s.len(),
            None => address_in_path_spec(s@, from as int) is None,
        },
{
    let elems = if from < s.len() && s[from] == AT {
        let h = hostname(s, from + 1);
        route_more_x(s, h)
    } else {
        from
    };
    if elems < s.len() && s[elems] == COLON {
        match email(s, elems + 1) {
            Some(e) => Some((elems + 1, e)),
            None => None,
        }
    } else {
        match email(s, from) {
            Some(e) => Some((from, e)),
            None => None,
        }
    }
}

/// Parse a path with or without angle brackets, starting at `from`. Returns
/// the address span and the position just after the whole path.
pub fn address_in_maybe_bracketed_path(s: &[u8], from: usize) -> (r: Option<(usize, usize, usize)>)
    requires
        from <= s.len(),
    ensures
        match r {
            Some(p) => maybe_bracketed_path_spec(s@, from as int) == Some(
                (p.0 as int, p.1 as int, p.2 as int),
            ) && from <= p.0 <= p.1 <= p.2 <= s.len(),
            None => maybe_bracketed_path_spec(s@, from as int) is None,
        },
{
    if from < s.len() && s[from] == LT {
        match address_in_path(s, from + 1) {
            Some((a, e)) => {
                if e < s.len() && s[e] == GT {
                    return Some((a, e, e + 1));
                }
            },
            None => {},
        }
    }
    match address_in_path(s, from) {
        Some((a, e)) => Some((a, e, e)),
        None => None,
    }
}

/// Parse a path with or without angle brackets and return where the whole
/// path (route, brackets and all) ends.
pub fn full_maybe_bracketed_path(s: &[u8], from: usize) -> (r: Option<usize>)
    requires
        from <= s.len(),
    ensures
        match r {
            Some(t) => (maybe_bracketed_path_spec(s@, from as int) matches Some(p) && p.2
                == t as int) && from <= t <= s.len(),
            None => maybe_bracketed_path_spec(s@, from as int) is None,
        },
{
    match address_in_maybe_bracketed_path(s, from) {
        Some((_, _, t)) => Some(t),
        None => None,
    }
}

/// Copy the bytes of `s` between `a` and `b`.
pub fn copy_range(s: &[u8], a: usize, b: usize) -> (r: Vec<u8>)
    requires
        a <= b <= s.len(),
    ensures
        r@ == s@.subrange(a as int, b as int),
{
    let mut r: Vec<u8> = Vec::new();
    let mut i: usize = a;
    while i < b
        invariant
            a <= i <= b <= s.len(),
            r@ == s@.subrange(a as int, i as int),
        decreases b - i,
    {
        r.push(s[i]);
        proof {
            assert(s@.subrange(a as int, i + 1 as int) =~= s@.subrange(a as int, i as int).push(
                s@[i as int],
            ));
        }
        i += 1;
    }
    r
}

/// Append bytes to a growing wire image.
pub fn append_bytes(w: &mut Vec<u8>, bytes: &[u8])
    ensures
        final(w)@ == old(w)@ + bytes@,
{
    let mut i: usize = 0;
    while i < bytes.len()
        invariant
            i <= bytes.len(),
            w@ == old(w)@ + bytes@.subrange(0, i as int),
        decreases bytes.len() - i,
    {
        w.push(bytes[i]);
        proof {
            assert(old(w)@ + bytes@.subrange(0, i + 1 as int) =~= (old(w)@ + bytes@.subrange(
                0,
                i as int,
            )).push(bytes@[i as int]));
        }
        i += 1;
    }
    proof {
        assert(bytes@.subrange(0, bytes@.len() as int) =~= bytes@);
    }
}

} // verus!
