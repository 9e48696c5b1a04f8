//! Validation of WebSocket target addresses.
//!
//! An address is accepted when it reads `ws://` or `wss://`, then a
//! nonempty host of letters, digits, dots and hyphens, then optionally a
//! colon and one to five port digits, then an optional path: a slash
//! followed by letters, digits, underscores, slashes and hyphens.

use vstd::prelude::*;

verus! {

/// A character the host part may contain: a letter, a digit, a dot or a
/// hyphen.
pub open spec fn is_host_char(c: char) -> bool {
    let u = c as u32;
    ||| 'a' as u32 <= u <= 'z' as u32
    ||| 'A' as u32 <= u <= 'Z' as u32
    ||| '0' as u32 <= u <= '9' as u32
    ||| c == '.'
    ||| c == '-'
}

/// A decimal digit.
pub open spec fn is_digit_char(c: char) -> bool {
    '0' as u32 <= c as u32 <= '9' as u32
}

/// A character the path part may contain: a letter, a digit, an
/// underscore, a slash or a hyphen.
pub open spec fn is_path_char(c: char) -> bool {
    let u = c as u32;
    ||| 'a' as u32 <= u <= 'z' as u32
    ||| 'A' as u32 <= u <= 'Z' as u32
    ||| '0' as u32 <= u <= '9' as u32
    ||| c == '_'
    ||| c == '/'
    ||| c == '-'
}

/// How many characters the scheme takes: 6 for `wss://`, 5 for `ws://`,
/// and -1 when the address starts with neither.
pub open spec fn scheme_len(s: Seq<char>) -> int {
    if s.len() >= 6 && s[0] == 'w' && s[1] == 's' && s[2] == 's' && s[3] == ':' && s[4] == '/'
        && s[5] == '/' {
        6
    } else if s.len() >= 5 && s[0] == 'w' && s[1] == 's' && s[2] == ':' && s[3] == '/' && s[4]
        == '/' {
        5
    } else {
        -1
    }
}

/// Where the run of host characters starting at `i` ends: the first
/// position at or after `i` holding no host character, or the end.
pub open spec fn host_end(s: Seq<char>, i: int) -> int
    decreases s.len() - i
    when 0 <= i <= s.len()
{
    if i < s.len() && is_host_char(s[i]) {
        host_end(s, i + 1)
    } else {
        i
    }
}

/// Where the run of digits starting at `i` ends.
pub open spec fn digits_end(s: Seq<char>, i: int) -> int
    decreases s.len() - i
    when 0 <= i <= s.len()
{
    if i < s.len() && is_digit_char(s[i]) {
        digits_end(s, i + 1)
    } else {
        i
    }
}

/// The path part is empty, or is a slash followed by path characters
/// to the end.
pub open spec fn path_valid(s: Seq<char>, i: int) -> bool
    recommends
        0 <= i <= s.len(),
{
    i == s.len() || (s[i] == '/' && forall|j: int| i <= j < s.len() ==> is_path_char(s[j]))
}

/// After the host: either the address ends, or a colon and one to five
/// port digits precede the path, or the path follows directly.
pub open spec fn port_path_valid(s: Seq<char>, i: int) -> bool
    recommends
        0 <= i <= s.len(),
{
    if i == s.len() {
        true
    } else if s[i] == ':' {
        let d = digits_end(s, i + 1);
        1 <= d - (i + 1) <= 5 && path_valid(s, d)
    } else {
        path_valid(s, i)
    }
}

/// A well-formed WebSocket target address: scheme, nonempty host,
/// optional port, optional path.
pub open spec fn valid_ws_address(s: Seq<char>) -> bool {
    scheme_len(s) >= 0 && {
        let h = host_end(s, scheme_len(s));
        h > scheme_len(s) && port_path_valid(s, h)
    }
}

/// A run of host characters that stops at a non-host character (or the
/// end) is exactly what `host_end` measures.
proof fn lemma_host_run(s: Seq<char>, i: int, h: int)
    requires
        0 <= i <= h <= s.len(),
        forall|j: int| i <= j < h ==> is_host_char(s[j]),
        h == s.len() || !is_host_char(s[h]),
    ensures
        host_end(s, i) == h,
    decreases h - i,
{
    if i < h {
        lemma_host_run(s, i + 1, h);
    }
}

/// A run of digits that stops at a non-digit (or the end) is exactly
/// what `digits_end` measures.
proof fn lemma_digits_run(s: Seq<char>, i: int, h: int)
    requires
        0 <= i <= h <= s.len(),
        forall|j: int| i <= j < h ==> is_digit_char(s[j]),
        h == s.len() || !is_digit_char(s[h]),
    ensures
        digits_end(s, i) == h,
    decreases h - i,
{
    if i < h {
        lemma_digits_run(s, i + 1, h);
    }
}

/// Whether this character may appear in the host part.
fn host_char(c: char) -> (b: bool)
    ensures
        b == is_host_char(c),
{
    let u = c as u32;
    ('a' as u32 <= u && u <= 'z' as u32) || ('A' as u32 <= u && u <= 'Z' as u32) || ('0' as u32
        <= u && u <= '9' as u32) || c == '.' || c == '-'
}

/// Whether this character is a decimal digit.
fn digit_char(c: char) -> (b: bool)
    ensures
        b == is_digit_char(c),
{
    let u = c as u32;
    '0' as u32 <= u && u <= '9' as u32
}

/// Whether this character may appear in the path part.
fn path_char(c: char) -> (b: bool)
    ensures
        b == is_path_char(c),
{
    let u = c as u32;
    ('a' as u32 <= u && u <= 'z' as u32) || ('A' as u32 <= u && u <= 'Z' as u32) || ('0' as u32
        <= u && u <= '9' as u32) || c == '_' || c == '/' || c == '-'
}

/// Whether `ip` is a well-formed WebSocket target address. Addresses are
/// validated here, before an open command is issued; the dispatcher
/// assumes its targets have passed this check.
pub fn is_valid_websocket_ip(ip: &str) -> (b: bool)
    ensures
        b == valid_ws_address(ip@),
{
    let n = ip.unicode_len();
    let scheme: usize;
    if n >= 6 && ip.get_char(0) == 'w' && ip.get_char(1) == 's' && ip.get_char(2) == 's'
        && ip.get_char(3) == ':' && ip.get_char(4) == '/' && ip.get_char(5) == '/' {
        scheme = 6;
    } else if n >= 5 && ip.get_char(0) == 'w' && ip.get_char(1) == 's' && ip.get_char(2) == ':'
        && ip.get_char(3) == '/' && ip.get_char(4) == '/' {
        scheme = 5;
    } else {
        return false;
    }
    assert(scheme_len(ip@) == scheme);

    let mut h: usize = scheme;
    while h < n
        invariant_except_break
            scheme <= h <= n,
            n == ip@.len(),
            forall|j: int| scheme <= j < h ==> is_host_char(ip@[j]),
        ensures
            scheme <= h <= n,
            n == ip@.len(),
            forall|j: int| scheme <= j < h ==> is_host_char(ip@[j]),
            h == n || !is_host_char(ip@[h as int]),
        decreases n - h,
    {
        if !host_char(ip.get_char(h)) {
            break ;
        }
        h += 1;
    }
    proof {
        lemma_host_run(ip@, scheme as int, h as int);
    }
    if h == scheme {
        return false;
    }
    if h == n {
        return true;
    }

    let rest: usize;
    if ip.get_char(h) == ':' {
        let mut d: usize = h + 1;
        while d < n
            invariant_except_break
                h + 1 <= d <= n,
                n == ip@.len(),
                forall|j: int| h + 1 <= j < d ==> is_digit_char(ip@[j]),
            ensures
                h + 1 <= d <= n,
                n == ip@.len(),
                forall|j: int| h + 1 <= j < d ==> is_digit_char(ip@[j]),
                d == n || !is_digit_char(ip@[d as int]),
            decreases n - d,
        {
            if !digit_char(ip.get_char(d)) {
                break ;
            }
            d += 1;
        }
        proof {
            lemma_digits_run(ip@, h + 1 as int, d as int);
        }
        if d - (h + 1) < 1 || d - (h + 1) > 5 {
            return false;
        }
        rest = d;
    } else {
        rest = h;
    }

    if rest == n {
        return true;
    }
    if ip.get_char(rest) != '/' {
        return false;
    }
    let mut p: usize = rest;
    while p < n
        invariant_except_break
            rest <= p <= n,
            n == ip@.len(),
            ip@[rest as int] == '/',
            forall|j: int| rest <= j < p ==> is_path_char(ip@[j]),
        ensures
            rest <= p <= n,
            n == ip@.len(),
            ip@[rest as int] == '/',
            forall|j: int| rest <= j < p ==> is_path_char(ip@[j]),
            p == n || !is_path_char(ip@[p as int]),
        decreases n - p,
    {
        if !path_char(ip.get_char(p)) {
            break ;
        }
        p += 1;
    }
    if p < n {
        return false;
    }
    true
}

} // verus!
