//! Small verified text helpers: splitting a command line on spaces and
//! recognizing the `address:port` shape of a host port binding.

use vstd::prelude::*;
use vstd::std_specs::iter::IteratorSpec;

verus! {

broadcast use vstd::string::axiom_spec_iter;

/// Relies on `String::push`: appends one character to the string.
#[verifier::external_body]
fn push_char(s: &mut String, c: char)
    ensures
        final(s)@ == old(s)@.push(c),
{
    s.push(c);
}

/// Collects the characters of a string slice into a vector.
pub fn to_char_vec(s: &str) -> (r: Vec<char>)
    ensures
        r@ == s@,
{
    let mut it = s.chars();
    let mut out: Vec<char> = Vec::new();
    loop
        invariant
            it.obeys_prophetic_iter_laws(),
            it.decrease() is Some,
            out@ + it.remaining() == s@,
        ensures
            out@ == s@,
        decreases it.decrease()->0,
    {
        let ghost prev = it.remaining();
        match it.next() {
            Some(c) => {
                out.push(c);
                proof {
                    assert(out@ + it.remaining() =~= s@);
                }
            }
            None => {
                proof {
                    assert(prev.len() == 0);
                    assert(out@ =~= s@);
                }
                break;
            }
        }
    }
    out
}

/// Builds a string out of a contiguous range of a character vector.
pub fn string_from_range(v: &Vec<char>, lo: usize, hi: usize) -> (r: String)
    requires
        lo <= hi <= v@.len(),
    ensures
        r@ == v@.subrange(lo as int, hi as int),
{
    let mut r = String::new();
    let mut i: usize = lo;
    while i < hi
        invariant
            lo <= i <= hi <= v@.len(),
            r@ =~= v@.subrange(lo as int, i as int),
        decreases hi - i,
    {
        push_char(&mut r, v[i]);
        i += 1;
        proof {
            assert(r@ =~= v@.subrange(lo as int, i as int));
        }
    }
    r
}

/// The pieces of a character sequence split at every space, in order; a
/// sequence without a space is one piece, and every space separates two
/// (possibly empty) pieces.
pub open spec fn split_spaces_spec(s: Seq<char>) -> Seq<Seq<char>>
    decreases s.len(),
{
    if s.len() == 0 {
        seq![Seq::<char>::empty()]
    } else {
        let rest = split_spaces_spec(s.drop_last());
        if s.last() == ' ' {
            rest.push(Seq::<char>::empty())
        } else {
            rest.update(rest.len() - 1, rest.last().push(s.last()))
        }
    }
}

/// Splits a string at every space character.
pub fn split_spaces(s: &str) -> (r: Vec<String>)
    ensures
        r@.map_values(|p: String| p@) == split_spaces_spec(s@),
{
    let chars = to_char_vec(s);
    let n = chars.len();
    let mut done: Vec<String> = Vec::new();
    let mut current = String::new();
    let mut i: usize = 0;
    while i < n
        invariant
            i <= n == chars@.len(),
            chars@ == s@,
            split_spaces_spec(s@.subrange(0, i as int)) == done@.map_values(|p: String| p@).push(
                current@,
            ),
        decreases n - i,
    {
        let ghost prefix = s@.subrange(0, i as int);
        let c = chars[i];
        if c == ' ' {
            done.push(current);
            current = String::new();
        } else {
            push_char(&mut current, c);
        }
        i += 1;
        proof {
            let longer = s@.subrange(0, i as int);
            assert(longer.drop_last() =~= prefix);
            assert(longer.last() == c);
            assert(done@.map_values(|p: String| p@).push(current@) =~= split_spaces_spec(longer));
        }
    }
    proof {
        assert(s@.subrange(0, n as int) =~= s@);
    }
    done.push(current);
    proof {
        assert(done@.map_values(|p: String| p@) =~= split_spaces_spec(s@));
    }
    done
}

/// A character the address part of a host binding may hold.
pub open spec fn is_addr_char(c: char) -> bool {
    ('0' as u32) <= (c as u32) <= ('9' as u32) || c == '.' || c == '|'
}

/// A decimal digit.
pub open spec fn is_digit_char(c: char) -> bool {
    ('0' as u32) <= (c as u32) <= ('9' as u32)
}

/// The end of the run of address characters that starts at `p`.
pub open spec fn addr_run_end(s: Seq<char>, p: int) -> int
    decreases s.len() - p,
{
    if p < s.len() && is_addr_char(s[p]) {
        addr_run_end(s, p + 1)
    } else {
        p
    }
}

/// The end of the run of digits that starts at `p`.
pub open spec fn digit_run_end(s: Seq<char>, p: int) -> int
    decreases s.len() - p,
{
    if p < s.len() && is_digit_char(s[p]) {
        digit_run_end(s, p + 1)
    } else {
        p
    }
}

/// Whether a host binding match begins at position `p`: a non-empty run of
/// address characters, a colon directly after it, and at least one digit
/// after the colon.
pub open spec fn binding_match_at(s: Seq<char>, p: int) -> bool {
    &&& 0 <= p < s.len()
    &&& is_addr_char(s[p])
    &&& addr_run_end(s, p) < s.len()
    &&& s[addr_run_end(s, p)] == ':'
    &&& addr_run_end(s, p) + 1 < s.len()
    &&& is_digit_char(s[addr_run_end(s, p) + 1])
}

/// The first position at or after `p` where a host binding match begins.
pub open spec fn find_match_from(s: Seq<char>, p: int) -> Option<int>
    decreases s.len() - p,
{
    if p >= s.len() {
        None
    } else if binding_match_at(s, p) {
        Some(p)
    } else {
        find_match_from(s, p + 1)
    }
}

/// The address and port captured by the first host binding match of the
/// sequence, if any: the full run of address characters before the colon and
/// the full run of digits after it.
pub open spec fn host_port_spec(s: Seq<char>) -> Option<(Seq<char>, Seq<char>)> {
    match find_match_from(s, 0) {
        None => None,
        Some(p) => {
            let q = addr_run_end(s, p);
            Some((s.subrange(p, q), s.subrange(q + 1, digit_run_end(s, q + 1))))
        },
    }
}

/// Scans a host binding string for its first `address:port` occurrence and
/// returns the captured address and port, or `None` when no such shape
/// occurs anywhere in the string.
pub fn parse_host_port(h: &str) -> (r: Option<(String, String)>)
    ensures
        host_port_spec(h@) is None ==> r is None,
        host_port_spec(h@) matches Some(cap) ==> r matches Some(pair) && pair.0@ == cap.0
            && pair.1@ == cap.1,
{
    let chars = to_char_vec(h);
    let n = chars.len();
    let mut p: usize = 0;
    while p < n
        invariant
            p <= n == chars@.len(),
            chars@ == h@,
            find_match_from(h@, 0) == find_match_from(h@, p as int),
        decreases n - p,
    {
        let c = chars[p];
        if is_addr_char_exec(c) {
            let mut q: usize = p;
            while q < n && is_addr_char_exec(chars[q])
                invariant
                    p <= q <= n == chars@.len(),
                    chars@ == h@,
                    addr_run_end(h@, p as int) == addr_run_end(h@, q as int),
                decreases n - q,
            {
                q += 1;
            }
            assert(addr_run_end(h@, p as int) == q as int);
            if q < n && chars[q] == ':' && q + 1 < n && is_digit_char_exec(chars[q + 1]) {
                assert(binding_match_at(h@, p as int));
                let mut e: usize = q + 1;
                while e < n && is_digit_char_exec(chars[e])
                    invariant
                        q + 1 <= e <= n == chars@.len(),
                        chars@ == h@,
                        digit_run_end(h@, q + 1 as int) == digit_run_end(h@, e as int),
                    decreases n - e,
                {
                    e += 1;
                }
                assert(digit_run_end(h@, q + 1 as int) == e as int);
                let ip = string_from_range(&chars, p, q);
                let port = string_from_range(&chars, q + 1, e);
                return Some((ip, port));
            }
            assert(!binding_match_at(h@, p as int));
        } else {
            assert(!binding_match_at(h@, p as int));
        }
        p += 1;
    }
    None
}

/// Executable test for an address character.
fn is_addr_char_exec(c: char) -> (r: bool)
    ensures
        r == is_addr_char(c),
{
    (c >= '0' && c <= '9') || c == '.' || c == '|'
}

/// Executable test for a decimal digit.
fn is_digit_char_exec(c: char) -> (r: bool)
    ensures
        r == is_digit_char(c),
{
    c >= '0' && c <= '9'
}

} // verus!
