//! Detection of the machine's LAN address from `ifconfig` output, so that
//! phones on the same network can reach the redirect server.
use vstd::prelude::*;

use crate::text::{
    chars_of, contains, find_in, has_prefix_str, is_space, is_space_char, same_str, slice,
    starts_with, string_of, texts, trim, trim_start, trimmed,
};

verus! {

/// The first position at or after `i` holding `c`, or the length.
pub open spec fn next_char(s: Seq<char>, c: char, i: int) -> int
    decreases s.len() - i,
{
    if i < 0 || i >= s.len() {
        s.len() as int
    } else if s[i] == c {
        i
    } else {
        next_char(s, c, i + 1)
    }
}

/// `next_char` lies between `i` and the length.
pub proof fn lemma_next_char(s: Seq<char>, c: char, i: int)
    requires
        0 <= i <= s.len(),
    ensures
        i <= next_char(s, c, i) <= s.len(),
        next_char(s, c, i) < s.len() ==> s[next_char(s, c, i)] == c,
        forall|k: int| i <= k < next_char(s, c, i) ==> s[k] != c,
    decreases s.len() - i,
{
    if i < s.len() && s[i] != c {
        lemma_next_char(s, c, i + 1);
    }
}

/// A line without the carriage return before its newline.
pub open spec fn strip_cr(l: Seq<char>) -> Seq<char> {
    if l.len() > 0 && l.last() == '\r' {
        l.drop_last()
    } else {
        l
    }
}

/// The lines of `s` from position `i` on (`str::lines`): split at newlines,
/// a carriage return before a newline dropped, no empty line after a final
/// newline.
pub open spec fn lines_from(s: Seq<char>, i: int) -> Seq<Seq<char>>
    decreases s.len() - i,
{
    if i < 0 || i >= s.len() {
        Seq::empty()
    } else {
        let j = next_char(s, '\n', i);
        proof {
            lemma_next_char(s, '\n', i);
        }
        if j < s.len() {
            seq![strip_cr(s.subrange(i, j))] + lines_from(s, j + 1)
        } else {
            seq![s.subrange(i, s.len() as int)]
        }
    }
}

/// The lines of `s`.
pub open spec fn lines_of(s: Seq<char>) -> Seq<Seq<char>> {
    lines_from(s, 0)
}

/// The first word of `s`: its characters up to the first white space.
pub open spec fn first_word(s: Seq<char>) -> Seq<char> {
    s.take(first_space(s, 0))
}

/// The first white-space position at or after `i`, or the length.
pub open spec fn first_space(s: Seq<char>, i: int) -> int
    decreases s.len() - i,
{
    if i < 0 || i >= s.len() {
        s.len() as int
    } else if is_space(s[i]) {
        i
    } else {
        first_space(s, i + 1)
    }
}

/// An interface header line: it starts neither with a tab nor with a space.
pub open spec fn is_header(l: Seq<char>) -> bool {
    !starts_with(l, "\t"@) && !starts_with(l, " "@)
}

/// The interface name of a header line: its text before the first colon.
pub open spec fn interface_name(l: Seq<char>) -> Seq<char> {
    l.take(next_char(l, ':', 0))
}

/// The addresses of an interface are passed over: loopback, tunnels,
/// WireGuard, PPP and point-to-point links.
pub open spec fn skips_interface(l: Seq<char>) -> bool {
    let name = interface_name(l);
    ||| starts_with(name, "lo"@)
    ||| starts_with(name, "utun"@)
    ||| starts_with(name, "tun"@)
    ||| starts_with(name, "wg"@)
    ||| starts_with(name, "ppp"@)
    ||| contains(l, "POINTOPOINT"@)
}

/// The IPv4 address an `inet` line lists: the word after `inet`.
pub open spec fn inet_address(l: Seq<char>) -> Option<Seq<char>> {
    let t = trim(l);
    let rest = trim_start(t.skip(5));
    if starts_with(t, "inet "@) && rest.len() > 0 {
        Some(first_word(rest))
    } else {
        None
    }
}

/// A listed address is usable: neither loopback nor link-local.
pub open spec fn usable_address(ip: Seq<char>) -> bool {
    ip != "127.0.0.1"@ && !starts_with(ip, "169.254."@)
}

/// The first usable address in `lines`, `skip` telling whether the current
/// interface is passed over.
pub open spec fn scan(lines: Seq<Seq<char>>, skip: bool) -> Option<Seq<char>>
    decreases lines.len(),
{
    if lines.len() == 0 {
        None
    } else {
        let l = lines[0];
        if is_header(l) {
            scan(lines.drop_first(), skips_interface(l))
        } else if !skip && inet_address(l) is Some && usable_address(inet_address(l).unwrap()) {
            inet_address(l)
        } else {
            scan(lines.drop_first(), skip)
        }
    }
}

/// The LAN address that `ifconfig` output lists, if any.
pub open spec fn lan_address(output: Seq<char>) -> Option<Seq<char>> {
    scan(lines_of(output), false)
}

/// The address of a socket routed to the Internet is used unless it is
/// loopback or in 10.3.0.0/16.
pub open spec fn fallback_usable(ip: Seq<char>) -> bool {
    !starts_with(ip, "127."@) && !starts_with(ip, "10.3."@)
}

/// The lines of `s`.
pub fn split_lines(s: &[char]) -> (r: Vec<Vec<char>>)
    ensures
        texts(r@) == lines_of(s@),
{
    let n = s.len();
    let mut out: Vec<Vec<char>> = Vec::new();
    let mut i: usize = 0;
    while i < n
        invariant
            n == s@.len(),
            i <= n,
            lines_of(s@) == texts(out@) + lines_from(s@, i as int),
        decreases n - i,
    {
        let mut j = i;
        while j < n && s[j] != '\n'
            invariant
                n == s@.len(),
                i <= j <= n,
                next_char(s@, '\n', i as int) == next_char(s@, '\n', j as int),
            decreases n - j,
        {
            j = j + 1;
        }
        proof {
            lemma_next_char(s@, '\n', i as int);
        }
        let ghost before = out@;
        if j < n {
            let mut line = slice(s, i, j);
            if line.len() > 0 && line[line.len() - 1] == '\r' {
                line.pop();
            }
            proof {
                assert(line@ == strip_cr(s@.subrange(i as int, j as int)));
            }
            out.push(line);
            proof {
                assert(texts(out@) =~= texts(before).push(line@));
                assert(texts(before) + lines_from(s@, i as int) =~= texts(out@) + lines_from(
                    s@,
                    j + 1,
                ));
            }
            i = j + 1;
        } else {
            let line = slice(s, i, n);
            out.push(line);
            proof {
                assert(texts(out@) =~= texts(before).push(line@));
                assert(texts(before) + lines_from(s@, i as int) =~= texts(out@) + lines_from(
                    s@,
                    n as int,
                ));
            }
            i = n;
        }
    }
    proof {
        assert(texts(out@) + lines_from(s@, n as int) =~= texts(out@));
    }
    out
}

/// The first word of `s`.
fn word_of(s: &[char]) -> (r: Vec<char>)
    ensures
        r@ == first_word(s@),
{
    let mut j: usize = 0;
    while j < s.len() && !is_space_char(s[j])
        invariant
            j <= s@.len(),
            first_space(s@, 0) == first_space(s@, j as int),
        decreases s@.len() - j,
    {
        j = j + 1;
    }
    slice(s, 0, j)
}

/// Whether a header line's interface is passed over.
fn skips(l: &[char]) -> (r: bool)
    ensures
        r == skips_interface(l@),
{
    let mut j: usize = 0;
    while j < l.len() && l[j] != ':'
        invariant
            j <= l@.len(),
            next_char(l@, ':', 0) == next_char(l@, ':', j as int),
        decreases l@.len() - j,
    {
        j = j + 1;
    }
    let name = slice(l, 0, j);
    proof {
        assert(name@ =~= interface_name(l@));
    }
    let n = name.as_slice();
    has_prefix_str(n, "lo") || has_prefix_str(n, "utun") || has_prefix_str(n, "tun")
        || has_prefix_str(n, "wg") || has_prefix_str(n, "ppp") || find_in(
        l,
        chars_of("POINTOPOINT").as_slice(),
    )
}

/// The address an `inet` line lists.
fn inet_of(l: &[char]) -> (r: Option<Vec<char>>)
    ensures
        match r {
            Some(ip) => inet_address(l@) == Some(ip@),
            None => inet_address(l@) is None,
        },
{
    let t = trimmed(l);
    if !has_prefix_str(t.as_slice(), "inet ") {
        return None;
    }
    proof {
        reveal_strlit("inet ");
    }
    let after = slice(t.as_slice(), 5, t.len());
    proof {
        assert(after@ =~= t@.skip(5));
    }
    let rest = trimmed_start(after.as_slice());
    if rest.len() == 0 {
        return None;
    }
    Some(word_of(rest.as_slice()))
}

/// `s` without leading white space.
fn trimmed_start(s: &[char]) -> (r: Vec<char>)
    ensures
        r@ == trim_start(s@),
{
    let mut i: usize = 0;
    proof {
        assert(s@.subrange(0, s@.len() as int) =~= s@);
    }
    while i < s.len() && is_space_char(s[i])
        invariant
            i <= s@.len(),
            trim_start(s@) == trim_start(s@.subrange(i as int, s@.len() as int)),
        decreases s@.len() - i,
    {
        proof {
            assert(s@.subrange(i as int, s@.len() as int).drop_first() =~= s@.subrange(i + 1, s@.len() as int));
        }
        i = i + 1;
    }
    slice(s, i, s.len())
}

/// The LAN address listed in `ifconfig` output: the first `inet` address of
/// an interface that is not loopback, a tunnel or point-to-point, other than
/// 127.0.0.1 and link-local ones.
pub fn lan_ip_from_ifconfig(output: &str) -> (r: Option<String>)
    ensures
        match r {
            Some(ip) => lan_address(output@) == Some(ip@),
            None => lan_address(output@) is None,
        },
{
    let text = chars_of(output);
    let lines = split_lines(text.as_slice());
    let ghost all = texts(lines@);
    let mut skip = false;
    let mut k: usize = 0;
    proof {
        assert(all.skip(0) =~= all);
    }
    while k < lines.len()
        invariant
            all == texts(lines@),
            all == lines_of(output@),
            k <= lines@.len(),
            lan_address(output@) == scan(all.skip(k as int), skip),
        decreases lines@.len() - k,
    {
        let l = lines[k].as_slice();
        proof {
            assert(all.skip(k as int)[0] == l@);
            assert(all.skip(k as int).drop_first() =~= all.skip(k + 1));
        }
        let header = !has_prefix_str(l, "\t") && !has_prefix_str(l, " ");
        if header {
            skip = skips(l);
        } else if !skip {
            match inet_of(l) {
                Some(ip) => {
                    let ipc = ip.as_slice();
                    if !same_str(ipc, "127.0.0.1") && !has_prefix_str(ipc, "169.254.") {
                        return Some(string_of(ipc));
                    }
                },
                None => {},
            }
        }
        k = k + 1;
    }
    None
}

/// Whether the fallback socket address may be used.
pub fn fallback_ip_usable(ip: &str) -> (r: bool)
    ensures
        r == fallback_usable(ip@),
{
    let c = chars_of(ip);
    !has_prefix_str(c.as_slice(), "127.") && !has_prefix_str(c.as_slice(), "10.3.")
}

} // verus!
