//! Reading a machine's IPv4 address out of the DHCP lease table that
//! `virsh net-dhcp-leases` prints.

use vstd::prelude::*;
use crate::text::{chars_of, string_from_chars, nonempty_lines, nonempty_lines_of};

verus! {

/// Unicode's `White_Space` characters, those that `char::is_whitespace`
/// accepts.
pub open spec fn is_white(c: char) -> bool {
    ||| '\u{9}' <= c <= '\u{d}'
    ||| c == ' '
    ||| c == '\u{85}'
    ||| c == '\u{a0}'
    ||| c == '\u{1680}'
    ||| '\u{2000}' <= c <= '\u{200a}'
    ||| c == '\u{2028}'
    ||| c == '\u{2029}'
    ||| c == '\u{202f}'
    ||| c == '\u{205f}'
    ||| c == '\u{3000}'
}

fn is_white_exec(c: char) -> (r: bool)
    ensures
        r == is_white(c),
{
    ('\u{9}' <= c && c <= '\u{d}') || c == ' ' || c == '\u{85}' || c == '\u{a0}' || c == '\u{1680}'
        || ('\u{2000}' <= c && c <= '\u{200a}') || c == '\u{2028}' || c == '\u{2029}' || c == '\u{202f}'
        || c == '\u{205f}' || c == '\u{3000}'
}

/// The maximal runs of characters other than white space, in order, as
/// `str::split_whitespace` yields them.
pub open spec fn words(s: Seq<char>) -> Seq<Seq<char>>
    decreases s.len(),
{
    if s.len() == 0 {
        Seq::empty()
    } else {
        let w = words(s.drop_last());
        let c = s.last();
        if is_white(c) {
            w
        } else if s.len() >= 2 && !is_white(s[s.len() - 2]) {
            w.update(w.len() - 1, w.last().push(c))
        } else {
            w.push(seq![c])
        }
    }
}

/// `sub` occurs in `s` starting at `i`.
pub open spec fn occurs_at(s: Seq<char>, sub: Seq<char>, i: int) -> bool {
    0 <= i && i + sub.len() <= s.len() && s.subrange(i, i + sub.len()) == sub
}

/// `sub` occurs in `s`.
pub open spec fn occurs(s: Seq<char>, sub: Seq<char>) -> bool {
    exists|i: int| occurs_at(s, sub, i)
}

/// `k` is where the first `/` of `t` stands, or the length of `t` where it
/// has none.
pub open spec fn slash_cut(t: Seq<char>, k: int) -> bool {
    &&& 0 <= k <= t.len()
    &&& forall|j: int| 0 <= j < k ==> t[j] != '/'
    &&& (k == t.len() || t[k] == '/')
}

/// The part of `t` before its first `/` (an address without its prefix
/// length).
pub open spec fn before_slash(t: Seq<char>) -> Seq<char> {
    t.take(choose|k: int| slash_cut(t, k))
}

/// The first of `ws` that holds a `.`.
pub open spec fn first_dotted(ws: Seq<Seq<char>>) -> Option<Seq<char>>
    decreases ws.len(),
{
    if ws.len() == 0 {
        None
    } else if ws[0].contains('.') {
        Some(ws[0])
    } else {
        first_dotted(ws.drop_first())
    }
}

/// The address on a lease line: where the line holds `mac`, its first word
/// with a `.`, cut at its first `/`.
pub open spec fn line_address(line: Seq<char>, mac: Seq<char>) -> Option<Seq<char>> {
    if occurs(line, mac) {
        match first_dotted(words(line)) {
            Some(t) => Some(before_slash(t)),
            None => None,
        }
    } else {
        None
    }
}

/// The address of the first line that yields one.
pub open spec fn first_address(lines: Seq<Seq<char>>, mac: Seq<char>) -> Option<Seq<char>>
    decreases lines.len(),
{
    if lines.len() == 0 {
        None
    } else {
        match line_address(lines[0], mac) {
            Some(a) => Some(a),
            None => first_address(lines.drop_first(), mac),
        }
    }
}

/// The address that the lease table `output` gives for the interface with
/// MAC address `mac`. (An empty line holds no word, so it yields nothing,
/// and it makes no difference that the spec reads the non-empty lines.)
pub open spec fn lease_address(output: Seq<char>, mac: Seq<char>) -> Option<Seq<char>> {
    first_address(nonempty_lines(output), mac)
}

/// Whether `sub` occurs in `s`.
fn occurs_exec(s: &Vec<char>, sub: &Vec<char>) -> (r: bool)
    ensures
        r == occurs(s@, sub@),
{
    let n = s.len();
    let m = sub.len();
    if m > n {
        assert forall|i: int| !occurs_at(s@, sub@, i) by {}
        return false;
    }
    let mut i: usize = 0;
    while i <= n - m
        invariant
            n == s@.len(),
            m == sub@.len(),
            m <= n,
            i <= n - m + 1,
            forall|k: int| 0 <= k < i ==> !occurs_at(s@, sub@, k),
        decreases n - m + 1 - i,
    {
        let mut j: usize = 0;
        let mut same = true;
        while j < m
            invariant
                n == s@.len(),
                m == sub@.len(),
                i + m <= n,
                j <= m,
                same == (forall|k: int| 0 <= k < j ==> s@[i + k] == sub@[k]),
            decreases m - j,
        {
            if s[i + j] != sub[j] {
                same = false;
            }
            j = j + 1;
        }
        if same {
            assert(s@.subrange(i as int, i + m) =~= sub@);
            assert(occurs_at(s@, sub@, i as int));
            return true;
        }
        assert(!occurs_at(s@, sub@, i as int)) by {
            let k = choose|k: int| 0 <= k < m && s@[i + k] != sub@[k];
            assert(s@.subrange(i as int, i + m)[k] == s@[i + k]);
        }
        i = i + 1;
    }
    assert forall|k: int| !occurs_at(s@, sub@, k) by {
        if occurs_at(s@, sub@, k) {
            assert(k < i);
        }
    }
    false
}

/// The character sequences of a list of character vectors.
pub open spec fn char_views(v: Seq<Vec<char>>) -> Seq<Seq<char>> {
    v.map_values(|x: Vec<char>| x@)
}

/// The words of `s`.
fn words_exec(s: &Vec<char>) -> (r: Vec<Vec<char>>)
    ensures
        char_views(r@) == words(s@),
{
    let n = s.len();
    let mut res: Vec<Vec<char>> = Vec::new();
    let mut cur: Vec<char> = Vec::new();
    let mut in_word = false;
    let mut i: usize = 0;
    while i < n
        invariant
            n == s@.len(),
            i <= n,
            in_word == (i > 0 && !is_white(s@[i - 1])),
            in_word ==> words(s@.take(i as int)).len() > 0,
            in_word ==> char_views(res@).push(cur@) == words(s@.take(i as int)),
            !in_word ==> char_views(res@) == words(s@.take(i as int)),
        decreases n - i,
    {
        let c = s[i];
        let ghost t = s@.take(i + 1);
        proof {
            assert(t.drop_last() =~= s@.take(i as int));
            assert(t.last() == c);
            if i >= 1 {
                assert(t[t.len() - 2] == s@[i - 1]);
            }
        }
        if is_white_exec(c) {
            if in_word {
                let ghost before = char_views(res@);
                let w = cur;
                cur = Vec::new();
                res.push(w);
                assert(char_views(res@) =~= before.push(w@));
            }
            in_word = false;
        } else {
            if in_word {
                proof {
                    let w = words(s@.take(i as int));
                    assert(w.update(w.len() - 1, w.last().push(c)) =~= char_views(res@).push(cur@.push(c)));
                }
                cur.push(c);
            } else {
                proof {
                    let w = words(s@.take(i as int));
                    assert(w.push(seq![c]) =~= char_views(res@).push(seq![c]));
                }
                cur = Vec::new();
                cur.push(c);
                assert(cur@ =~= seq![c]);
            }
            in_word = true;
        }
        i = i + 1;
    }
    assert(s@.take(n as int) =~= s@);
    if in_word {
        let ghost before = char_views(res@);
        res.push(cur);
        assert(char_views(res@) =~= before.push(cur@));
    }
    res
}

/// The part of `t` before its first `/`.
fn cut_at_slash(t: &Vec<char>) -> (r: Vec<char>)
    ensures
        r@ == before_slash(t@),
{
    let mut r: Vec<char> = Vec::new();
    let mut i: usize = 0;
    while i < t.len() && t[i] != '/'
        invariant
            i <= t.len(),
            r@ == t@.take(i as int),
            forall|j: int| 0 <= j < i ==> t@[j] != '/',
        decreases t.len() - i,
    {
        r.push(t[i]);
        assert(t@.take(i + 1) =~= t@.take(i as int).push(t@[i as int]));
        i = i + 1;
    }
    proof {
        assert(slash_cut(t@, i as int));
        let k = choose|k: int| slash_cut(t@, k);
        if k < i {
            assert(t@[k] == '/');
        } else if i < k {
            assert(t@[i as int] == '/');
        }
    }
    r
}

fn has_dot(w: &Vec<char>) -> (r: bool)
    ensures
        r == w@.contains('.'),
{
    let mut i: usize = 0;
    while i < w.len()
        invariant
            i <= w.len(),
            forall|j: int| 0 <= j < i ==> w@[j] != '.',
        decreases w.len() - i,
    {
        if w[i] == '.' {
            return true;
        }
        i = i + 1;
    }
    false
}

/// The address on one lease line.
fn address_on_line(line: &Vec<char>, mac: &Vec<char>) -> (r: Option<Vec<char>>)
    ensures
        match r {
            Some(a) => line_address(line@, mac@) == Some(a@),
            None => line_address(line@, mac@) is None,
        },
{
    let found = occurs_exec(line, mac);
    if !found {
        return None;
    }
    let ws = words_exec(line);
    let ghost all = char_views(ws@);
    assert(all.skip(0) =~= all);
    let mut i: usize = 0;
    while i < ws.len()
        invariant
            char_views(ws@) == all,
            all == words(line@),
            occurs(line@, mac@),
            i <= ws.len(),
            first_dotted(all) == first_dotted(all.skip(i as int)),
        decreases ws.len() - i,
    {
        let ghost rest = all.skip(i as int);
        assert(rest[0] == ws@[i as int]@);
        assert(rest.drop_first() =~= all.skip(i + 1));
        if has_dot(&ws[i]) {
            assert(first_dotted(rest) == Some(ws@[i as int]@));
            let a = cut_at_slash(&ws[i]);
            assert(words(line@) == all);
            assert(occurs(line@, mac@));
            return Some(a);
        }
        i = i + 1;
    }
    assert(all.skip(i as int).len() == 0);
    None
}

/// The IPv4 address that the lease table `output` gives for the interface
/// with MAC address `mac`: on the first line that holds `mac` and a word
/// with a `.`, that word up to its first `/`.
pub fn find_ipv4_in_leases(output: &str, mac: &str) -> (r: Option<String>)
    ensures
        match r {
            Some(a) => lease_address(output@, mac@) == Some(a@),
            None => lease_address(output@, mac@) is None,
        },
{
    let lines = nonempty_lines_of(output);
    let m = chars_of(mac);
    let ghost all = lines.deep_view();
    assert(all.skip(0) =~= all);
    let mut i: usize = 0;
    while i < lines.len()
        invariant
            lines.deep_view() == all,
            all == nonempty_lines(output@),
            m@ == mac@,
            i <= lines.len(),
            first_address(all, mac@) == first_address(all.skip(i as int), mac@),
        decreases lines.len() - i,
    {
        let ghost rest = all.skip(i as int);
        assert(rest[0] == lines@[i as int]@);
        assert(rest.drop_first() =~= all.skip(i + 1));
        let line = chars_of(lines[i].as_str());
        match address_on_line(&line, &m) {
            Some(a) => {
                return Some(string_from_chars(&a));
            },
            None => {},
        }
        i = i + 1;
    }
    assert(all.skip(i as int).len() == 0);
    None
}

/// Whether the search for a lease goes on after `elapsed_nanos` nanoseconds:
/// while less time than `timeout_secs` seconds has passed.
pub fn polling_continues(elapsed_nanos: u128, timeout_secs: u64) -> (r: bool)
    ensures
        r == (elapsed_nanos < timeout_secs as int * 1_000_000_000),
{
    elapsed_nanos < (timeout_secs as u128) * 1_000_000_000
}

} // verus!
