//! Character-level helpers shared by the rest of the library.

use vstd::prelude::*;

verus! {

/// Collects the characters of a string slice into a vector.
pub fn chars_of(s: &str) -> (v: Vec<char>)
    ensures
        v@ == s@,
{
    let n = s.unicode_len();
    let mut v: Vec<char> = Vec::new();
    let mut i: usize = 0;
    while i < n
        invariant
            n == s@.len(),
            i <= n,
            v@ == s@.take(i as int),
        decreases n - i,
    {
        let c = s.get_char(i);
        v.push(c);
        assert(s@.take(i + 1) =~= s@.take(i as int).push(c));
        i = i + 1;
    }
    assert(s@.take(n as int) =~= s@);
    v
}

/// Builds a `String` out of a vector of characters
/// (std's `FromIterator<&char>` for `String`).
#[verifier::external_body]
pub(crate) fn string_from_chars(v: &Vec<char>) -> (s: String)
    ensures
        s@ == v@,
{
    v.iter().collect()
}

/// Appends one character to a `String` (std's `String::push`).
#[verifier::external_body]
pub(crate) fn push_char(s: &mut String, c: char)
    ensures
        final(s)@ == old(s)@.push(c),
{
    s.push(c)
}

/// Appends a string slice to a `String`.
pub fn push_str(s: &mut String, t: &str)
    ensures
        final(s)@ == old(s)@ + t@,
{
    s.append(t);
}

/// Compares two string slices character by character.
pub fn str_eq(a: &str, b: &str) -> (r: bool)
    ensures
        r == (a@ == b@),
{
    let va = chars_of(a);
    let vb = chars_of(b);
    if va.len() != vb.len() {
        return false;
    }
    let mut i: usize = 0;
    while i < va.len()
        invariant
            va@ == a@,
            vb@ == b@,
            va.len() == vb.len(),
            i <= va.len(),
            forall|j: int| 0 <= j < i ==> va@[j] == vb@[j],
        decreases va.len() - i,
    {
        if va[i] != vb[i] {
            return false;
        }
        i = i + 1;
    }
    assert(va@ =~= vb@);
    true
}

/// The pieces of `s` between occurrences of `sep`, as `str::split` yields them:
/// always at least one piece, empty pieces kept.
pub open spec fn split_on(s: Seq<char>, sep: char) -> Seq<Seq<char>>
    decreases s.len(),
{
    if s.len() == 0 {
        seq![Seq::<char>::empty()]
    } else {
        let parts = split_on(s.drop_last(), sep);
        if s.last() == sep {
            parts.push(Seq::<char>::empty())
        } else {
            parts.update(parts.len() - 1, parts.last().push(s.last()))
        }
    }
}

pub proof fn lemma_split_on_nonempty(s: Seq<char>, sep: char)
    ensures
        split_on(s, sep).len() >= 1,
    decreases s.len(),
{
    if s.len() > 0 {
        lemma_split_on_nonempty(s.drop_last(), sep);
    }
}

/// Splitting a longer prefix of `s` keeps every piece that was already closed
/// by a separator, and keeps at least as many pieces.
pub proof fn lemma_split_on_prefix(s: Seq<char>, sep: char, k: int, m: int)
    requires
        0 <= k <= m <= s.len(),
    ensures
        split_on(s.take(k), sep).len() <= split_on(s.take(m), sep).len(),
        forall|j: int|
            0 <= j < split_on(s.take(k), sep).len() - 1 ==> #[trigger] split_on(s.take(m), sep)[j]
                == split_on(s.take(k), sep)[j],
    decreases m - k,
{
    if k < m {
        lemma_split_on_prefix(s, sep, k, m - 1);
        assert(s.take(m).drop_last() =~= s.take(m - 1));
        lemma_split_on_nonempty(s.take(m - 1), sep);
    }
}

pub open spec fn has_no(x: Seq<char>, sep: char) -> bool {
    forall|i: int| 0 <= i < x.len() ==> x[i] != sep
}

pub proof fn lemma_split_on_single(x: Seq<char>, sep: char)
    requires
        has_no(x, sep),
    ensures
        split_on(x, sep) == seq![x],
    decreases x.len(),
{
    if x.len() > 0 {
        lemma_split_on_single(x.drop_last(), sep);
        assert(x[x.len() - 1] != sep);
        assert(x.drop_last().push(x.last()) =~= x);
        assert(seq![x.drop_last()].update(0, x.drop_last().push(x.last())) =~= seq![x]);
    } else {
        assert(x =~= Seq::<char>::empty());
    }
}

pub proof fn lemma_split_on_append(p: Seq<char>, x: Seq<char>, sep: char)
    requires
        has_no(x, sep),
    ensures
        split_on(p + seq![sep] + x, sep) == split_on(p, sep).push(x),
    decreases x.len(),
{
    if x.len() == 0 {
        assert((p + seq![sep] + x).drop_last() =~= p);
        assert(p + seq![sep] + x =~= p.push(sep));
        assert(x =~= Seq::<char>::empty());
    } else {
        lemma_split_on_append(p, x.drop_last(), sep);
        let whole = p + seq![sep] + x;
        assert(whole.drop_last() =~= p + seq![sep] + x.drop_last());
        assert(whole.last() == x.last());
        assert(x[x.len() - 1] != sep);
        let parts = split_on(p, sep).push(x.drop_last());
        assert(x.drop_last().push(x.last()) =~= x);
        assert(parts.update(parts.len() - 1, parts.last().push(x.last())) =~= split_on(p, sep).push(
            x,
        ));
    }
}


/// A line with one trailing carriage return removed.
pub open spec fn strip_cr(l: Seq<char>) -> Seq<char> {
    if l.len() > 0 && l.last() == '\r' {
        l.drop_last()
    } else {
        l
    }
}

pub open spec fn is_nonempty(l: Seq<char>) -> bool {
    l.len() > 0
}

/// The non-empty lines of a text, as `str::lines` splits it: every line that a
/// newline ends loses that newline and one carriage return before it; a last
/// line without a newline is kept as it is.
pub open spec fn nonempty_lines(s: Seq<char>) -> Seq<Seq<char>> {
    let parts = split_on(s, '\n');
    let closed = parts.drop_last().map_values(|l: Seq<char>| strip_cr(l)).filter(
        |l: Seq<char>| is_nonempty(l),
    );
    if parts.last().len() > 0 {
        closed.push(parts.last())
    } else {
        closed
    }
}

pub proof fn lemma_filter_push<A>(s: Seq<A>, x: A, p: spec_fn(A) -> bool)
    ensures
        s.push(x).filter(p) == (if p(x) {
            s.filter(p).push(x)
        } else {
            s.filter(p)
        }),
{
    reveal(Seq::filter);
    assert(s.push(x).drop_last() =~= s);
}

/// The non-empty lines of a text, each as its own `String`.
pub fn nonempty_lines_of(text: &str) -> (r: Vec<String>)
    ensures
        r.deep_view() == nonempty_lines(text@),
{
    let chars = chars_of(text);
    let n = chars.len();
    let ghost s = text@;
    let mut cur: Vec<char> = Vec::new();
    let mut res: Vec<String> = Vec::new();
    let mut i: usize = 0;
    proof {
        assert(s.take(0) =~= Seq::<char>::empty());
        reveal(Seq::filter);
        assert(split_on(s.take(0), '\n').drop_last() =~= Seq::<Seq<char>>::empty());
        assert(res.deep_view() =~= Seq::<Seq<char>>::empty().map_values(|l: Seq<char>| strip_cr(l)).filter(
            |l: Seq<char>| is_nonempty(l),
        ));
    }
    while i < n
        invariant
            chars@ == s,
            s == text@,
            n == s.len(),
            i <= n,
            cur@ == split_on(s.take(i as int), '\n').last(),
            res.deep_view() == split_on(s.take(i as int), '\n').drop_last().map_values(
                |l: Seq<char>| strip_cr(l),
            ).filter(|l: Seq<char>| is_nonempty(l)),
        decreases n - i,
    {
        let c = chars[i];
        let ghost before = split_on(s.take(i as int), '\n');
        proof {
            assert(s.take(i + 1).drop_last() =~= s.take(i as int));
            assert(s.take(i + 1).last() == c);
            lemma_split_on_nonempty(s.take(i as int), '\n');
        }
        if c == '\n' {
            let ghost line = cur@;
            if cur.len() > 0 && cur[cur.len() - 1] == '\r' {
                cur.pop();
            }
            assert(cur@ =~= strip_cr(line));
            let ghost old_res = res.deep_view();
            if cur.len() > 0 {
                let l = string_from_chars(&cur);
                res.push(l);
                assert(res.deep_view() =~= old_res.push(cur@));
            }
            cur = Vec::new();
            proof {
                let after = split_on(s.take(i + 1), '\n');
                assert(after == before.push(Seq::<char>::empty()));
                assert(after.drop_last() =~= before);
                let f = |l: Seq<char>| strip_cr(l);
                let p = |l: Seq<char>| is_nonempty(l);
                assert(before.map_values(f) =~= before.drop_last().map_values(f).push(strip_cr(line)));
                lemma_filter_push(before.drop_last().map_values(f), strip_cr(line), p);
                assert(cur@ =~= after.last());
            }
        } else {
            cur.push(c);
            proof {
                let after = split_on(s.take(i + 1), '\n');
                assert(after == before.update(before.len() - 1, before.last().push(c)));
                assert(after.drop_last() =~= before.drop_last());
                assert(cur@ =~= after.last());
            }
        }
        i = i + 1;
    }
    proof {
        assert(s.take(n as int) =~= s);
    }
    if cur.len() > 0 {
        let l = string_from_chars(&cur);
        let ghost old_res = res.deep_view();
        res.push(l);
        assert(res.deep_view() =~= old_res.push(cur@));
    }
    res
}


/// An owned copy of a string slice.
pub fn owned(s: &str) -> (r: String)
    ensures
        r@ == s@,
{
    String::from_str(s)
}


/// The decimal digit for a value below ten.
pub open spec fn decimal_digit(d: nat) -> char {
    ((('0' as u8) as nat + d) as u8) as char
}

/// The decimal notation of a number, without leading zeros.
pub open spec fn decimal_text(n: nat) -> Seq<char>
    decreases n,
{
    if n < 10 {
        seq![decimal_digit(n)]
    } else {
        decimal_text(n / 10).push(decimal_digit(n % 10))
    }
}

/// Appends the decimal notation of `n`.
pub fn push_decimal(s: &mut String, n: u64)
    ensures
        final(s)@ == old(s)@ + decimal_text(n as nat),
    decreases n,
{
    if n >= 10 {
        push_decimal(s, n / 10);
    }
    let d: u8 = (n % 10) as u8;
    let c: char = (('0' as u8) + d) as char;
    push_char(s, c);
    assert(final(s)@ =~= old(s)@ + decimal_text(n as nat));
}

/// The decimal notation of `n`.
pub fn u64_to_decimal(n: u64) -> (r: String)
    ensures
        r@ == decimal_text(n as nat),
{
    let mut s = String::new();
    push_decimal(&mut s, n);
    assert(s@ =~= decimal_text(n as nat));
    s
}

/// Concatenates string slices.
pub fn concat3(a: &str, b: &str, c: &str) -> (r: String)
    ensures
        r@ == a@ + b@ + c@,
{
    let mut s = owned(a);
    push_str(&mut s, b);
    push_str(&mut s, c);
    s
}


/// The decimal notation of an integer, with a leading `-` when negative.
pub open spec fn int_text(n: int) -> Seq<char> {
    if n < 0 {
        seq!['-'] + decimal_text((-n) as nat)
    } else {
        decimal_text(n as nat)
    }
}

/// The decimal notation of `n`, as `i64::to_string` writes it.
pub fn i64_to_decimal(n: i64) -> (r: String)
    ensures
        r@ == int_text(n as int),
{
    if n < 0 {
        let magnitude: u64 = if n == i64::MIN {
            9223372036854775808u64
        } else {
            (-n) as u64
        };
        let mut s = String::new();
        push_char(&mut s, '-');
        push_decimal(&mut s, magnitude);
        assert(s@ =~= int_text(n as int));
        s
    } else {
        u64_to_decimal(n as u64)
    }
}

} // verus!
