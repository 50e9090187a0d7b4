//! Text handling: what counts as whitespace, and trimming a line.

use vstd::prelude::*;
use vstd::string::*;

verus! {

/// Whether `c` is a whitespace character: one of the code points that
/// Unicode marks as `White_Space`. The line terminators are among them.
pub open spec fn is_space(c: char) -> bool {
    let n = c as u32;
    ||| 0x09 <= n <= 0x0D
    ||| n == 0x20
    ||| n == 0x85
    ||| n == 0xA0
    ||| n == 0x1680
    ||| 0x2000 <= n <= 0x200A
    ||| n == 0x2028
    ||| n == 0x2029
    ||| n == 0x202F
    ||| n == 0x205F
    ||| n == 0x3000
}

/// `s` without its leading whitespace.
pub open spec fn trim_start(s: Seq<char>) -> Seq<char>
    decreases s.len(),
{
    if s.len() > 0 && is_space(s.first()) {
        trim_start(s.drop_first())
    } else {
        s
    }
}

/// `s` without its trailing whitespace.
pub open spec fn trim_end(s: Seq<char>) -> Seq<char>
    decreases s.len(),
{
    if s.len() > 0 && is_space(s.last()) {
        trim_end(s.drop_last())
    } else {
        s
    }
}

/// `s` without the whitespace at either end. What lies between two
/// characters that are not whitespace is kept as it is.
pub open spec fn trimmed(s: Seq<char>) -> Seq<char> {
    trim_end(trim_start(s))
}

/// Whether every character of `s` from `from` up to `to` is whitespace.
pub open spec fn all_space(s: Seq<char>, from: int, to: int) -> bool {
    forall|i: int| from <= i < to ==> is_space(#[trigger] s[i])
}

/// Whether `s` neither starts nor ends with whitespace.
pub open spec fn is_trim(s: Seq<char>) -> bool {
    s.len() > 0 ==> !is_space(s.first()) && !is_space(s.last())
}

proof fn lemma_trim_start_cut(s: Seq<char>, a: int)
    requires
        0 <= a <= s.len(),
        all_space(s, 0, a),
        a < s.len() ==> !is_space(s[a]),
    ensures
        trim_start(s) == s.subrange(a, s.len() as int),
    decreases a,
{
    if a == 0 {
        assert(s.subrange(0, s.len() as int) =~= s);
    } else {
        let t = s.drop_first();
        assert(is_space(s[0]));
        assert forall|i: int| 0 <= i < a - 1 implies is_space(#[trigger] t[i]) by {
            assert(t[i] == s[i + 1]);
        }
        lemma_trim_start_cut(t, a - 1);
        assert(t.subrange(a - 1, t.len() as int) =~= s.subrange(a, s.len() as int));
    }
}

proof fn lemma_trim_end_cut(s: Seq<char>, b: int)
    requires
        0 <= b <= s.len(),
        all_space(s, b, s.len() as int),
        b > 0 ==> !is_space(s[b - 1]),
    ensures
        trim_end(s) == s.subrange(0, b),
    decreases s.len() - b,
{
    if b == s.len() {
        assert(s.subrange(0, b) =~= s);
    } else {
        let t = s.drop_last();
        assert(is_space(s[s.len() - 1]));
        assert forall|i: int| b <= i < t.len() implies is_space(#[trigger] t[i]) by {
            assert(t[i] == s[i]);
        }
        lemma_trim_end_cut(t, b);
        assert(t.subrange(0, b) =~= s.subrange(0, b));
    }
}

/// Trimming cuts `s` down to the stretch between its first and its last
/// character that is not whitespace: if whitespace is all there is before
/// `a` and from `b` on, and none stands at `a` or just before `b`, the
/// trimmed text runs from `a` to `b`.
pub proof fn lemma_trimmed_cut(s: Seq<char>, a: int, b: int)
    requires
        0 <= a <= b <= s.len(),
        all_space(s, 0, a),
        all_space(s, b, s.len() as int),
        a < b ==> !is_space(s[a]) && !is_space(s[b - 1]),
        a == b ==> b == s.len(),
    ensures
        trimmed(s) == s.subrange(a, b),
{
    lemma_trim_start_cut(s, a);
    let t = s.subrange(a, s.len() as int);
    assert forall|i: int| b - a <= i < t.len() implies is_space(#[trigger] t[i]) by {
        assert(t[i] == s[i + a]);
    }
    lemma_trim_end_cut(t, b - a);
    assert(t.subrange(0, b - a) =~= s.subrange(a, b));
}

/// Text that neither starts nor ends with whitespace is its own trimmed
/// form.
pub proof fn lemma_trimmed_fixed(s: Seq<char>)
    requires
        is_trim(s),
    ensures
        trimmed(s) == s,
{
    lemma_trimmed_cut(s, 0, s.len() as int);
    assert(s.subrange(0, s.len() as int) =~= s);
}

/// Whitespace around a text counts for nothing: where `left` and `right`
/// are whitespace and `core` neither starts nor ends with whitespace, the
/// three in a row trim to `core`.
pub proof fn lemma_trimmed_padded(left: Seq<char>, core: Seq<char>, right: Seq<char>)
    requires
        all_space(left, 0, left.len() as int),
        all_space(right, 0, right.len() as int),
        is_trim(core),
    ensures
        trimmed(left + core + right) == core,
{
    let s = left + core + right;
    let a = left.len() as int;
    let b = a + core.len();
    if core.len() == 0 {
        assert forall|i: int| 0 <= i < s.len() implies is_space(#[trigger] s[i]) by {
            if i < a {
                assert(s[i] == left[i]);
            } else {
                assert(s[i] == right[i - a]);
            }
        }
        lemma_trimmed_cut(s, s.len() as int, s.len() as int);
        assert(s.subrange(s.len() as int, s.len() as int) =~= core);
    } else {
        assert forall|i: int| 0 <= i < a implies is_space(#[trigger] s[i]) by {
            assert(s[i] == left[i]);
        }
        assert forall|i: int| b <= i < s.len() implies is_space(#[trigger] s[i]) by {
            assert(s[i] == right[i - b]);
        }
        assert(s[a] == core.first());
        assert(s[b - 1] == core.last());
        lemma_trimmed_cut(s, a, b);
        assert(s.subrange(a, b) =~= core);
    }
}

proof fn lemma_trim_start_head(s: Seq<char>)
    ensures
        trim_start(s).len() > 0 ==> !is_space(trim_start(s).first()),
    decreases s.len(),
{
    if s.len() > 0 && is_space(s.first()) {
        lemma_trim_start_head(s.drop_first());
    }
}

proof fn lemma_trim_end_tail(s: Seq<char>)
    ensures
        trim_end(s).len() > 0 ==> !is_space(trim_end(s).last()),
        trim_end(s).len() <= s.len(),
        trim_end(s) == s.take(trim_end(s).len() as int),
    decreases s.len(),
{
    if s.len() > 0 && is_space(s.last()) {
        let t = s.drop_last();
        lemma_trim_end_tail(t);
        assert(t.take(trim_end(t).len() as int) =~= s.take(trim_end(t).len() as int));
    } else {
        assert(s.take(s.len() as int) =~= s);
    }
}

/// Trimmed text neither starts nor ends with whitespace, so that trimming
/// it once more changes nothing.
pub proof fn lemma_trimmed_is_trim(s: Seq<char>)
    ensures
        is_trim(trimmed(s)),
        trimmed(trimmed(s)) == trimmed(s),
{
    let t = trim_start(s);
    lemma_trim_start_head(s);
    lemma_trim_end_tail(t);
    if trimmed(s).len() > 0 {
        assert(trimmed(s).first() == t.first());
    }
    lemma_trimmed_fixed(trimmed(s));
}

/// Decides whether `c` is a whitespace character.
pub fn char_is_space(c: char) -> (b: bool)
    ensures
        b == is_space(c),
{
    let n: u32 = c as u32;
    (0x09 <= n && n <= 0x0D) || n == 0x20 || n == 0x85 || n == 0xA0 || n == 0x1680 || (0x2000 <= n
        && n <= 0x200A) || n == 0x2028 || n == 0x2029 || n == 0x202F || n == 0x205F || n == 0x3000
}

/// The characters of `s`, in order.
pub fn chars_of(s: &str) -> (v: Vec<char>)
    ensures
        v@ == s@,
{
    let mut v: Vec<char> = Vec::new();
    for c in it: s.chars()
        invariant
            it.seq() == s@,
            v@ == s@.take(it.index() as int),
    {
        v.push(c);
    }
    v
}

/// Removes the whitespace at both ends of `s`. The result neither starts
/// nor ends with whitespace, and trimming it again changes nothing.
pub fn trim(s: &str) -> (r: &str)
    ensures
        r@ == trimmed(s@),
        is_trim(r@),
        trimmed(r@) == r@,
{
    let chars = chars_of(s);
    let n: usize = chars.len();
    let mut a: usize = 0;
    while a < n && char_is_space(chars[a])
        invariant
            a <= n == chars@.len(),
            all_space(chars@, 0, a as int),
        decreases n - a,
    {
        a += 1;
    }
    let mut b: usize = n;
    while b > a && char_is_space(chars[b - 1])
        invariant
            a <= b <= n == chars@.len(),
            all_space(chars@, b as int, n as int),
        decreases b,
    {
        b -= 1;
    }
    let r = s.substring_char(a, b);
    proof {
        lemma_trimmed_cut(s@, a as int, b as int);
        lemma_trimmed_fixed(r@);
    }
    r
}

} // verus!
