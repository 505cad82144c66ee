//! Small string operations on URLs and markup: trimming white space,
//! stripping trailing characters and taking path segments.

use vstd::prelude::*;
use vstd::string::StrSliceExecFns;

verus! {

/// Whether `c` has the Unicode `White_Space` property (what `char::is_whitespace` tests).
pub open spec fn is_white_space(c: char) -> bool {
    ||| ('\u{9}' <= c && c <= '\u{d}')
    ||| c == ' '
    ||| c == '\u{85}'
    ||| c == '\u{a0}'
    ||| c == '\u{1680}'
    ||| ('\u{2000}' <= c && c <= '\u{200a}')
    ||| c == '\u{2028}'
    ||| c == '\u{2029}'
    ||| c == '\u{202f}'
    ||| c == '\u{205f}'
    ||| c == '\u{3000}'
}

/// Tests whether `c` is white space.
pub fn char_is_white_space(c: char) -> (res: bool)
    ensures
        res == is_white_space(c),
{
    ('\u{9}' <= c && c <= '\u{d}') || c == ' ' || c == '\u{85}' || c == '\u{a0}' || c == '\u{1680}'
        || ('\u{2000}' <= c && c <= '\u{200a}') || c == '\u{2028}' || c == '\u{2029}' || c == '\u{202f}'
        || c == '\u{205f}' || c == '\u{3000}'
}

/// The characters of `s`, in order.
pub fn chars_of(s: &str) -> (v: Vec<char>)
    ensures
        v@ == s@,
{
    let mut v: Vec<char> = Vec::new();
    for c in it: s.chars()
        invariant
            v@ == it.seq().take(it.index() as int),
    {
        v.push(c);
    }
    v
}

/// `s` without its leading white space.
pub open spec fn trim_start_white(s: Seq<char>) -> Seq<char>
    decreases s.len(),
{
    if s.len() > 0 && is_white_space(s[0]) {
        trim_start_white(s.drop_first())
    } else {
        s
    }
}

/// `s` without its trailing characters that satisfy `strip`.
pub open spec fn trim_end_by(s: Seq<char>, strip: spec_fn(char) -> bool) -> Seq<char>
    decreases s.len(),
{
    if s.len() > 0 && strip(s.last()) {
        trim_end_by(s.drop_last(), strip)
    } else {
        s
    }
}

/// The test for white space, as a function.
pub open spec fn white_space_test() -> spec_fn(char) -> bool {
    |c: char| is_white_space(c)
}

/// The test for the character `c`, as a function.
pub open spec fn char_test(c: char) -> spec_fn(char) -> bool {
    |d: char| d == c
}

/// `s` without leading and trailing white space (what `str::trim` gives).
pub open spec fn trimmed(s: Seq<char>) -> Seq<char> {
    trim_end_by(trim_start_white(s), white_space_test())
}

/// `s` without its trailing `c` characters (what `str::trim_end_matches(c)` gives).
pub open spec fn trim_end_char(s: Seq<char>, c: char) -> Seq<char> {
    trim_end_by(s, char_test(c))
}

proof fn lemma_trim_start_white(s: Seq<char>, k: int)
    requires
        0 <= k <= s.len(),
        forall|i: int| 0 <= i < k ==> is_white_space(#[trigger] s[i]),
        k == s.len() || !is_white_space(s[k]),
    ensures
        trim_start_white(s) == s.subrange(k, s.len() as int),
    decreases k,
{
    if k == 0 {
        assert(s.subrange(0, s.len() as int) =~= s);
    } else {
        let t = s.drop_first();
        assert forall|i: int| 0 <= i < k - 1 implies is_white_space(#[trigger] t[i]) by {
            assert(t[i] == s[i + 1]);
        }
        if k - 1 < t.len() {
            assert(t[k - 1] == s[k]);
        }
        lemma_trim_start_white(t, k - 1);
        assert(t.subrange(k - 1, t.len() as int) =~= s.subrange(k, s.len() as int));
    }
}

proof fn lemma_trim_end_by(s: Seq<char>, strip: spec_fn(char) -> bool, k: int)
    requires
        0 <= k <= s.len(),
        forall|i: int| k <= i < s.len() ==> strip(#[trigger] s[i]),
        k == 0 || !strip(s[k - 1]),
    ensures
        trim_end_by(s, strip) == s.subrange(0, k),
    decreases s.len() - k,
{
    if k == s.len() {
        assert(s.subrange(0, k) =~= s);
    } else {
        let t = s.drop_last();
        assert forall|i: int| k <= i < t.len() implies strip(#[trigger] t[i]) by {
            assert(t[i] == s[i]);
        }
        if k > 0 {
            assert(t[k - 1] == s[k - 1]);
        }
        assert(strip(s[s.len() - 1]));
        lemma_trim_end_by(t, strip, k);
        assert(t.subrange(0, k) =~= s.subrange(0, k));
    }
}

/// The index of the first character of `v` that is not white space, or its length.
fn first_non_white(v: &Vec<char>) -> (k: usize)
    ensures
        k <= v.len(),
        forall|i: int| 0 <= i < k ==> is_white_space(#[trigger] v@[i]),
        k == v.len() || !is_white_space(v@[k as int]),
{
    let mut k: usize = 0;
    while k < v.len()
        invariant
            k <= v.len(),
            forall|i: int| 0 <= i < k ==> is_white_space(#[trigger] v@[i]),
        decreases v.len() - k,
    {
        if !char_is_white_space(v[k]) {
            return k;
        }
        k = k + 1;
    }
    k
}

/// The end of `v[..end]` once its trailing white space is removed.
fn end_without_white(v: &Vec<char>, start: usize) -> (k: usize)
    requires
        start <= v.len(),
    ensures
        start <= k <= v.len(),
        forall|i: int| k <= i < v.len() ==> is_white_space(#[trigger] v@[i]),
        k == start || !is_white_space(v@[k - 1]),
{
    let mut k: usize = v.len();
    while k > start
        invariant
            start <= k <= v.len(),
            forall|i: int| k <= i < v.len() ==> is_white_space(#[trigger] v@[i]),
        decreases k,
    {
        if !char_is_white_space(v[k - 1]) {
            return k;
        }
        k = k - 1;
    }
    k
}

/// `s` without leading and trailing white space.
pub fn trim(s: &str) -> (res: &str)
    ensures
        res@ == trimmed(s@),
{
    let v = chars_of(s);
    let start = first_non_white(&v);
    let end = end_without_white(&v, start);
    proof {
        lemma_trim_start_white(s@, start as int);
        let t = s@.subrange(start as int, s@.len() as int);
        let k = end - start;
        assert forall|i: int| k <= i < t.len() implies is_white_space(#[trigger] t[i]) by {
            assert(t[i] == s@[i + start]);
        }
        if k > 0 {
            assert(t[k - 1] == s@[end - 1]);
        }
        lemma_trim_end_by(t, white_space_test(), k as int);
        assert(t.subrange(0, k as int) =~= s@.subrange(start as int, end as int));
    }
    s.substring_char(start, end)
}

/// Whether `s` is empty once trimmed, that is, holds only white space.
pub fn is_blank(s: &str) -> (res: bool)
    ensures
        res == (trimmed(s@).len() == 0),
{
    let v = chars_of(s);
    let start = first_non_white(&v);
    proof {
        lemma_trim_start_white(s@, start as int);
        let t = s@.subrange(start as int, s@.len() as int);
        if start < v.len() {
            assert(t[0] == s@[start as int]);
            lemma_trim_end_nonempty(t, white_space_test());
        } else {
            assert(t.len() == 0);
        }
    }
    start == v.len()
}

proof fn lemma_trim_end_nonempty(t: Seq<char>, strip: spec_fn(char) -> bool)
    requires
        t.len() > 0,
        !strip(t[0]),
    ensures
        trim_end_by(t, strip).len() > 0,
    decreases t.len(),
{
    if strip(t.last()) {
        assert(t.len() > 1);
        assert(t.drop_last()[0] == t[0]);
        lemma_trim_end_nonempty(t.drop_last(), strip);
    }
}

/// `s` without its trailing `c` characters.
pub fn trim_end_matches_char(s: &str, c: char) -> (res: &str)
    ensures
        res@ == trim_end_char(s@, c),
{
    let v = chars_of(s);
    let mut k: usize = v.len();
    while k > 0 && v[k - 1] == c
        invariant
            k <= v.len(),
            v@ == s@,
            forall|i: int| k <= i < v.len() ==> #[trigger] v@[i] == c,
        decreases k,
    {
        k = k - 1;
    }
    proof {
        let f = char_test(c);
        assert forall|i: int| k <= i < s@.len() implies f(#[trigger] s@[i]) by {}
        lemma_trim_end_by(s@, f, k as int);
    }
    s.substring_char(0, k)
}

/// The part of `s` after its last `c` (all of `s` when it holds no `c`):
/// what `s.rsplitn(2, c).next()` gives.
pub open spec fn after_last(s: Seq<char>, c: char) -> Seq<char>
    decreases s.len(),
{
    if s.len() == 0 {
        s
    } else if s.last() == c {
        Seq::empty()
    } else {
        after_last(s.drop_last(), c).push(s.last())
    }
}

/// The part of `s` before its last `c`, if it holds one.
pub open spec fn before_last(s: Seq<char>, c: char) -> Option<Seq<char>>
    decreases s.len(),
{
    if s.len() == 0 {
        None
    } else if s.last() == c {
        Some(s.drop_last())
    } else {
        before_last(s.drop_last(), c)
    }
}

/// The segment before the last `/` of `s`, between the two last slashes (the
/// empty text when `s` holds no `/`): what `s.split('/')` gives when its last
/// item is dropped and the next from the back is taken, or `""`.
pub open spec fn second_last_segment(s: Seq<char>) -> Seq<char> {
    match before_last(s, '/') {
        Some(prefix) => after_last(prefix, '/'),
        None => Seq::empty(),
    }
}

proof fn lemma_split_at_last(s: Seq<char>, c: char, end: int, found: Option<int>)
    requires
        0 <= end <= s.len(),
        match found {
            Some(i) => {
                &&& 0 <= i < end
                &&& s[i] == c
                &&& forall|j: int| i < j < end ==> s[j] != c
            },
            None => forall|j: int| 0 <= j < end ==> s[j] != c,
        },
    ensures
        after_last(s.take(end), c) == match found {
            Some(i) => s.subrange(i + 1, end),
            None => s.take(end),
        },
        before_last(s.take(end), c) == match found {
            Some(i) => Some(s.take(i)),
            None => None::<Seq<char>>,
        },
    decreases end,
{
    let t = s.take(end);
    if end > 0 {
        assert(t.drop_last() =~= s.take(end - 1));
        assert(t.last() == s[end - 1]);
        match found {
            Some(i) => {
                if i == end - 1 {
                    assert(s.subrange(i + 1, end) =~= Seq::<char>::empty());
                } else {
                    lemma_split_at_last(s, c, end - 1, found);
                    assert(s.subrange(i + 1, end - 1).push(s[end - 1]) =~= s.subrange(i + 1, end));
                }
            },
            None => {
                lemma_split_at_last(s, c, end - 1, found);
                assert(s.take(end - 1).push(s[end - 1]) =~= s.take(end));
            },
        }
    } else {
        assert(t =~= Seq::<char>::empty());
    }
}

/// The position of the last `c` in `v[..end]`, if any.
fn last_index_of(v: &Vec<char>, end: usize, c: char) -> (found: Option<usize>)
    requires
        end <= v.len(),
    ensures
        match found {
            Some(i) => {
                &&& i < end
                &&& v@[i as int] == c
                &&& forall|j: int| i < j < end ==> v@[j] != c
            },
            None => forall|j: int| 0 <= j < end ==> v@[j] != c,
        },
{
    let mut k: usize = end;
    while k > 0
        invariant
            k <= end <= v.len(),
            forall|j: int| k <= j < end ==> v@[j] != c,
        decreases k,
    {
        if v[k - 1] == c {
            return Some(k - 1);
        }
        k = k - 1;
    }
    None
}

/// The part of `s` after its last `/`, or all of `s` when it holds none.
pub fn last_segment(s: &str) -> (res: &str)
    ensures
        res@ == after_last(s@, '/'),
{
    let v = chars_of(s);
    let found = last_index_of(&v, v.len(), '/');
    proof {
        lemma_split_at_last(s@, '/', s@.len() as int, match found { Some(i) => Some(i as int), None => None });
        assert(s@.take(s@.len() as int) =~= s@);
    }
    match found {
        Some(i) => s.substring_char(i + 1, v.len()),
        None => s,
    }
}

/// The segment between the two last slashes of `s` (see `second_last_segment`).
pub fn second_last_segment_of(s: &str) -> (res: &str)
    ensures
        res@ == second_last_segment(s@),
{
    let v = chars_of(s);
    let found = last_index_of(&v, v.len(), '/');
    proof {
        lemma_split_at_last(s@, '/', s@.len() as int, match found { Some(i) => Some(i as int), None => None });
        assert(s@.take(s@.len() as int) =~= s@);
    }
    match found {
        Some(i) => {
            let prior = last_index_of(&v, i, '/');
            proof {
                lemma_split_at_last(s@, '/', i as int, match prior { Some(j) => Some(j as int), None => None });
            }
            match prior {
                Some(j) => s.substring_char(j + 1, i),
                None => s.substring_char(0, i),
            }
        },
        None => {
            proof {
                reveal_strlit("");
            }
            ""
        },
    }
}

/// The part after the last separator holds no separator and ends `s`.
pub proof fn lemma_after_last_is_free_suffix(s: Seq<char>, c: char)
    ensures
        after_last(s, c).len() <= s.len(),
        after_last(s, c) == s.subrange(s.len() - after_last(s, c).len(), s.len() as int),
        forall|i: int| 0 <= i < after_last(s, c).len() ==> #[trigger] after_last(s, c)[i] != c,
    decreases s.len(),
{
    if s.len() > 0 && s.last() != c {
        lemma_after_last_is_free_suffix(s.drop_last(), c);
        let a = after_last(s.drop_last(), c);
        assert(a.push(s.last()) =~= s.subrange(s.len() - (a.len() + 1), s.len() as int));
        assert forall|i: int| 0 <= i < a.len() + 1 implies #[trigger] a.push(s.last())[i] != c by {
            if i < a.len() {
                assert(a.push(s.last())[i] == a[i]);
            }
        }
    } else if s.len() > 0 {
        assert(s.subrange(s.len() as int, s.len() as int) =~= Seq::<char>::empty());
    } else {
        assert(s.subrange(0, 0) =~= s);
    }
}

proof fn lemma_trim_start_suffix(s: Seq<char>)
    ensures
        trim_start_white(s).len() <= s.len(),
        trim_start_white(s) == s.subrange(s.len() - trim_start_white(s).len(), s.len() as int),
        trim_start_white(s).len() > 0 ==> !is_white_space(trim_start_white(s)[0]),
    decreases s.len(),
{
    if s.len() > 0 && is_white_space(s[0]) {
        lemma_trim_start_suffix(s.drop_first());
        let t = trim_start_white(s.drop_first());
        assert(s.drop_first().subrange(s.len() - 1 - t.len(), s.len() - 1) =~= s.subrange(
            s.len() - t.len(),
            s.len() as int,
        ));
    } else {
        assert(s.subrange(0, s.len() as int) =~= s);
    }
}

proof fn lemma_trim_end_prefix(s: Seq<char>, strip: spec_fn(char) -> bool)
    ensures
        trim_end_by(s, strip).len() <= s.len(),
        trim_end_by(s, strip) == s.subrange(0, trim_end_by(s, strip).len() as int),
        trim_end_by(s, strip).len() > 0 ==> !strip(trim_end_by(s, strip).last()),
    decreases s.len(),
{
    if s.len() > 0 && strip(s.last()) {
        lemma_trim_end_prefix(s.drop_last(), strip);
        let t = trim_end_by(s.drop_last(), strip);
        assert(s.drop_last().subrange(0, t.len() as int) =~= s.subrange(0, t.len() as int));
    } else {
        assert(s.subrange(0, s.len() as int) =~= s);
    }
}

/// Trimming keeps a contiguous part of `s` that neither starts nor ends with white space.
pub proof fn lemma_trimmed_shape(s: Seq<char>)
    ensures
        ({
            let t = trimmed(s);
            &&& t.len() > 0 ==> !is_white_space(t[0]) && !is_white_space(t.last())
            &&& exists|start: int| 0 <= start && start + t.len() <= s.len() && #[trigger] s.subrange(start, start + t.len()) == t
        }),
{
    lemma_trim_start_suffix(s);
    let u = trim_start_white(s);
    lemma_trim_end_prefix(u, white_space_test());
    let t = trimmed(s);
    let start = s.len() - u.len();
    assert(s.subrange(start, start + t.len()) =~= t);
    if t.len() > 0 {
        assert(t[0] == u[0]);
    }
}

} // verus!
