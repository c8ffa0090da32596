//! Character-sequence utilities shared by the analysers: substring search,
//! whitespace splitting, ordering of strings, and building strings.
use vstd::prelude::*;

verus! {

// ---------------------------------------------------------------------------
// Substring search
// ---------------------------------------------------------------------------

/// `pat` occurs in `text` at position `i`.
pub open spec fn occurs_at(text: Seq<char>, pat: Seq<char>, i: int) -> bool {
    0 <= i && i + pat.len() <= text.len() && text.subrange(i, i + pat.len()) == pat
}

/// `pat` occurs somewhere in `text` (the empty pattern occurs everywhere).
pub open spec fn seq_contains(text: Seq<char>, pat: Seq<char>) -> bool {
    exists|i: int| occurs_at(text, pat, i)
}

/// The characters of a string slice, collected into a vector.
pub fn chars_of(s: &str) -> (v: Vec<char>)
    ensures
        v@ == s@,
{
    let mut v: Vec<char> = Vec::new();
    for c in it: s.chars()
        invariant
            v@ == it.seq().take(it.index() as int),
    {
        v.push(c);
    }
    assert(v@ =~= s@);
    v
}

/// Whether `pat` occurs at position `i` of `text`.
fn matches_at(text: &Vec<char>, pat: &Vec<char>, i: usize) -> (b: bool)
    requires
        i + pat.len() <= text.len(),
    ensures
        b == occurs_at(text@, pat@, i as int),
{
    let mut j: usize = 0;
    while j < pat.len()
        invariant
            i + pat.len() <= text.len(),
            j <= pat.len(),
            forall|k: int| 0 <= k < j ==> text@[i + k] == pat@[k],
        decreases pat.len() - j,
    {
        if text[i + j] != pat[j] {
            assert(text@.subrange(i as int, i + pat.len())[j as int] != pat@[j as int]);
            return false;
        }
        j = j + 1;
    }
    assert(text@.subrange(i as int, i + pat.len()) =~= pat@);
    true
}

/// Whether `pat` occurs somewhere in `text`.
pub fn vec_contains(text: &Vec<char>, pat: &Vec<char>) -> (b: bool)
    ensures
        b == seq_contains(text@, pat@),
{
    if pat.len() == 0 {
        assert(text@.subrange(0, 0) =~= pat@);
        assert(occurs_at(text@, pat@, 0));
        return true;
    }
    if pat.len() > text.len() {
        assert forall|i: int| !occurs_at(text@, pat@, i) by {}
        return false;
    }
    let last = text.len() - pat.len();
    let mut i: usize = 0;
    while i <= last
        invariant
            last == text.len() - pat.len(),
            1 <= pat.len() <= text.len(),
            i <= last + 1,
            forall|k: int| 0 <= k < i ==> !occurs_at(text@, pat@, k),
        decreases last + 1 - i,
    {
        if matches_at(text, pat, i) {
            return true;
        }
        i = i + 1;
    }
    assert forall|k: int| !occurs_at(text@, pat@, k) by {
        if 0 <= k < i {
        }
    }
    false
}

/// Whether `text` begins with `pat`.
pub fn starts_with_chars(text: &Vec<char>, pat: &Vec<char>) -> (b: bool)
    ensures
        b == occurs_at(text@, pat@, 0),
{
    if pat.len() > text.len() {
        return false;
    }
    matches_at(text, pat, 0)
}

/// Whether every character of `s` is white space, so that `str::trim` leaves
/// nothing of it.
pub fn is_blank(s: &str) -> (b: bool)
    ensures
        b == forall|i: int| 0 <= i < s@.len() ==> is_white_space(#[trigger] s@[i]),
{
    let cs = chars_of(s);
    let mut i: usize = 0;
    while i < cs.len()
        invariant
            i <= cs.len(),
            cs@ == s@,
            forall|k: int| 0 <= k < i ==> is_white_space(#[trigger] s@[k]),
        decreases cs.len() - i,
    {
        if !char_is_whitespace(cs[i]) {
            return false;
        }
        i = i + 1;
    }
    true
}

/// Whether `needle` occurs in `haystack`, as `str::contains` does for a string pattern.
pub fn str_contains(haystack: &str, needle: &str) -> (b: bool)
    ensures
        b == seq_contains(haystack@, needle@),
{
    let h = chars_of(haystack);
    let n = chars_of(needle);
    vec_contains(&h, &n)
}

/// Whether the string literal `needle` occurs in the characters `text`.
pub fn chars_contain_str(text: &Vec<char>, needle: &str) -> (b: bool)
    ensures
        b == seq_contains(text@, needle@),
{
    let n = chars_of(needle);
    vec_contains(text, &n)
}

/// Whether two character vectors are equal.
pub fn vec_eq(a: &Vec<char>, b: &Vec<char>) -> (r: bool)
    ensures
        r == (a@ == b@),
{
    if a.len() != b.len() {
        return false;
    }
    let mut i: usize = 0;
    while i < a.len()
        invariant
            a.len() == b.len(),
            i <= a.len(),
            forall|k: int| 0 <= k < i ==> a@[k] == b@[k],
        decreases a.len() - i,
    {
        if a[i] != b[i] {
            return false;
        }
        i = i + 1;
    }
    assert(a@ =~= b@);
    true
}

/// Whether two strings hold the same characters.
pub fn str_eq(a: &str, b: &str) -> (r: bool)
    ensures
        r == (a@ == b@),
{
    let va = chars_of(a);
    let vb = chars_of(b);
    vec_eq(&va, &vb)
}

/// Whether the sequence `s` is one of the strings in `list`.
pub open spec fn seq_in_list(s: Seq<char>, list: Seq<Seq<char>>) -> bool {
    exists|i: int| 0 <= i < list.len() && list[i] == s
}

/// Whether `s` equals one of the strings of `list`.
pub fn str_in_list(s: &str, list: &Vec<&str>) -> (r: bool)
    ensures
        r == seq_in_list(s@, list@.map_values(|x: &str| x@)),
{
    let ghost views = list@.map_values(|x: &str| x@);
    let mut i: usize = 0;
    while i < list.len()
        invariant
            i <= list.len(),
            views == list@.map_values(|x: &str| x@),
            forall|k: int| 0 <= k < i ==> views[k] != s@,
        decreases list.len() - i,
    {
        if str_eq(s, list[i]) {
            assert(views[i as int] == s@);
            return true;
        }
        i = i + 1;
    }
    false
}

/// Whether any string of `list` occurs in `text`.
pub open spec fn any_occurs(text: Seq<char>, list: Seq<Seq<char>>) -> bool {
    exists|i: int| 0 <= i < list.len() && seq_contains(text, list[i])
}

/// Whether one of the string literals of `list` occurs in `text`.
pub fn contains_any(text: &Vec<char>, list: &Vec<&str>) -> (r: bool)
    ensures
        r == any_occurs(text@, list@.map_values(|x: &str| x@)),
{
    let ghost views = list@.map_values(|x: &str| x@);
    let mut i: usize = 0;
    while i < list.len()
        invariant
            i <= list.len(),
            views == list@.map_values(|x: &str| x@),
            forall|k: int| 0 <= k < i ==> !seq_contains(text@, #[trigger] views[k]),
        decreases list.len() - i,
    {
        if chars_contain_str(text, list[i]) {
            assert(seq_contains(text@, views[i as int]));
            return true;
        }
        i = i + 1;
    }
    false
}

/// The number of strings of `list` that occur in `text`.
pub open spec fn count_occurring(text: Seq<char>, list: Seq<Seq<char>>) -> nat
    decreases list.len(),
{
    if list.len() == 0 {
        0
    } else {
        count_occurring(text, list.drop_last()) + if seq_contains(text, list.last()) {
            1nat
        } else {
            0nat
        }
    }
}

// ---------------------------------------------------------------------------
// Whitespace and words
// ---------------------------------------------------------------------------

/// The Unicode `White_Space` property, which `char::is_whitespace` tests.
pub open spec fn is_white_space(c: char) -> bool {
    ||| ('\u{9}' <= c && c <= '\u{d}')
    ||| c == ' '
    ||| c == '\u{85}'
    ||| c == '\u{a0}'
    ||| c == '\u{1680}'
    ||| ('\u{2000}' <= c && c <= '\u{200a}')
    ||| c == '\u{2028}'
    ||| c == '\u{2029}'
    ||| c == '\u{202f}'
    ||| c == '\u{205f}'
    ||| c == '\u{3000}'
}

/// Whether `c` is a white-space character.
pub fn char_is_whitespace(c: char) -> (b: bool)
    ensures
        b == is_white_space(c),
{
    ('\u{9}' <= c && c <= '\u{d}') || c == ' ' || c == '\u{85}' || c == '\u{a0}' || c
        == '\u{1680}' || ('\u{2000}' <= c && c <= '\u{200a}') || c == '\u{2028}' || c
        == '\u{2029}' || c == '\u{202f}' || c == '\u{205f}' || c == '\u{3000}'
}

/// Scanning `s` from the left: the words completed so far and the word in progress.
pub open spec fn words_acc(s: Seq<char>) -> (Seq<Seq<char>>, Seq<char>)
    decreases s.len(),
{
    if s.len() == 0 {
        (Seq::empty(), Seq::empty())
    } else {
        let (ws, cur) = words_acc(s.drop_last());
        let c = s.last();
        if is_white_space(c) {
            if cur.len() > 0 {
                (ws.push(cur), Seq::empty())
            } else {
                (ws, Seq::empty())
            }
        } else {
            (ws, cur.push(c))
        }
    }
}

/// The maximal runs of non-white-space characters of `s`, in order
/// (what `str::split_whitespace` yields).
pub open spec fn words(s: Seq<char>) -> Seq<Seq<char>> {
    let (ws, cur) = words_acc(s);
    if cur.len() > 0 {
        ws.push(cur)
    } else {
        ws
    }
}

/// Splits `s` into its words.
pub fn split_words(s: &Vec<char>) -> (ws: Vec<Vec<char>>)
    ensures
        ws@.map_values(|w: Vec<char>| w@) == words(s@),
{
    let mut ws: Vec<Vec<char>> = Vec::new();
    let mut cur: Vec<char> = Vec::new();
    let mut i: usize = 0;
    while i < s.len()
        invariant
            i <= s.len(),
            (ws@.map_values(|w: Vec<char>| w@), cur@) == words_acc(s@.take(i as int)),
        decreases s.len() - i,
    {
        let c = s[i];
        proof {
            assert(s@.take(i + 1).drop_last() =~= s@.take(i as int));
        }
        if char_is_whitespace(c) {
            if cur.len() > 0 {
                let w = cur;
                ws.push(w);
                cur = Vec::new();
            } else {
                cur = Vec::new();
            }
        } else {
            cur.push(c);
        }
        proof {
            assert(ws@.map_values(|w: Vec<char>| w@) =~= words_acc(s@.take(i + 1)).0);
            assert(cur@ =~= words_acc(s@.take(i + 1)).1);
        }
        i = i + 1;
    }
    assert(s@.take(s.len() as int) =~= s@);
    if cur.len() > 0 {
        ws.push(cur);
    }
    assert(ws@.map_values(|w: Vec<char>| w@) =~= words(s@));
    ws
}

/// The words of `ws` joined by single spaces.
pub open spec fn join_spaced(ws: Seq<Seq<char>>) -> Seq<char>
    decreases ws.len(),
{
    if ws.len() == 0 {
        Seq::empty()
    } else if ws.len() == 1 {
        ws[0]
    } else {
        join_spaced(ws.drop_last()) + seq![' '] + ws.last()
    }
}

/// Joins `ws` with single spaces between consecutive words.
pub fn join_with_spaces(ws: &Vec<Vec<char>>) -> (r: Vec<char>)
    ensures
        r@ == join_spaced(ws@.map_values(|w: Vec<char>| w@)),
{
    let ghost views = ws@.map_values(|w: Vec<char>| w@);
    let mut r: Vec<char> = Vec::new();
    let mut i: usize = 0;
    while i < ws.len()
        invariant
            i <= ws.len(),
            views == ws@.map_values(|w: Vec<char>| w@),
            r@ == join_spaced(views.take(i as int)),
        decreases ws.len() - i,
    {
        proof {
            assert(views.take(i + 1).drop_last() =~= views.take(i as int));
        }
        if i > 0 {
            r.push(' ');
        }
        let w = &ws[i];
        let mut j: usize = 0;
        let ghost before = r@;
        while j < w.len()
            invariant
                j <= w.len(),
                r@ == before + w@.take(j as int),
            decreases w.len() - j,
        {
            r.push(w[j]);
            proof {
                assert(w@.take(j + 1) =~= w@.take(j as int).push(w@[j as int]));
            }
            j = j + 1;
        }
        proof {
            assert(w@.take(w.len() as int) =~= w@);
            if i == 0 {
                assert(r@ =~= join_spaced(views.take(1)));
            } else {
                assert(r@ =~= join_spaced(views.take(i + 1)));
            }
        }
        i = i + 1;
    }
    assert(views.take(ws.len() as int) =~= views);
    r
}

/// Appends the characters of `s` to `v`.
pub fn push_str(v: &mut Vec<char>, s: &str)
    ensures
        final(v)@ == old(v)@ + s@,
{
    let cs = chars_of(s);
    push_chars(v, &cs);
}

/// Appends the characters of `cs` to `v`.
pub fn push_chars(v: &mut Vec<char>, cs: &Vec<char>)
    ensures
        final(v)@ == old(v)@ + cs@,
{
    let mut j: usize = 0;
    while j < cs.len()
        invariant
            j <= cs.len(),
            v@ == old(v)@ + cs@.take(j as int),
        decreases cs.len() - j,
    {
        v.push(cs[j]);
        proof {
            assert(cs@.take(j + 1) =~= cs@.take(j as int).push(cs@[j as int]));
        }
        j = j + 1;
    }
    assert(cs@.take(cs.len() as int) =~= cs@);
}

// ---------------------------------------------------------------------------
// UTF-8 width
// ---------------------------------------------------------------------------

/// The number of bytes that UTF-8 uses for `c`.
pub open spec fn char_utf8_width(c: char) -> nat {
    if (c as u32) < 0x80 {
        1
    } else if (c as u32) < 0x800 {
        2
    } else if (c as u32) < 0x10000 {
        3
    } else {
        4
    }
}

/// The number of bytes of the UTF-8 encoding of `s` (what `str::len` returns).
pub open spec fn utf8_len(s: Seq<char>) -> nat
    decreases s.len(),
{
    if s.len() == 0 {
        0
    } else {
        utf8_len(s.drop_last()) + char_utf8_width(s.last())
    }
}

/// The UTF-8 width of `c`.
pub fn utf8_width(c: char) -> (w: usize)
    ensures
        w == char_utf8_width(c),
{
    let u = c as u32;
    if u < 0x80 {
        1
    } else if u < 0x800 {
        2
    } else if u < 0x10000 {
        3
    } else {
        4
    }
}

/// The UTF-8 length of `s`, saturated at `usize::MAX`.
pub fn utf8_length(s: &Vec<char>) -> (n: usize)
    ensures
        n == if utf8_len(s@) <= usize::MAX { utf8_len(s@) } else { usize::MAX as nat },
{
    let mut n: usize = 0;
    let mut i: usize = 0;
    let mut saturated = false;
    while i < s.len()
        invariant
            i <= s.len(),
            !saturated ==> n == utf8_len(s@.take(i as int)),
            saturated ==> n == usize::MAX && utf8_len(s@.take(i as int)) > usize::MAX,
        decreases s.len() - i,
    {
        proof {
            assert(s@.take(i + 1).drop_last() =~= s@.take(i as int));
        }
        let w = utf8_width(s[i]);
        if !saturated {
            if n > usize::MAX - w {
                n = usize::MAX;
                saturated = true;
            } else {
                n = n + w;
            }
        }
        i = i + 1;
    }
    assert(s@.take(s.len() as int) =~= s@);
    n
}

// ---------------------------------------------------------------------------
// Ordering of strings
// ---------------------------------------------------------------------------

/// Lexicographic order on character sequences (by code point, which is the
/// order that `String`'s `Ord` gives, since UTF-8 preserves code-point order).
pub open spec fn seq_less(a: Seq<char>, b: Seq<char>) -> bool
    decreases a.len(),
{
    if a.len() == 0 {
        b.len() > 0
    } else if b.len() == 0 {
        false
    } else if a[0] != b[0] {
        (a[0] as int) < (b[0] as int)
    } else {
        seq_less(a.drop_first(), b.drop_first())
    }
}

/// `seq_less` is transitive.
pub proof fn lemma_seq_less_transitive(a: Seq<char>, b: Seq<char>, c: Seq<char>)
    requires
        seq_less(a, b),
        seq_less(b, c),
    ensures
        seq_less(a, c),
    decreases a.len(),
{
    if a.len() > 0 && b.len() > 0 && c.len() > 0 {
        if a[0] == b[0] && b[0] == c[0] {
            lemma_seq_less_transitive(a.drop_first(), b.drop_first(), c.drop_first());
        }
    }
}

/// `seq_less` is total on distinct sequences.
pub proof fn lemma_seq_less_total(a: Seq<char>, b: Seq<char>)
    requires
        a != b,
    ensures
        seq_less(a, b) || seq_less(b, a),
    decreases a.len(),
{
    if a.len() > 0 && b.len() > 0 {
        if a[0] == b[0] {
            if a.drop_first() == b.drop_first() {
                assert(a =~= seq![a[0]] + a.drop_first());
                assert(b =~= seq![b[0]] + b.drop_first());
            }
            lemma_seq_less_total(a.drop_first(), b.drop_first());
        } else {
            assert((a[0] as int) != (b[0] as int));
        }
    } else if a.len() == 0 && b.len() == 0 {
        assert(a =~= b);
    }
}

/// Compares two character vectors lexicographically.
pub fn vec_less(a: &Vec<char>, b: &Vec<char>) -> (r: bool)
    ensures
        r == seq_less(a@, b@),
{
    let mut i: usize = 0;
    assert(a@.skip(0) =~= a@);
    assert(b@.skip(0) =~= b@);
    while i < a.len() && i < b.len()
        invariant
            i <= a.len(),
            i <= b.len(),
            seq_less(a@, b@) == seq_less(a@.skip(i as int), b@.skip(i as int)),
        decreases a.len() - i,
    {
        if a[i] != b[i] {
            proof {
                assert(a@.skip(i as int)[0] == a@[i as int]);
                assert(b@.skip(i as int)[0] == b@[i as int]);
            }
            return a[i] < b[i];
        }
        proof {
            assert(a@.skip(i as int).drop_first() =~= a@.skip(i + 1));
            assert(b@.skip(i as int).drop_first() =~= b@.skip(i + 1));
        }
        i = i + 1;
    }
    i < b.len()
}

/// `s` is strictly increasing under `seq_less` (sorted, no duplicates).
pub open spec fn strictly_sorted(s: Seq<Seq<char>>) -> bool {
    forall|i: int, j: int| 0 <= i < j < s.len() ==> seq_less(#[trigger] s[i], #[trigger] s[j])
}

/// The views of a vector of strings.
pub open spec fn string_views(v: Seq<String>) -> Seq<Seq<char>> {
    v.map_values(|s: String| s@)
}

/// Whether `a` comes strictly before the characters `xc`.
fn string_before(a: &String, xc: &Vec<char>) -> (r: bool)
    ensures
        r == seq_less(a@, xc@),
{
    let ac = chars_of(a.as_str());
    vec_less(&ac, xc)
}

/// Whether `a` holds exactly the characters `xc`.
fn string_equals(a: &String, xc: &Vec<char>) -> (r: bool)
    ensures
        r == (a@ == xc@),
{
    let ac = chars_of(a.as_str());
    vec_eq(&ac, xc)
}

/// Inserts `x` into the strictly sorted `v`, unless it is already there.
fn insert_sorted(v: &mut Vec<String>, x: String)
    requires
        strictly_sorted(string_views(old(v)@)),
    ensures
        strictly_sorted(string_views(final(v)@)),
        string_views(final(v)@).to_set() == string_views(old(v)@).to_set().insert(x@),
{
    let ghost old_views = string_views(v@);
    let xc = chars_of(x.as_str());
    let mut pos: usize = 0;
    while pos < v.len() && string_before(&v[pos], &xc)
        invariant
            pos <= v.len(),
            v@ == old(v)@,
            old_views == string_views(v@),
            xc@ == x@,
            forall|k: int| 0 <= k < pos ==> seq_less(#[trigger] old_views[k], x@),
        decreases v.len() - pos,
    {
        assert(old_views[pos as int] == v@[pos as int]@);
        pos = pos + 1;
    }
    if pos < v.len() && string_equals(&v[pos], &xc) {
        proof {
            assert(old_views[pos as int] == v@[pos as int]@);
            assert(old_views.to_set().contains(x@));
            assert(old_views.to_set().insert(x@) =~= old_views.to_set());
        }
        return;
    }
    proof {
        if pos < v.len() {
            assert(old_views[pos as int] == v@[pos as int]@);
            assert(old_views[pos as int] != x@);
            lemma_seq_less_total(old_views[pos as int], x@);
        }
    }
    v.insert(pos, x);
    proof {
        let nv = string_views(v@);
        assert(nv =~= old_views.insert(pos as int, x@));
        assert forall|i: int, j: int| 0 <= i < j < nv.len() implies seq_less(
            #[trigger] nv[i],
            #[trigger] nv[j],
        ) by {
            if j < pos {
                assert(nv[i] == old_views[i] && nv[j] == old_views[j]);
            } else if j == pos {
                assert(nv[i] == old_views[i]);
            } else if i < pos {
                assert(nv[i] == old_views[i]);
                assert(nv[j] == old_views[j - 1]);
                assert(seq_less(nv[i], x@));
                if j - 1 == pos as int {
                    lemma_seq_less_transitive(nv[i], x@, nv[j]);
                } else {
                    assert(seq_less(old_views[pos as int], old_views[j - 1]));
                    lemma_seq_less_transitive(x@, old_views[pos as int], old_views[j - 1]);
                    lemma_seq_less_transitive(nv[i], x@, nv[j]);
                }
            } else if i == pos {
                assert(nv[j] == old_views[j - 1]);
                if j - 1 != pos as int {
                    assert(seq_less(old_views[pos as int], old_views[j - 1]));
                    lemma_seq_less_transitive(x@, old_views[pos as int], old_views[j - 1]);
                }
            } else {
                assert(nv[i] == old_views[i - 1]);
                assert(nv[j] == old_views[j - 1]);
            }
        }
        assert forall|s: Seq<char>| nv.to_set().contains(s) <==> old_views.to_set().insert(
            x@,
        ).contains(s) by {
            if nv.to_set().contains(s) {
                let k = choose|k: int| 0 <= k < nv.len() && nv[k] == s;
                if k < pos {
                    assert(old_views[k] == s);
                } else if k > pos {
                    assert(old_views[k - 1] == s);
                }
            }
            if old_views.to_set().contains(s) {
                let k = choose|k: int| 0 <= k < old_views.len() && old_views[k] == s;
                if k < pos {
                    assert(nv[k] == s);
                } else {
                    assert(nv[k + 1] == s);
                }
            }
            if s == x@ {
                assert(nv[pos as int] == s);
            }
        }
        assert(nv.to_set() =~= old_views.to_set().insert(x@));
    }
}

/// Sorts `v` and removes duplicates, as `sort` followed by `dedup` does on a
/// vector of strings.
pub fn sort_dedup(v: Vec<String>) -> (r: Vec<String>)
    ensures
        strictly_sorted(string_views(r@)),
        string_views(r@).to_set() == string_views(v@).to_set(),
{
    let mut r: Vec<String> = Vec::new();
    let mut i: usize = 0;
    let ghost views = string_views(v@);
    assert(string_views(r@).to_set() =~= views.take(0).to_set());
    while i < v.len()
        invariant
            i <= v.len(),
            views == string_views(v@),
            strictly_sorted(string_views(r@)),
            string_views(r@).to_set() == views.take(i as int).to_set(),
        decreases v.len() - i,
    {
        let x = v[i].clone();
        insert_sorted(&mut r, x);
        proof {
            assert(views.take(i + 1) =~= views.take(i as int).push(views[i as int]));
            let a = views.take(i as int);
            let b = views.take(i + 1);
            assert forall|s: Seq<char>| b.to_set().contains(s) <==> a.to_set().insert(
                views[i as int],
            ).contains(s) by {
                if b.to_set().contains(s) {
                    let k = choose|k: int| 0 <= k < b.len() && b[k] == s;
                    if k < i {
                        assert(a[k] == s);
                    }
                }
                if a.to_set().contains(s) {
                    let k = choose|k: int| 0 <= k < a.len() && a[k] == s;
                    assert(b[k] == s);
                }
                if s == views[i as int] {
                    assert(b[i as int] == s);
                }
            }
            assert(b.to_set() =~= a.to_set().insert(views[i as int]));
        }
        i = i + 1;
    }
    assert(views.take(v.len() as int) =~= views);
    r
}

// ---------------------------------------------------------------------------
// Strings from outside functions of std
// ---------------------------------------------------------------------------

/// The result of `str::to_lowercase` on a string with these characters.
pub uninterp spec fn lowercase_of(s: Seq<char>) -> Seq<char>;

/// Calls `str::to_lowercase`; its result is named `lowercase_of` of the input
/// (the Unicode lower-case mapping, which is not restated here).
#[verifier::external_body]
pub fn to_lowercase(s: &str) -> (r: String)
    ensures
        r@ == lowercase_of(s@),
{
    s.to_lowercase()
}

/// The result of `char::is_alphabetic` (the Unicode `Alphabetic` property).
pub uninterp spec fn is_alphabetic_char(c: char) -> bool;

/// Calls `char::is_alphabetic`; its result is named `is_alphabetic_char`.
#[verifier::external_body]
pub fn char_is_alphabetic(c: char) -> (b: bool)
    ensures
        b == is_alphabetic_char(c),
{
    c.is_alphabetic()
}

/// Collects the characters of `v` into a `String` (`Iterator::collect`).
#[verifier::external_body]
pub fn string_from_chars(v: &Vec<char>) -> (s: String)
    ensures
        s@ == v@,
{
    v.iter().collect::<String>()
}

/// Copies a string slice into a `String`.
pub fn to_string(s: &str) -> (r: String)
    ensures
        r@ == s@,
{
    let v = chars_of(s);
    string_from_chars(&v)
}

// ---------------------------------------------------------------------------
// Decimal numerals
// ---------------------------------------------------------------------------

/// The decimal digit for `d < 10`.
pub open spec fn digit_char(d: nat) -> char {
    if d == 0 { '0' }
    else if d == 1 { '1' }
    else if d == 2 { '2' }
    else if d == 3 { '3' }
    else if d == 4 { '4' }
    else if d == 5 { '5' }
    else if d == 6 { '6' }
    else if d == 7 { '7' }
    else if d == 8 { '8' }
    else { '9' }
}

/// The decimal numeral of `n`, as `Display` prints an unsigned integer.
pub open spec fn decimal(n: nat) -> Seq<char>
    decreases n,
{
    if n < 10 {
        seq![digit_char(n)]
    } else {
        decimal(n / 10).push(digit_char(n % 10))
    }
}

fn digit(d: usize) -> (c: char)
    requires
        d < 10,
    ensures
        c == digit_char(d as nat),
{
    if d == 0 { '0' }
    else if d == 1 { '1' }
    else if d == 2 { '2' }
    else if d == 3 { '3' }
    else if d == 4 { '4' }
    else if d == 5 { '5' }
    else if d == 6 { '6' }
    else if d == 7 { '7' }
    else if d == 8 { '8' }
    else { '9' }
}

/// Appends the decimal numeral of `n` to `v`.
pub fn push_decimal(v: &mut Vec<char>, n: usize)
    ensures
        final(v)@ == old(v)@ + decimal(n as nat),
    decreases n,
{
    if n < 10 {
        v.push(digit(n));
        assert(old(v)@.push(digit_char(n as nat)) =~= old(v)@ + decimal(n as nat));
    } else {
        push_decimal(v, n / 10);
        v.push(digit(n % 10));
        assert(old(v)@ + decimal(n as nat / 10) + seq![digit_char(n as nat % 10)]
            =~= old(v)@ + decimal(n as nat));
    }
}

/// Appends the decimal numeral of `n` to `v`.
pub fn push_decimal_u64(v: &mut Vec<char>, n: u64)
    ensures
        final(v)@ == old(v)@ + decimal(n as nat),
    decreases n,
{
    if n < 10 {
        v.push(digit(n as usize));
        assert(old(v)@.push(digit_char(n as nat)) =~= old(v)@ + decimal(n as nat));
    } else {
        push_decimal_u64(v, n / 10);
        v.push(digit((n % 10) as usize));
        assert(old(v)@ + decimal(n as nat / 10) + seq![digit_char(n as nat % 10)]
            =~= old(v)@ + decimal(n as nat));
    }
}

} // verus!

verus! {

// ---------------------------------------------------------------------------
// Regular expressions (the `regex` crate)
// ---------------------------------------------------------------------------

/// The text that `Regex::new(pattern)` followed by `replace_all(text,
/// replacement)` gives back; where the pattern does not compile, the text itself.
pub uninterp spec fn regex_replaced(pattern: Seq<char>, text: Seq<char>, replacement: Seq<char>) -> Seq<char>;

/// Compiles `pattern` with `regex::Regex::new` and calls `Regex::replace_all`
/// on `text`; on a compile error the text comes back unchanged. The result is
/// named `regex_replaced` of the three arguments; the regex semantics are not
/// restated.
#[verifier::external_body]
pub fn regex_replace_all(pattern: &str, text: &str, replacement: &str) -> (r: String)
    ensures
        r@ == regex_replaced(pattern@, text@, replacement@),
{
    match regex::Regex::new(pattern) {
        Ok(re) => re.replace_all(text, replacement).into_owned(),
        Err(_) => text.to_string(),
    }
}

/// For each match that `Regex::captures_iter` yields on `text`, the capture
/// group `group`: its byte span and its text, or `None` where the group did not
/// take part; no match at all where the pattern does not compile.
pub uninterp spec fn regex_group_captures(pattern: Seq<char>, text: Seq<char>, group: nat) -> Seq<Option<(usize, usize, Seq<char>)>>;

/// The capture-group view of a vector of optional captures.
pub open spec fn captures_view(v: Seq<Option<(usize, usize, String)>>) -> Seq<Option<(usize, usize, Seq<char>)>> {
    v.map_values(|o: Option<(usize, usize, String)>| match o {
        Some(t) => Some((t.0, t.1, t.2@)),
        None => None,
    })
}

/// Compiles `pattern` with `regex::Regex::new` and collects, for every match of
/// `Regex::captures_iter` on `text`, the capture group `group` (`Captures::get`)
/// as its start and end byte offsets and its text. The result is named
/// `regex_group_captures`; which matches the regex finds is not restated. There
/// is one entry per match whatever the group, and group 0, the whole match,
/// always takes part (as the crate documents for `Captures::get`).
#[verifier::external_body]
pub fn regex_captures(pattern: &str, text: &str, group: usize) -> (r: Vec<Option<(usize, usize, String)>>)
    ensures
        captures_view(r@) == regex_group_captures(pattern@, text@, group as nat),
        r@.len() == regex_group_captures(pattern@, text@, 0).len(),
        group == 0 ==> forall|k: int| 0 <= k < r@.len() ==> r@[k] is Some,
{
    match regex::Regex::new(pattern) {
        Ok(re) => re.captures_iter(text).map(|c| c.get(group).map(|m| (m.start(), m.end(), m.as_str().to_string()))).collect(),
        Err(_) => Vec::new(),
    }
}

/// Whether `Regex::is_match` finds a match of `pattern` in `text`; false where
/// the pattern does not compile.
pub uninterp spec fn regex_is_match(pattern: Seq<char>, text: Seq<char>) -> bool;

/// Compiles `pattern` with `regex::Regex::new` and calls `Regex::is_match` on
/// `text`; false on a compile error. The result is named `regex_is_match`.
#[verifier::external_body]
pub fn regex_matches(pattern: &str, text: &str) -> (r: bool)
    ensures
        r == regex_is_match(pattern@, text@),
{
    match regex::Regex::new(pattern) {
        Ok(re) => re.is_match(text),
        Err(_) => false,
    }
}

/// The text that `{:?}` prints for a list of strings (brackets, quoted and
/// escaped items, commas).
pub uninterp spec fn debug_list_text(items: Seq<Seq<char>>) -> Seq<char>;

/// Formats a list of strings with `{:?}`; the result is named
/// `debug_list_text` of the items; the escaping rules are not restated.
#[verifier::external_body]
pub fn debug_string_list(items: &Vec<String>) -> (r: String)
    ensures
        r@ == debug_list_text(string_views(items@)),
{
    format!("{:?}", items)
}

/// The lower-cased characters of `s`.
pub fn lowercase_chars(s: &str) -> (v: Vec<char>)
    ensures
        v@ == lowercase_of(s@),
{
    let l = to_lowercase(s);
    chars_of(l.as_str())
}

/// Whether `c` is one of the characters of `list`.
pub fn chars_in_str_list(w: &Vec<char>, list: &Vec<&str>) -> (r: bool)
    ensures
        r == seq_in_list(w@, list@.map_values(|x: &str| x@)),
{
    let ghost views = list@.map_values(|x: &str| x@);
    let mut i: usize = 0;
    while i < list.len()
        invariant
            i <= list.len(),
            views == list@.map_values(|x: &str| x@),
            forall|k: int| 0 <= k < i ==> views[k] != w@,
        decreases list.len() - i,
    {
        let lc = chars_of(list[i]);
        if vec_eq(w, &lc) {
            assert(views[i as int] == w@);
            return true;
        }
        i = i + 1;
    }
    false
}

/// Some element of `xs` is one of the strings of `list`.
pub open spec fn any_in_list(xs: Seq<Seq<char>>, list: Seq<Seq<char>>) -> bool {
    exists|i: int| 0 <= i < xs.len() && seq_in_list(xs[i], list)
}

/// Whether some string of `xs` equals one of the strings of `list`.
pub fn any_string_in_list(xs: &Vec<String>, list: &Vec<&str>) -> (r: bool)
    ensures
        r == any_in_list(string_views(xs@), list@.map_values(|x: &str| x@)),
{
    let ghost xv = string_views(xs@);
    let mut i: usize = 0;
    while i < xs.len()
        invariant
            i <= xs.len(),
            xv == string_views(xs@),
            forall|k: int| 0 <= k < i ==> !seq_in_list(#[trigger] xv[k], list@.map_values(|x: &str| x@)),
        decreases xs.len() - i,
    {
        let c = chars_of(xs[i].as_str());
        assert(xv[i as int] == xs@[i as int]@);
        if chars_in_str_list(&c, list) {
            return true;
        }
        i = i + 1;
    }
    false
}

/// The number of strings of `list` that occur in `text`.
pub fn count_contained(text: &Vec<char>, list: &Vec<&str>) -> (n: usize)
    ensures
        n == count_occurring(text@, list@.map_values(|x: &str| x@)),
        n <= list@.len(),
{
    let ghost views = list@.map_values(|x: &str| x@);
    let mut n: usize = 0;
    let mut i: usize = 0;
    while i < list.len()
        invariant
            i <= list.len(),
            views == list@.map_values(|x: &str| x@),
            n == count_occurring(text@, views.take(i as int)),
            n <= i,
        decreases list.len() - i,
    {
        proof {
            assert(views.take(i + 1).drop_last() =~= views.take(i as int));
        }
        if chars_contain_str(text, list[i]) {
            n = n + 1;
        }
        i = i + 1;
    }
    assert(views.take(list.len() as int) =~= views);
    n
}

/// The members of `list` whose lower-cased form occurs in `low`, in order.
pub open spec fn keep_lower_occurring(low: Seq<char>, list: Seq<Seq<char>>) -> Seq<Seq<char>>
    decreases list.len(),
{
    if list.len() == 0 {
        Seq::empty()
    } else {
        let rest = keep_lower_occurring(low, list.drop_last());
        if seq_contains(low, lowercase_of(list.last())) {
            rest.push(list.last())
        } else {
            rest
        }
    }
}

/// The members of `list` that occur in `text`, in order.
pub open spec fn keep_occurring(text: Seq<char>, list: Seq<Seq<char>>) -> Seq<Seq<char>>
    decreases list.len(),
{
    if list.len() == 0 {
        Seq::empty()
    } else {
        let rest = keep_occurring(text, list.drop_last());
        if seq_contains(text, list.last()) {
            rest.push(list.last())
        } else {
            rest
        }
    }
}

/// The strings of `list` whose lower-cased form occurs in `low`, in order.
pub fn filter_lower_occurring(low: &Vec<char>, list: &Vec<&str>) -> (r: Vec<String>)
    ensures
        string_views(r@) == keep_lower_occurring(low@, list@.map_values(|x: &str| x@)),
{
    let ghost views = list@.map_values(|x: &str| x@);
    let mut r: Vec<String> = Vec::new();
    let mut i: usize = 0;
    while i < list.len()
        invariant
            i <= list.len(),
            views == list@.map_values(|x: &str| x@),
            string_views(r@) == keep_lower_occurring(low@, views.take(i as int)),
        decreases list.len() - i,
    {
        proof {
            assert(views.take(i + 1).drop_last() =~= views.take(i as int));
        }
        let lk = lowercase_chars(list[i]);
        if vec_contains(low, &lk) {
            let s = to_string(list[i]);
            r.push(s);
            proof {
                assert(string_views(r@) =~= keep_lower_occurring(low@, views.take(i as int)).push(views[i as int]));
            }
        }
        i = i + 1;
    }
    assert(views.take(list.len() as int) =~= views);
    r
}

/// The strings of `list` that occur in `text`, in order.
pub fn filter_occurring(text: &Vec<char>, list: &Vec<&str>) -> (r: Vec<String>)
    ensures
        string_views(r@) == keep_occurring(text@, list@.map_values(|x: &str| x@)),
{
    let ghost views = list@.map_values(|x: &str| x@);
    let mut r: Vec<String> = Vec::new();
    let mut i: usize = 0;
    while i < list.len()
        invariant
            i <= list.len(),
            views == list@.map_values(|x: &str| x@),
            string_views(r@) == keep_occurring(text@, views.take(i as int)),
        decreases list.len() - i,
    {
        proof {
            assert(views.take(i + 1).drop_last() =~= views.take(i as int));
        }
        if chars_contain_str(text, list[i]) {
            let s = to_string(list[i]);
            r.push(s);
            proof {
                assert(string_views(r@) =~= keep_occurring(text@, views.take(i as int)).push(views[i as int]));
            }
        }
        i = i + 1;
    }
    assert(views.take(list.len() as int) =~= views);
    r
}

/// The views of a sequence of string slices.
pub open spec fn strs_view(v: Seq<&str>) -> Seq<Seq<char>> {
    v.map_values(|x: &str| x@)
}

} // verus!
