//! The advanced check for fabricated content in an answer: numbers that no
//! source bears out, sayings put in the mouth of unknown people, and rulings
//! that no source supports.
use vstd::prelude::*;
use crate::text::{
    any_occurs, char_utf8_width, chars_of, contains_any, lowercase_chars, lowercase_of, regex_captures,
    regex_group_captures, seq_contains, split_words, captures_view, push_str, string_from_chars, string_views,
    to_string, utf8_length, strs_view, utf8_len, utf8_width, vec_contains, vec_eq, words,
};
use crate::types::IslamicSource;
use crate::anti_hallucination::{authors_of, is_known_scholar_or_source, known_name_spec, FabricatedContent, FabricationType};

verus! {

// ---------------------------------------------------------------------------
// Integers written in decimal
// ---------------------------------------------------------------------------

/// Whether `c` is an ASCII decimal digit.
pub open spec fn is_ascii_digit(c: char) -> bool {
    '0' <= c && c <= '9'
}

/// The value of a string of ASCII decimal digits.
pub open spec fn digits_value(s: Seq<char>) -> nat
    decreases s.len(),
{
    if s.len() == 0 {
        0
    } else {
        digits_value(s.drop_last()) * 10 + (s.last() as nat - '0' as nat) as nat
    }
}

/// Whether `s` starts with a sign, `+` or `-`.
pub open spec fn has_sign(s: Seq<char>) -> bool {
    s.len() > 0 && (s[0] == '-' || s[0] == '+')
}

/// `s` without its sign.
pub open spec fn unsigned_part(s: Seq<char>) -> Seq<char> {
    if has_sign(s) { s.skip(1) } else { s }
}

/// Whether every character of `d` is an ASCII digit.
pub open spec fn all_ascii_digits(d: Seq<char>) -> bool {
    forall|i: int| 0 <= i < d.len() ==> is_ascii_digit(#[trigger] d[i])
}

/// What `str::parse::<i32>` gives: an optional sign, `+` or `-`, then one or
/// more ASCII digits whose value, with the sign, fits in an `i32`; nothing
/// otherwise.
pub open spec fn parse_i32_spec(s: Seq<char>) -> Option<i32> {
    let digits = unsigned_part(s);
    if digits.len() == 0 || !all_ascii_digits(digits) {
        None
    } else {
        let v: int = if s[0] == '-' { -(digits_value(digits) as int) } else { digits_value(digits) as int };
        if i32::MIN <= v && v <= i32::MAX {
            Some(v as i32)
        } else {
            None
        }
    }
}

/// Appending a digit never lowers the value.
proof fn lemma_digits_value_grows(s: Seq<char>)
    requires
        s.len() > 0,
        is_ascii_digit(s.last()),
    ensures
        digits_value(s) >= digits_value(s.drop_last()),
{
}

/// Parses `s` as `str::parse::<i32>` does (see `parse_i32_spec`).
pub fn parse_i32(s: &Vec<char>) -> (r: Option<i32>)
    ensures
        r == parse_i32_spec(s@),
{
    let n = s.len();
    if n == 0 {
        return None;
    }
    let negative = s[0] == '-';
    let signed = s[0] == '-' || s[0] == '+';
    let first: usize = if signed { 1 } else { 0 };
    let ghost digits = unsigned_part(s@);
    if first == n {
        return None;
    }
    // 2^31, the magnitude of `i32::MIN`
    let limit: u64 = 2147483648;
    let mut acc: u64 = 0;
    let mut too_big = false;
    let mut i: usize = first;
    while i < n
        invariant
            first <= i <= n,
            n == s@.len(),
            n > 0,
            limit == 2147483648,
            negative == (s@[0] == '-'),
            signed == (s@[0] == '-' || s@[0] == '+'),
            first == (if signed { 1usize } else { 0usize }),
            digits == unsigned_part(s@),
            digits == s@.skip(first as int),
            forall|k: int| 0 <= k < i - first ==> is_ascii_digit(#[trigger] digits[k]),
            !too_big ==> acc == digits_value(digits.take(i - first)) && acc <= limit,
            too_big ==> digits_value(digits.take(i - first)) > limit,
        decreases n - i,
    {
        let c = s[i];
        assert(digits[i - first] == c);
        if !('0' <= c && c <= '9') {
            assert(!is_ascii_digit(digits[i - first]));
            return None;
        }
        proof {
            assert(digits.take(i - first + 1).drop_last() =~= digits.take(i - first));
            assert(digits.take(i - first + 1).last() == c);
        }
        if !too_big {
            let d: u64 = (c as u32 - '0' as u32) as u64;
            assert(acc <= limit);
            assert(acc * 10 <= limit * 10) by (nonlinear_arith)
                requires
                    acc <= limit,
            ;
            acc = acc * 10 + d;
            if acc > limit {
                too_big = true;
            }
        } else {
            proof {
                lemma_digits_value_grows(digits.take(i - first + 1));
            }
        }
        i = i + 1;
    }
    proof {
        assert(digits.take(n - first) =~= digits);
    }
    if too_big {
        return None;
    }
    if negative {
        let v: i64 = -(acc as i64);
        Some(v as i32)
    } else if acc <= 2147483647 {
        Some(acc as i32)
    } else {
        None
    }
}

// ---------------------------------------------------------------------------
// Slices of a text by byte offsets
// ---------------------------------------------------------------------------

/// The byte offset in the UTF-8 encoding of `s` at which its character `i`
/// starts (the length of the encoding when `i` is the length of `s`).
pub open spec fn byte_offset(s: Seq<char>, i: int) -> nat {
    utf8_len(s.take(i))
}

/// Whether `b` is a byte offset where a character of `s` starts, or the end
/// of `s` (what `str::is_char_boundary` tests).
pub open spec fn is_char_boundary(s: Seq<char>, b: int) -> bool {
    exists|i: int| 0 <= i <= s.len() && byte_offset(s, i) == b
}

/// The character index of the boundary at byte offset `b`.
pub open spec fn char_index_of(s: Seq<char>, b: int) -> int {
    choose|i: int| 0 <= i <= s.len() && byte_offset(s, i) == b
}

/// How many of the first `n` characters of `s` start before byte `b`.
pub open spec fn starting_before(s: Seq<char>, n: int, b: int) -> int
    decreases n,
{
    if n <= 0 {
        0
    } else {
        starting_before(s, n - 1, b) + if byte_offset(s, n - 1) < b { 1int } else { 0int }
    }
}

/// How many of the first `n` characters of `s` end at or before byte `b`.
pub open spec fn ending_by(s: Seq<char>, n: int, b: int) -> int
    decreases n,
{
    if n <= 0 {
        0
    } else {
        ending_by(s, n - 1, b) + if byte_offset(s, n) <= b { 1int } else { 0int }
    }
}

/// The characters of `s` that lie wholly between the byte offsets `lo` and
/// `hi`: from the first that starts at or after `lo` to the last that ends
/// at or before `hi`. Where `lo` or `hi` falls inside a character, the cut
/// moves inward to the next boundary.
pub open spec fn inner_slice(s: Seq<char>, lo: int, hi: int) -> Seq<char> {
    let a = starting_before(s, s.len() as int, lo);
    let c = ending_by(s, s.len() as int, hi);
    if a <= c {
        s.subrange(a, c)
    } else {
        Seq::empty()
    }
}


/// One more character adds its width to the offset.
proof fn lemma_offset_step(s: Seq<char>, i: int)
    requires
        0 <= i < s.len(),
    ensures
        byte_offset(s, i + 1) == byte_offset(s, i) + char_utf8_width(s[i]),
        char_utf8_width(s[i]) >= 1,
{
    assert(s.take(i + 1).drop_last() =~= s.take(i));
}

/// Offsets grow strictly from character to character.
proof fn lemma_offsets_increase(s: Seq<char>, i: int, j: int)
    requires
        0 <= i < j <= s.len(),
    ensures
        byte_offset(s, i) < byte_offset(s, j),
    decreases j - i,
{
    lemma_offset_step(s, j - 1);
    if i < j - 1 {
        lemma_offsets_increase(s, i, j - 1);
    }
}

/// A count of the first `n` characters is at most `n`.
proof fn lemma_counts_bounded(s: Seq<char>, n: int, b: int)
    requires
        0 <= n,
    ensures
        0 <= starting_before(s, n, b) <= n,
        0 <= ending_by(s, n, b) <= n,
    decreases n,
{
    if n > 0 {
        lemma_counts_bounded(s, n - 1, b);
    }
}

/// No character from index `k` on starts before `b` when character `k` does
/// not, so at most `k` characters do.
proof fn lemma_starting_before_at_most(s: Seq<char>, n: int, b: int, k: int)
    requires
        0 <= k <= n <= s.len(),
        byte_offset(s, k) >= b,
    ensures
        starting_before(s, n, b) <= k,
    decreases n,
{
    if n > k {
        lemma_starting_before_at_most(s, n - 1, b, k);
        if k < n - 1 {
            lemma_offsets_increase(s, k, n - 1);
        }
    } else {
        lemma_counts_bounded(s, n, b);
    }
}

/// Every character up to index `k` ends by `b` when character `k - 1` does,
/// so at least `k` characters do.
proof fn lemma_ending_by_at_least(s: Seq<char>, n: int, b: int, k: int)
    requires
        0 <= k <= n <= s.len(),
        byte_offset(s, k) <= b,
    ensures
        ending_by(s, n, b) >= k,
    decreases n,
{
    if n > k {
        lemma_ending_by_at_least(s, n - 1, b, k);
    } else if n > 0 {
        lemma_offsets_increase(s, n - 1, n);
        lemma_ending_by_at_least(s, n - 1, b, n - 1);
    }
}

/// The characters of `s` that lie wholly between the byte offsets `lo` and
/// `hi` (see `inner_slice`).
pub fn inner_window(s: &Vec<char>, lo: usize, hi: usize) -> (r: Vec<char>)
    ensures
        r@ == inner_slice(s@, lo as int, hi as int),
{
    let n = s.len();
    let mut i: usize = 0;
    let mut off: u128 = 0;
    let mut a: usize = 0;
    let mut c: usize = 0;
    while i < n
        invariant
            i <= n,
            n == s@.len(),
            off == byte_offset(s@, i as int),
            off <= 4 * i,
            a == starting_before(s@, i as int, lo as int),
            c == ending_by(s@, i as int, hi as int),
            a <= i,
            c <= i,
        decreases n - i,
    {
        proof {
            lemma_offset_step(s@, i as int);
        }
        let w = utf8_width(s[i]);
        if off < lo as u128 {
            a = a + 1;
        }
        off = off + w as u128;
        if off <= hi as u128 {
            c = c + 1;
        }
        i = i + 1;
    }
    let mut r: Vec<char> = Vec::new();
    if a <= c {
        let mut k: usize = a;
        while k < c
            invariant
                a <= k <= c,
                c <= n,
                n == s@.len(),
                r@ == s@.subrange(a as int, k as int),
            decreases c - k,
        {
            r.push(s[k]);
            proof {
                assert(s@.subrange(a as int, k + 1) =~= s@.subrange(a as int, k as int).push(s@[k as int]));
            }
            k = k + 1;
        }
    }
    r
}

/// Where `lo <= start <= end <= hi` and `start` and `end` are character
/// boundaries of `s`, the characters wholly between `lo` and `hi` are a run
/// of `s` that holds the characters between `start` and `end`.
pub proof fn law_inner_slice_holds_range(s: Seq<char>, lo: int, hi: int, start: int, end: int)
    requires
        lo <= start <= end <= hi,
        is_char_boundary(s, start),
        is_char_boundary(s, end),
    ensures
        ({
            let a = starting_before(s, s.len() as int, lo);
            let c = ending_by(s, s.len() as int, hi);
            let i = char_index_of(s, start);
            let j = char_index_of(s, end);
            &&& 0 <= a <= i <= j <= c <= s.len()
            &&& inner_slice(s, lo, hi) == s.subrange(a, c)
            &&& s.subrange(i, j) == inner_slice(s, lo, hi).subrange(i - a, j - a)
        }),
{
    let i = char_index_of(s, start);
    let j = char_index_of(s, end);
    assert(0 <= i <= s.len() && byte_offset(s, i) == start);
    assert(0 <= j <= s.len() && byte_offset(s, j) == end);
    if i > j {
        lemma_offsets_increase(s, j, i);
    }
    lemma_starting_before_at_most(s, s.len() as int, lo, i);
    lemma_ending_by_at_least(s, s.len() as int, hi, j);
    lemma_counts_bounded(s, s.len() as int, lo);
    lemma_counts_bounded(s, s.len() as int, hi);
    let a = starting_before(s, s.len() as int, lo);
    let c = ending_by(s, s.len() as int, hi);
    assert(s.subrange(i, j) =~= s.subrange(a, c).subrange(i - a, j - a));
}

// ---------------------------------------------------------------------------
// Numbers that no source bears out
// ---------------------------------------------------------------------------

/// How many bytes of text around a number are taken as its context.
pub const CONTEXT_BYTES: usize = 50;

/// The byte range of the context of a match from `start` to `end` in a text of
/// `len` bytes: fifty bytes on either side, cut at the ends of the text.
pub open spec fn context_bounds(len: int, start: int, end: int) -> (int, int) {
    (
        if start >= CONTEXT_BYTES { start - CONTEXT_BYTES } else { 0 },
        if end + CONTEXT_BYTES < len { end + CONTEXT_BYTES } else { len },
    )
}

/// The pattern of a run of digits.
pub open spec fn number_pattern() -> Seq<char> {
    "\\d+"@
}

/// The text of the first match of `pattern` in `text`, if any.
pub open spec fn first_match_text(pattern: Seq<char>, text: Seq<char>) -> Option<Seq<char>> {
    let caps = regex_group_captures(pattern, text, 0);
    if caps.len() > 0 {
        match caps[0] {
            Some(m) => Some(m.2),
            None => None,
        }
    } else {
        None
    }
}

/// Whether some source's text, lower-cased, contains `context` lower-cased.
pub open spec fn quoted_in_sources(context: Seq<char>, sources: Seq<IslamicSource>) -> bool {
    exists|i: int| 0 <= i < sources.len() && #[trigger] seq_contains(lowercase_of(sources[i].text@), lowercase_of(context))
}

/// A number in `context` is suspicious when no source contains the context
/// and the first run of digits in it reads as an `i32` above a million, or
/// above a hundred where the context speaks of years ("سنة").
pub open spec fn suspicious_number_spec(context: Seq<char>, sources: Seq<IslamicSource>) -> bool {
    !quoted_in_sources(context, sources) && match first_match_text(number_pattern(), context) {
        Some(t) => match parse_i32_spec(t) {
            Some(n) => n > 1000000 || (n > 100 && seq_contains(context, "سنة"@)),
            None => false,
        },
        None => false,
    }
}

/// Whether a number in `context` is suspicious (see `suspicious_number_spec`).
pub fn is_suspicious_number_claim(context: &str, sources: &Vec<IslamicSource>) -> (r: bool)
    ensures
        r == suspicious_number_spec(context@, sources@),
{
    let low = lowercase_chars(context);
    let mut i: usize = 0;
    while i < sources.len()
        invariant
            i <= sources.len(),
            low@ == lowercase_of(context@),
            forall|k: int| 0 <= k < i ==> !#[trigger] seq_contains(lowercase_of(sources@[k].text@), lowercase_of(context@)),
        decreases sources.len() - i,
    {
        let text = lowercase_chars(sources[i].text.as_str());
        if vec_contains(&text, &low) {
            return false;
        }
        i = i + 1;
    }
    let caps = regex_captures("\\d+", context, 0);
    proof {
        reveal_strlit("\\d+");
    }
    if caps.len() == 0 {
        return false;
    }
    match &caps[0] {
        Some(m) => {
            let digits = chars_of(m.2.as_str());
            match parse_i32(&digits) {
                Some(n) => {
                    let cc = chars_of(context);
                    let years = chars_of("سنة");
                    n > 1000000 || (n > 100 && vec_contains(&cc, &years))
                },
                None => false,
            }
        },
        None => false,
    }
}

// ---------------------------------------------------------------------------
// Rulings that no source supports
// ---------------------------------------------------------------------------

/// The words that name the rulings of jurisprudence.
pub open spec fn ruling_keyword_list() -> Seq<Seq<char>> {
    seq!["واجب"@, "فرض"@, "مستحب"@, "سنة"@, "مكروه"@, "حرام"@, "مباح"@]
}

/// The distinct words of `s`.
pub open spec fn word_set(s: Seq<char>) -> Set<Seq<char>> {
    words(s).to_set()
}

/// A ruling matches a source's text in meaning when one of them names a
/// ruling and more than two fifths of the ruling's distinct words occur in the
/// text. (The comparison of the share with 0.4 is exact here; in single
/// precision it comes out the same for fewer than 2^20 distinct words.)
pub open spec fn semantic_ruling_match_spec(ruling: Seq<char>, source_text: Seq<char>) -> bool {
    &&& (any_occurs(ruling, ruling_keyword_list()) || any_occurs(source_text, ruling_keyword_list()))
    &&& 5 * word_set(ruling).intersect(word_set(source_text)).len() > 2 * word_set(ruling).len()
}

/// The views of a vector of character vectors.
pub open spec fn char_vec_views(v: Seq<Vec<char>>) -> Seq<Seq<char>> {
    v.map_values(|w: Vec<char>| w@)
}

/// Whether `w` is one of the words of `ws`.
fn has_word(ws: &Vec<Vec<char>>, w: &Vec<char>) -> (r: bool)
    ensures
        r == char_vec_views(ws@).contains(w@),
{
    let ghost views = char_vec_views(ws@);
    let mut i: usize = 0;
    while i < ws.len()
        invariant
            i <= ws.len(),
            views == char_vec_views(ws@),
            forall|k: int| 0 <= k < i ==> views[k] != w@,
        decreases ws.len() - i,
    {
        if vec_eq(&ws[i], w) {
            assert(views[i as int] == w@);
            return true;
        }
        i = i + 1;
    }
    false
}

/// Whether a lower-cased ruling matches a lower-cased source text in meaning
/// (see `semantic_ruling_match_spec`).
pub fn check_semantic_ruling_match(ruling: &Vec<char>, source_text: &Vec<char>) -> (r: bool)
    ensures
        r == semantic_ruling_match_spec(ruling@, source_text@),
{
    let keywords = vec!["واجب", "فرض", "مستحب", "سنة", "مكروه", "حرام", "مباح"];
    assert(strs_view(keywords@) =~= ruling_keyword_list());
    if !(contains_any(ruling, &keywords) || contains_any(source_text, &keywords)) {
        return false;
    }
    let ruling_words = split_words(ruling);
    let source_words = split_words(source_text);
    let ghost rw = char_vec_views(ruling_words@);
    let ghost sw = char_vec_views(source_words@);
    let mut distinct: Vec<Vec<char>> = Vec::new();
    let mut common: usize = 0;
    let ghost mut shared: Seq<Seq<char>> = Seq::empty();
    let mut i: usize = 0;
    while i < ruling_words.len()
        invariant
            i <= ruling_words.len(),
            rw == char_vec_views(ruling_words@),
            sw == char_vec_views(source_words@),
            rw == words(ruling@),
            sw == words(source_text@),
            char_vec_views(distinct@).no_duplicates(),
            char_vec_views(distinct@).to_set() == rw.take(i as int).to_set(),
            distinct@.len() <= i,
            shared.no_duplicates(),
            shared.to_set() == char_vec_views(distinct@).to_set().intersect(sw.to_set()),
            shared.len() == common,
            common <= distinct@.len(),
        decreases ruling_words.len() - i,
    {
        let w = &ruling_words[i];
        let ghost dv = char_vec_views(distinct@);
        proof {
            assert(rw.take(i + 1) =~= rw.take(i as int).push(w@));
            rw.take(i as int).lemma_push_to_set_commute(w@);
        }
        if !has_word(&distinct, w) {
            let seen = has_word(&source_words, w);
            distinct.push(w.clone());
            proof {
                let nd = char_vec_views(distinct@);
                assert(nd =~= dv.push(w@));
                dv.lemma_push_to_set_commute(w@);
                assert forall|a: int, b: int| 0 <= a < nd.len() && 0 <= b < nd.len() && a != b implies nd[a] != nd[b] by {
                    if a < dv.len() && b < dv.len() {
                    } else if a == dv.len() {
                        assert(!dv.contains(w@));
                        assert(nd[b] == dv[b]);
                    } else {
                        assert(!dv.contains(w@));
                        assert(nd[a] == dv[a]);
                    }
                }
            }
            if seen {
                proof {
                    let old_shared = shared;
                    shared = shared.push(w@);
                    old_shared.lemma_push_to_set_commute(w@);
                    assert(!old_shared.contains(w@)) by {
                        if old_shared.contains(w@) {
                            assert(old_shared.to_set().contains(w@));
                        }
                    }
                    assert forall|a: int, b: int| 0 <= a < shared.len() && 0 <= b < shared.len() && a != b implies shared[a] != shared[b] by {
                        if a < old_shared.len() && b < old_shared.len() {
                        } else if a == old_shared.len() {
                            assert(shared[b] == old_shared[b]);
                        } else {
                            assert(shared[a] == old_shared[a]);
                        }
                    }
                    assert(shared.to_set() =~= char_vec_views(distinct@).to_set().intersect(sw.to_set()));
                }
                common = common + 1;
            } else {
                proof {
                    assert(shared.to_set() =~= char_vec_views(distinct@).to_set().intersect(sw.to_set()));
                }
            }
        } else {
            proof {
                assert(rw.take(i as int).to_set().insert(w@) =~= rw.take(i as int).to_set());
            }
        }
        i = i + 1;
    }
    proof {
        assert(rw.take(ruling_words.len() as int) =~= rw);
        char_vec_views(distinct@).unique_seq_to_set();
        shared.unique_seq_to_set();
    }
    let total = distinct.len();
    5 * (common as u128) > 2 * (total as u128)
}

/// A lower-cased source text supports a lower-cased ruling when it contains
/// it or matches it in meaning.
pub open spec fn supports_ruling(low_text: Seq<char>, low_ruling: Seq<char>) -> bool {
    seq_contains(low_text, low_ruling) || semantic_ruling_match_spec(low_ruling, low_text)
}

/// Some source supports the ruling, both lower-cased.
pub open spec fn ruling_supported_spec(ruling: Seq<char>, sources: Seq<IslamicSource>) -> bool {
    exists|i: int| 0 <= i < sources.len() && #[trigger] supports_ruling(lowercase_of(sources[i].text@), lowercase_of(ruling))
}

/// Whether some source supports the ruling (see `ruling_supported_spec`).
pub fn is_ruling_supported_by_sources(ruling: &str, sources: &Vec<IslamicSource>) -> (r: bool)
    ensures
        r == ruling_supported_spec(ruling@, sources@),
{
    let low = lowercase_chars(ruling);
    let mut i: usize = 0;
    while i < sources.len()
        invariant
            i <= sources.len(),
            low@ == lowercase_of(ruling@),
            forall|k: int| 0 <= k < i ==> !#[trigger] supports_ruling(lowercase_of(sources@[k].text@), lowercase_of(ruling@)),
        decreases sources.len() - i,
    {
        let text = lowercase_chars(sources[i].text.as_str());
        if vec_contains(&text, &low) || check_semantic_ruling_match(&low, &text) {
            assert(supports_ruling(lowercase_of(sources@[i as int].text@), lowercase_of(ruling@)));
            return true;
        }
        i = i + 1;
    }
    false
}

// ---------------------------------------------------------------------------
// The check as a whole
// ---------------------------------------------------------------------------

/// What a finding holds: its text, its kind, the confidence in hundredths and
/// the evidence.
pub open spec fn fab_view(f: FabricatedContent) -> (Seq<char>, FabricationType, u32, Seq<Seq<char>>) {
    (f.content@, f.content_type, f.confidence_hundredths, string_views(f.evidence@))
}

/// The findings held by a vector.
pub open spec fn fab_views(v: Seq<FabricatedContent>) -> Seq<(Seq<char>, FabricationType, u32, Seq<Seq<char>>)> {
    v.map_values(|f: FabricatedContent| fab_view(f))
}

/// The evidence given for a number.
pub open spec fn number_evidence() -> Seq<char> {
    "رقم غير مدعوم بالمصادر"@
}

/// The evidence given for a saying put in an unknown mouth.
pub open spec fn quote_evidence() -> Seq<char> {
    "شخصية غير معروفة أو غير مدعومة بالمصادر"@
}

/// The evidence given for a ruling.
pub open spec fn ruling_evidence() -> Seq<char> {
    "حكم غير مدعوم بالمصادر الشرعية"@
}

/// The patterns of sayings put in someone's mouth: "قال ...:" and
/// "ذكر ... أن"; their first group is the name.
pub open spec fn quote_patterns() -> Seq<Seq<char>> {
    seq!["قال\\s+([^:]+):"@, "ذكر\\s+([^:]+)\\s+أن"@]
}

/// The patterns of rulings: "يجب ...", "يحرم ...", "يستحب ..." up to a full
/// stop; their first group is the ruling.
pub open spec fn ruling_patterns() -> Seq<Seq<char>> {
    seq!["يجب\\s+([^.]+)"@, "يحرم\\s+([^.]+)"@, "يستحب\\s+([^.]+)"@]
}

/// The context of a number matched from byte `start` to byte `end` of `text`:
/// the characters wholly within fifty bytes on either side of it.
pub open spec fn number_context(text: Seq<char>, start: int, end: int) -> Seq<char> {
    let (lo, hi) = context_bounds(utf8_len(text) as int, start, end);
    inner_slice(text, lo, hi)
}

/// The finding for one number, if its context is suspicious.
pub open spec fn number_finding(text: Seq<char>, m: Option<(usize, usize, Seq<char>)>, sources: Seq<IslamicSource>) -> Seq<(Seq<char>, FabricationType, u32, Seq<Seq<char>>)> {
    match m {
        Some(t) => {
            let context = number_context(text, t.0 as int, t.1 as int);
            if suspicious_number_spec(context, sources) {
                seq![(context, FabricationType::FakeRuling, 70u32, seq![number_evidence()])]
            } else {
                Seq::empty()
            }
        },
        None => Seq::empty(),
    }
}

/// The findings for the numbers matched, in order.
pub open spec fn number_findings(text: Seq<char>, matches: Seq<Option<(usize, usize, Seq<char>)>>, sources: Seq<IslamicSource>) -> Seq<(Seq<char>, FabricationType, u32, Seq<Seq<char>>)>
    decreases matches.len(),
{
    if matches.len() == 0 {
        Seq::empty()
    } else {
        number_findings(text, matches.drop_last(), sources) + number_finding(text, matches.last(), sources)
    }
}

/// The finding for one quoted name, if it is not known.
pub open spec fn quote_finding(c: Option<(usize, usize, Seq<char>)>, sources: Seq<IslamicSource>) -> Seq<(Seq<char>, FabricationType, u32, Seq<Seq<char>>)> {
    match c {
        Some(t) => if !known_name_spec(t.2, authors_of(sources)) {
            seq![("قول منسوب إلى: "@ + t.2, FabricationType::FakeQuote, 80u32, seq![quote_evidence()])]
        } else {
            Seq::empty()
        },
        None => Seq::empty(),
    }
}

/// The findings for the quoted names, in order.
pub open spec fn quote_findings(caps: Seq<Option<(usize, usize, Seq<char>)>>, sources: Seq<IslamicSource>) -> Seq<(Seq<char>, FabricationType, u32, Seq<Seq<char>>)>
    decreases caps.len(),
{
    if caps.len() == 0 {
        Seq::empty()
    } else {
        quote_findings(caps.drop_last(), sources) + quote_finding(caps.last(), sources)
    }
}

/// The finding for one ruling, if no source supports it.
pub open spec fn ruling_finding(c: Option<(usize, usize, Seq<char>)>, sources: Seq<IslamicSource>) -> Seq<(Seq<char>, FabricationType, u32, Seq<Seq<char>>)> {
    match c {
        Some(t) => if !ruling_supported_spec(t.2, sources) {
            seq![("حكم فقهي: "@ + t.2, FabricationType::FakeRuling, 90u32, seq![ruling_evidence()])]
        } else {
            Seq::empty()
        },
        None => Seq::empty(),
    }
}

/// The findings for the rulings, in order.
pub open spec fn ruling_findings(caps: Seq<Option<(usize, usize, Seq<char>)>>, sources: Seq<IslamicSource>) -> Seq<(Seq<char>, FabricationType, u32, Seq<Seq<char>>)>
    decreases caps.len(),
{
    if caps.len() == 0 {
        Seq::empty()
    } else {
        ruling_findings(caps.drop_last(), sources) + ruling_finding(caps.last(), sources)
    }
}

/// All findings: the numbers, then the sayings of each quote pattern, then
/// the rulings of each ruling pattern.
pub open spec fn advanced_fabrications_spec(text: Seq<char>, sources: Seq<IslamicSource>) -> Seq<(Seq<char>, FabricationType, u32, Seq<Seq<char>>)> {
    number_findings(text, regex_group_captures(number_pattern(), text, 0), sources)
        + quote_findings(regex_group_captures(quote_patterns()[0], text, 1), sources)
        + quote_findings(regex_group_captures(quote_patterns()[1], text, 1), sources)
        + ruling_findings(regex_group_captures(ruling_patterns()[0], text, 1), sources)
        + ruling_findings(regex_group_captures(ruling_patterns()[1], text, 1), sources)
        + ruling_findings(regex_group_captures(ruling_patterns()[2], text, 1), sources)
}

/// A finding with one piece of evidence.
fn finding(content: String, content_type: FabricationType, confidence_hundredths: u32, evidence: &str) -> (r: FabricatedContent)
    ensures
        fab_view(r) == (content@, content_type, confidence_hundredths, seq![evidence@]),
{
    let mut ev: Vec<String> = Vec::new();
    ev.push(to_string(evidence));
    assert(string_views(ev@) =~= seq![evidence@]);
    FabricatedContent { content, content_type, confidence_hundredths, evidence: ev }
}

/// `prefix` followed by `s`.
fn prefixed(prefix: &str, s: &String) -> (r: String)
    ensures
        r@ == prefix@ + s@,
{
    let mut v: Vec<char> = Vec::new();
    push_str(&mut v, prefix);
    push_str(&mut v, s.as_str());
    string_from_chars(&v)
}

/// Appends the findings for the quoted names of `pattern` in `text`.
fn push_quote_findings(out: &mut Vec<FabricatedContent>, pattern: &str, text: &str, sources: &Vec<IslamicSource>)
    ensures
        fab_views(final(out)@) == fab_views(old(out)@) + quote_findings(regex_group_captures(pattern@, text@, 1), sources@),
{
    let caps = regex_captures(pattern, text, 1);
    let ghost cv = captures_view(caps@);
    let mut i: usize = 0;
    while i < caps.len()
        invariant
            i <= caps.len(),
            cv == captures_view(caps@),
            cv == regex_group_captures(pattern@, text@, 1),
            fab_views(out@) == fab_views(old(out)@) + quote_findings(cv.take(i as int), sources@),
        decreases caps.len() - i,
    {
        let ghost before = fab_views(out@);
        proof {
            assert(cv.take(i + 1).drop_last() =~= cv.take(i as int));
            assert(cv.take(i + 1).last() == cv[i as int]);
        }
        match &caps[i] {
            Some(m) => {
                assert(cv[i as int] == Some((m.0, m.1, m.2@)));
                if !is_known_scholar_or_source(m.2.as_str(), sources) {
                    let f = finding(prefixed("قول منسوب إلى: ", &m.2), FabricationType::FakeQuote, 80, "شخصية غير معروفة أو غير مدعومة بالمصادر");
                    out.push(f);
                    proof {
                        assert(fab_views(out@) =~= before.push(fab_view(f)));
                    }
                } else {
                    assert(quote_finding(cv[i as int], sources@) =~= Seq::empty());
                }
            },
            None => {
                assert(cv[i as int] is None);
            },
        }
        proof {
            assert(fab_views(out@) =~= fab_views(old(out)@) + quote_findings(cv.take(i + 1), sources@));
        }
        i = i + 1;
    }
    proof {
        assert(cv.take(caps.len() as int) =~= cv);
    }
}

/// Appends the findings for the rulings of `pattern` in `text`.
fn push_ruling_findings(out: &mut Vec<FabricatedContent>, pattern: &str, text: &str, sources: &Vec<IslamicSource>)
    ensures
        fab_views(final(out)@) == fab_views(old(out)@) + ruling_findings(regex_group_captures(pattern@, text@, 1), sources@),
{
    let caps = regex_captures(pattern, text, 1);
    let ghost cv = captures_view(caps@);
    let mut i: usize = 0;
    while i < caps.len()
        invariant
            i <= caps.len(),
            cv == captures_view(caps@),
            cv == regex_group_captures(pattern@, text@, 1),
            fab_views(out@) == fab_views(old(out)@) + ruling_findings(cv.take(i as int), sources@),
        decreases caps.len() - i,
    {
        let ghost before = fab_views(out@);
        proof {
            assert(cv.take(i + 1).drop_last() =~= cv.take(i as int));
            assert(cv.take(i + 1).last() == cv[i as int]);
        }
        match &caps[i] {
            Some(m) => {
                assert(cv[i as int] == Some((m.0, m.1, m.2@)));
                if !is_ruling_supported_by_sources(m.2.as_str(), sources) {
                    let f = finding(prefixed("حكم فقهي: ", &m.2), FabricationType::FakeRuling, 90, "حكم غير مدعوم بالمصادر الشرعية");
                    out.push(f);
                    proof {
                        assert(fab_views(out@) =~= before.push(fab_view(f)));
                    }
                } else {
                    assert(ruling_finding(cv[i as int], sources@) =~= Seq::empty());
                }
            },
            None => {
                assert(cv[i as int] is None);
            },
        }
        proof {
            assert(fab_views(out@) =~= fab_views(old(out)@) + ruling_findings(cv.take(i + 1), sources@));
        }
        i = i + 1;
    }
    proof {
        assert(cv.take(caps.len() as int) =~= cv);
    }
}

/// The encoding of two runs of characters is as long as theirs together.
proof fn lemma_utf8_len_concat(x: Seq<char>, y: Seq<char>)
    ensures
        utf8_len(x + y) == utf8_len(x) + utf8_len(y),
    decreases y.len(),
{
    if y.len() == 0 {
        assert(x + y =~= x);
    } else {
        lemma_utf8_len_concat(x, y.drop_last());
        assert((x + y).drop_last() =~= x + y.drop_last());
        assert((x + y).last() == y.last());
    }
}

/// Every character before index `k` starts before `b` when character `k - 1`
/// does, so at least `k` characters do.
proof fn lemma_starting_before_at_least(s: Seq<char>, n: int, b: int, k: int)
    requires
        0 <= k <= n <= s.len(),
        k == 0 || byte_offset(s, k - 1) < b,
    ensures
        starting_before(s, n, b) >= k,
    decreases n,
{
    if n > k {
        lemma_starting_before_at_least(s, n - 1, b, k);
    } else if n > 0 {
        if n > 1 {
            lemma_offsets_increase(s, n - 2, n - 1);
        }
        lemma_starting_before_at_least(s, n - 1, b, n - 1);
    }
}

/// No character from index `k` on ends by `b` when character `k - 1` does
/// not, so fewer than `k` characters do.
proof fn lemma_ending_by_below(s: Seq<char>, n: int, b: int, k: int)
    requires
        1 <= k <= n <= s.len(),
        byte_offset(s, k) > b,
    ensures
        ending_by(s, n, b) < k,
    decreases n,
{
    if n > k {
        lemma_offsets_increase(s, k, n);
        lemma_ending_by_below(s, n - 1, b, k);
    } else {
        lemma_counts_bounded(s, n - 1, b);
    }
}

/// The context of a number holds the number: where the match runs from byte
/// `start` to byte `end` of `text` at character boundaries, its context is a
/// run of `text` in which the matched characters stand, and its encoding is
/// at most a hundred bytes longer than the match.
pub proof fn law_number_context_holds_match(text: Seq<char>, start: int, end: int)
    requires
        0 <= start <= end <= utf8_len(text),
        is_char_boundary(text, start),
        is_char_boundary(text, end),
    ensures
        ({
            let ctx = number_context(text, start, end);
            let i = char_index_of(text, start);
            let j = char_index_of(text, end);
            &&& exists|a: int|
                0 <= a <= i && j <= a + ctx.len() <= text.len() && ctx == text.subrange(a, a + ctx.len())
                    && #[trigger] ctx.subrange(i - a, j - a) == text.subrange(i, j)
            &&& utf8_len(ctx) <= end - start + 2 * CONTEXT_BYTES
        }),
{
    let n = text.len() as int;
    let (lo, hi) = context_bounds(utf8_len(text) as int, start, end);
    law_inner_slice_holds_range(text, lo, hi, start, end);
    let a = starting_before(text, n, lo);
    let c = ending_by(text, n, hi);
    let i = char_index_of(text, start);
    let ctx = number_context(text, start, end);
    assert(ctx == text.subrange(a, c));
    assert(ctx.len() == c - a);
    assert(text.subrange(a, a + ctx.len()) == ctx);
    // the context starts at or after `lo`
    if a < n {
        if byte_offset(text, a) < lo {
            lemma_starting_before_at_least(text, n, lo, a + 1);
        }
    } else {
        assert(i == a);
    }
    // and ends at or before `hi`
    if c == 0 {
        assert(text.take(0) =~= Seq::<char>::empty());
    } else if byte_offset(text, c) > hi {
        lemma_ending_by_below(text, n, hi, c);
    }
    assert(text.take(c) =~= text.take(a) + text.subrange(a, c));
    lemma_utf8_len_concat(text.take(a), text.subrange(a, c));
}

/// The context of a number matched from `start` to `end` in `text` (of
/// `len` bytes): the characters wholly within fifty bytes on either side.
pub fn context_around_match(text: &Vec<char>, len: usize, start: usize, end: usize) -> (r: Vec<char>)
    requires
        len == utf8_len(text@),
    ensures
        r@ == number_context(text@, start as int, end as int),
{
    let lo: usize = if start >= CONTEXT_BYTES { start - CONTEXT_BYTES } else { 0 };
    let hi: usize = if end < len && len - end > CONTEXT_BYTES { end + CONTEXT_BYTES } else { len };
    inner_window(text, lo, hi)
}

/// Looks for fabricated content in an answer: each run of digits whose
/// context (the characters within fifty bytes on either side) no source
/// contains and which reads as an implausible number; each saying put in the
/// mouth of someone who is neither a known scholar nor an author of the
/// sources; each ruling that no source supports (see
/// `advanced_fabrications_spec`).
pub fn detect_advanced_fabrication(response_text: &str, sources: &Vec<IslamicSource>) -> (r: Vec<FabricatedContent>)
    requires
        utf8_len(response_text@) <= usize::MAX,
    ensures
        fab_views(r@) == advanced_fabrications_spec(response_text@, sources@),
{
    let text = chars_of(response_text);
    let len = utf8_length(&text);
    let numbers = regex_captures("\\d+", response_text, 0);
    let ghost nv = captures_view(numbers@);
    let mut out: Vec<FabricatedContent> = Vec::new();
    let mut i: usize = 0;
    while i < numbers.len()
        invariant
            i <= numbers.len(),
            text@ == response_text@,
            len == utf8_len(text@),
            nv == captures_view(numbers@),
            nv == regex_group_captures(number_pattern(), response_text@, 0),
            fab_views(out@) == number_findings(response_text@, nv.take(i as int), sources@),
        decreases numbers.len() - i,
    {
        let ghost before = fab_views(out@);
        proof {
            assert(nv.take(i + 1).drop_last() =~= nv.take(i as int));
            assert(nv.take(i + 1).last() == nv[i as int]);
        }
        match &numbers[i] {
            Some(m) => {
                assert(nv[i as int] == Some((m.0, m.1, m.2@)));
                let w = context_around_match(&text, len, m.0, m.1);
                let context = string_from_chars(&w);
                if is_suspicious_number_claim(context.as_str(), sources) {
                    let f = finding(context, FabricationType::FakeRuling, 70, "رقم غير مدعوم بالمصادر");
                    out.push(f);
                    proof {
                        assert(fab_views(out@) =~= before.push(fab_view(f)));
                    }
                } else {
                    assert(number_finding(response_text@, nv[i as int], sources@) =~= Seq::empty());
                }
            },
            None => {
                assert(nv[i as int] is None);
            },
        }
        proof {
            assert(fab_views(out@) =~= number_findings(response_text@, nv.take(i + 1), sources@));
        }
        i = i + 1;
    }
    proof {
        assert(nv.take(numbers.len() as int) =~= nv);
    }
    push_quote_findings(&mut out, "قال\\s+([^:]+):", response_text, sources);
    push_quote_findings(&mut out, "ذكر\\s+([^:]+)\\s+أن", response_text, sources);
    push_ruling_findings(&mut out, "يجب\\s+([^.]+)", response_text, sources);
    push_ruling_findings(&mut out, "يحرم\\s+([^.]+)", response_text, sources);
    push_ruling_findings(&mut out, "يستحب\\s+([^.]+)", response_text, sources);
    proof {
        assert(fab_views(out@) =~= advanced_fabrications_spec(response_text@, sources@));
    }
    out
}

} // verus!
