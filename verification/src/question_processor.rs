//! Analysis of a user's question: normalisation, keywords, concepts, type,
//! complexity, language, and whether it is within the Islamic scope.
use vstd::prelude::*;
use crate::text::{any_in_list, any_occurs, any_string_in_list, char_is_alphabetic, chars_in_str_list, chars_of, contains_any, count_contained, count_occurring, filter_lower_occurring, filter_occurring, is_alphabetic_char, join_spaced, join_with_spaces, keep_lower_occurring, keep_occurring, lowercase_chars, lowercase_of, push_chars, push_str, regex_replace_all, regex_replaced, seq_contains, seq_in_list, sort_dedup, split_words, str_eq, strictly_sorted, string_from_chars, string_views, strs_view, to_lowercase, to_string, utf8_len, utf8_length, vec_contains, words};
use crate::types::{AIServiceError, ComplexityLevel, Language, ProcessedQuestion, QuestionType};

verus! {

// ---------------------------------------------------------------------------
// Text normalisation
// ---------------------------------------------------------------------------

/// Unifies the hamza forms of alif and alif maqsura. Taa marbuta is kept, so
/// that words such as "صلاة" are still found in the normal form.
pub open spec fn unify_letter(c: char) -> char {
    if c == 'أ' || c == 'إ' || c == 'آ' {
        'ا'
    } else if c == 'ى' {
        'ي'
    } else {
        c
    }
}

/// `unify_letter` applied to every character.
pub open spec fn unify_letters(s: Seq<char>) -> Seq<char> {
    s.map_values(|c: char| unify_letter(c))
}

/// The normal form of `text`: lower-cased, diacritics removed, letter forms
/// unified, punctuation turned into spaces, and runs of white space collapsed
/// into single spaces with none at either end.
pub open spec fn normal_form(diacritics: Seq<char>, punctuation: Seq<char>, text: Seq<char>) -> Seq<char> {
    let no_marks = regex_replaced(diacritics, lowercase_of(text), Seq::empty());
    let spaced = regex_replaced(punctuation, unify_letters(no_marks), seq![' ']);
    join_spaced(words(spaced))
}

/// The pattern of the Arabic diacritics and the tatweel.
pub open spec fn diacritics_pattern() -> Seq<char> {
    "[\\u064B-\\u0652\\u0670\\u0640]"@
}

/// The pattern of characters that are neither word characters, white space,
/// nor Arabic letters.
pub open spec fn punctuation_pattern() -> Seq<char> {
    "[^\\w\\s\\u0600-\\u06FF]"@
}

/// Normaliser of Arabic text.
pub struct TextNormalizer {
    pub diacritics_pattern: &'static str,
    pub punctuation_pattern: &'static str,
}

impl TextNormalizer {
    pub fn new() -> (r: Self)
        ensures
            r.diacritics_pattern@ == diacritics_pattern(),
            r.punctuation_pattern@ == punctuation_pattern(),
    {
        TextNormalizer {
            diacritics_pattern: "[\\u064B-\\u0652\\u0670\\u0640]",
            punctuation_pattern: "[^\\w\\s\\u0600-\\u06FF]",
        }
    }

    /// The normal form of `text` (see `normal_form`).
    pub fn normalize(&self, text: &str) -> (r: String)
        ensures
            r@ == normal_form(self.diacritics_pattern@, self.punctuation_pattern@, text@),
    {
        let lowered = to_lowercase(text);
        let no_marks = regex_replace_all(self.diacritics_pattern, lowered.as_str(), "");
        proof {
            reveal_strlit("");
            assert(""@ =~= Seq::<char>::empty());
        }
        let cs = chars_of(no_marks.as_str());
        let mut unified: Vec<char> = Vec::new();
        let mut i: usize = 0;
        while i < cs.len()
            invariant
                i <= cs.len(),
                unified@ == unify_letters(cs@.take(i as int)),
            decreases cs.len() - i,
        {
            let c = cs[i];
            let u = if c == 'أ' || c == 'إ' || c == 'آ' {
                'ا'
            } else if c == 'ى' {
                'ي'
            } else {
                c
            };
            unified.push(u);
            proof {
                assert(unified@ =~= unify_letters(cs@.take(i + 1)));
            }
            i = i + 1;
        }
        assert(cs@.take(cs.len() as int) =~= cs@);
        let unified_s = string_from_chars(&unified);
        let spaced = regex_replace_all(self.punctuation_pattern, unified_s.as_str(), " ");
        proof {
            reveal_strlit(" ");
            assert(" "@ =~= seq![' ']);
        }
        let spaced_cs = chars_of(spaced.as_str());
        let ws = split_words(&spaced_cs);
        let joined = join_with_spaces(&ws);
        string_from_chars(&joined)
    }
}

// ---------------------------------------------------------------------------
// Keywords
// ---------------------------------------------------------------------------

/// The Arabic stop words.
pub open spec fn stop_word_list() -> Seq<Seq<char>> {
    seq![
        "في"@, "من"@, "إلى"@, "على"@, "عن"@, "مع"@, "هذا"@, "هذه"@, "ذلك"@, "تلك"@,
        "التي"@, "الذي"@, "التي"@, "اللذان"@, "اللتان"@, "الذين"@, "اللواتي"@,
        "هل"@, "ما"@, "متى"@, "أين"@, "كيف"@, "لماذا"@, "ماذا"@, "أي"@, "كم"@,
        "أن"@, "إن"@, "كان"@, "كانت"@, "يكون"@, "تكون"@, "سوف"@, "قد"@, "لقد"@,
    ]
}

/// A word without its definite article: a leading "ال" is dropped where at
/// least three letters remain (so "الصلاة" gives "صلاة", and "الله" stays).
pub open spec fn without_article(w: Seq<char>) -> Seq<char> {
    if w.len() >= 5 && w[0] == 'ا' && w[1] == 'ل' {
        w.subrange(2, w.len() as int)
    } else {
        w
    }
}

/// The words of `ws` that are not stop words and take more than two bytes in
/// UTF-8, each without its definite article.
pub open spec fn keep_keywords(ws: Seq<Seq<char>>, stop: Seq<Seq<char>>) -> Seq<Seq<char>>
    decreases ws.len(),
{
    if ws.len() == 0 {
        Seq::empty()
    } else {
        let rest = keep_keywords(ws.drop_last(), stop);
        let w = ws.last();
        if !seq_in_list(w, stop) && utf8_len(w) > 2 {
            rest.push(without_article(w))
        } else {
            rest
        }
    }
}

/// A word without its definite article (see `without_article`).
fn strip_article(w: &Vec<char>) -> (r: Vec<char>)
    ensures
        r@ == without_article(w@),
{
    if w.len() >= 5 && w[0] == 'ا' && w[1] == 'ل' {
        let mut r: Vec<char> = Vec::new();
        let mut i: usize = 2;
        while i < w.len()
            invariant
                2 <= i <= w.len(),
                r@ == w@.subrange(2, i as int),
            decreases w.len() - i,
        {
            r.push(w[i]);
            assert(r@ =~= w@.subrange(2, i + 1));
            i = i + 1;
        }
        r
    } else {
        w.clone()
    }
}

/// The keywords of `text`: its white-space separated words, in order, without
/// stop words and without words of at most two bytes, each without its
/// definite article.
pub open spec fn keywords_of(text: Seq<char>, stop: Seq<Seq<char>>) -> Seq<Seq<char>> {
    keep_keywords(words(text), stop)
}

/// Extractor of keywords.
pub struct KeywordExtractor {
    pub stop_words: Vec<&'static str>,
}

impl KeywordExtractor {
    pub fn new() -> (r: Self)
        ensures
            strs_view(r.stop_words@) == stop_word_list(),
    {
        let stop_words = vec![
            "في", "من", "إلى", "على", "عن", "مع", "هذا", "هذه", "ذلك", "تلك",
            "التي", "الذي", "التي", "اللذان", "اللتان", "الذين", "اللواتي",
            "هل", "ما", "متى", "أين", "كيف", "لماذا", "ماذا", "أي", "كم",
            "أن", "إن", "كان", "كانت", "يكون", "تكون", "سوف", "قد", "لقد",
        ];
        assert(strs_view(stop_words@) =~= stop_word_list());
        KeywordExtractor { stop_words }
    }

    /// The keywords of `text` (see `keywords_of`).
    pub fn extract(&self, text: &str) -> (r: Vec<String>)
        ensures
            string_views(r@) == keywords_of(text@, strs_view(self.stop_words@)),
    {
        let cs = chars_of(text);
        let ws = split_words(&cs);
        let ghost wv = ws@.map_values(|w: Vec<char>| w@);
        let ghost stop = strs_view(self.stop_words@);
        let mut r: Vec<String> = Vec::new();
        let mut i: usize = 0;
        while i < ws.len()
            invariant
                i <= ws.len(),
                wv == ws@.map_values(|w: Vec<char>| w@),
                wv == words(text@),
                stop == strs_view(self.stop_words@),
                string_views(r@) == keep_keywords(wv.take(i as int), stop),
            decreases ws.len() - i,
        {
            proof {
                assert(wv.take(i + 1).drop_last() =~= wv.take(i as int));
                assert(wv[i as int] == ws@[i as int]@);
            }
            let w = &ws[i];
            let is_stop = chars_in_str_list(w, &self.stop_words);
            let n = utf8_length(w);
            if !is_stop && n > 2 {
                let bare = strip_article(w);
                let s = string_from_chars(&bare);
                r.push(s);
                proof {
                    assert(string_views(r@) =~= keep_keywords(wv.take(i as int), stop).push(without_article(wv[i as int])));
                }
            }
            i = i + 1;
        }
        assert(wv.take(ws.len() as int) =~= wv);
        r
    }
}

// ---------------------------------------------------------------------------
// Concepts
// ---------------------------------------------------------------------------

/// Every term of the concept table: each category's concepts followed by the
/// category's own name.
pub open spec fn concept_terms(cats: Seq<(&str, Seq<&str>)>) -> Seq<Seq<char>>
    decreases cats.len(),
{
    if cats.len() == 0 {
        Seq::empty()
    } else {
        concept_terms(cats.drop_last()) + strs_view(cats.last().1) + seq![cats.last().0@]
    }
}

/// The view of a concept table.
pub open spec fn concept_table_view(v: Seq<(&'static str, Vec<&'static str>)>) -> Seq<(&'static str, Seq<&'static str>)> {
    v.map_values(|e: (&'static str, Vec<&'static str>)| (e.0, e.1@))
}

/// The concept table: creed, jurisprudence and hadith terms.
pub open spec fn concept_table() -> Seq<Seq<char>> {
    seq![
        "توحيد"@, "شرك"@, "إيمان"@, "كفر"@, "قدر"@, "قضاء"@, "عقيدة"@,
        "طهارة"@, "صلاة"@, "زكاة"@, "صوم"@, "حج"@, "نكاح"@, "طلاق"@, "فقه"@,
        "صحيح"@, "حسن"@, "ضعيف"@, "موضوع"@, "سند"@, "متن"@, "حديث"@,
    ]
}

/// The categories of concepts with their concepts: creed, jurisprudence and
/// hadith.
pub open spec fn concept_categories() -> Seq<(Seq<char>, Seq<Seq<char>>)> {
    seq![
        ("عقيدة"@, seq!["توحيد"@, "شرك"@, "إيمان"@, "كفر"@, "قدر"@, "قضاء"@]),
        ("فقه"@, seq!["طهارة"@, "صلاة"@, "زكاة"@, "صوم"@, "حج"@, "نكاح"@, "طلاق"@]),
        ("حديث"@, seq!["صحيح"@, "حسن"@, "ضعيف"@, "موضوع"@, "سند"@, "متن"@]),
    ]
}

/// A concept table by the views of its names.
pub open spec fn categories_view(v: Seq<(&'static str, Vec<&'static str>)>) -> Seq<(Seq<char>, Seq<Seq<char>>)> {
    v.map_values(|e: (&'static str, Vec<&'static str>)| (e.0@, strs_view(e.1@)))
}

/// Extractor of Islamic concepts.
pub struct ConceptExtractor {
    pub islamic_concepts: Vec<(&'static str, Vec<&'static str>)>,
}

impl ConceptExtractor {
    pub fn new() -> (r: Self)
        ensures
            categories_view(r.islamic_concepts@) == concept_categories(),
            concept_terms(concept_table_view(r.islamic_concepts@)) == concept_table(),
    {
        let islamic_concepts = vec![
            ("عقيدة", vec!["توحيد", "شرك", "إيمان", "كفر", "قدر", "قضاء"]),
            ("فقه", vec!["طهارة", "صلاة", "زكاة", "صوم", "حج", "نكاح", "طلاق"]),
            ("حديث", vec!["صحيح", "حسن", "ضعيف", "موضوع", "سند", "متن"]),
        ];
        proof {
            let tv = concept_table_view(islamic_concepts@);
            reveal_with_fuel(concept_terms, 4);
            assert(tv.drop_last().drop_last().drop_last() =~= Seq::<(&str, Seq<&str>)>::empty());
            assert(strs_view(tv[0].1) =~= seq!["توحيد"@, "شرك"@, "إيمان"@, "كفر"@, "قدر"@, "قضاء"@]);
            assert(strs_view(tv[1].1) =~= seq!["طهارة"@, "صلاة"@, "زكاة"@, "صوم"@, "حج"@, "نكاح"@, "طلاق"@]);
            assert(strs_view(tv[2].1) =~= seq!["صحيح"@, "حسن"@, "ضعيف"@, "موضوع"@, "سند"@, "متن"@]);
            assert(concept_terms(tv) =~= concept_table());
            assert(categories_view(islamic_concepts@) =~= concept_categories());
        }
        ConceptExtractor { islamic_concepts }
    }

    /// The concepts that occur in `text`, sorted and without duplicates.
    pub fn extract(&self, text: &str) -> (r: Vec<String>)
        ensures
            strictly_sorted(string_views(r@)),
            string_views(r@).to_set() == keep_occurring(
                text@,
                concept_terms(concept_table_view(self.islamic_concepts@)),
            ).to_set(),
    {
        let ghost tv = concept_table_view(self.islamic_concepts@);
        let mut terms: Vec<&str> = Vec::new();
        let mut i: usize = 0;
        while i < self.islamic_concepts.len()
            invariant
                i <= self.islamic_concepts.len(),
                tv == concept_table_view(self.islamic_concepts@),
                strs_view(terms@) == concept_terms(tv.take(i as int)),
            decreases self.islamic_concepts.len() - i,
        {
            proof {
                assert(tv.take(i + 1).drop_last() =~= tv.take(i as int));
            }
            let cat = &self.islamic_concepts[i];
            let mut j: usize = 0;
            let ghost before = strs_view(terms@);
            while j < cat.1.len()
                invariant
                    j <= cat.1.len(),
                    strs_view(terms@) == before + strs_view(cat.1@.take(j as int)),
                decreases cat.1.len() - j,
            {
                let ghost prev = terms@;
                terms.push(cat.1[j]);
                proof {
                    assert(strs_view(terms@) =~= strs_view(prev).push(cat.1@[j as int]@));
                    assert(cat.1@.take(j + 1) =~= cat.1@.take(j as int).push(cat.1@[j as int]));
                    assert(strs_view(cat.1@.take(j + 1)) =~= strs_view(cat.1@.take(j as int)).push(cat.1@[j as int]@));
                    assert(strs_view(terms@) =~= before + strs_view(cat.1@.take(j + 1)));
                }
                j = j + 1;
            }
            terms.push(cat.0);
            proof {
                assert(cat.1@.take(cat.1.len() as int) =~= cat.1@);
                assert(tv[i as int] == (cat.0, cat.1@));
                assert(strs_view(terms@) =~= concept_terms(tv.take(i + 1)));
            }
            i = i + 1;
        }
        assert(tv.take(self.islamic_concepts.len() as int) =~= tv);
        let cs = chars_of(text);
        let found = filter_occurring(&cs, &terms);
        sort_dedup(found)
    }
}

// ---------------------------------------------------------------------------
// Classification
// ---------------------------------------------------------------------------

pub open spec fn aqeedah_terms() -> Seq<Seq<char>> {
    seq!["توحيد"@, "شرك"@, "إيمان"@, "كفر"@]
}

pub open spec fn fiqh_terms() -> Seq<Seq<char>> {
    seq!["صلاة"@, "زكاة"@, "صوم"@, "حج"@, "طهارة"@]
}

pub open spec fn tafsir_terms() -> Seq<Seq<char>> {
    seq!["تفسير"@, "آية"@, "سورة"@]
}

pub open spec fn hadith_terms() -> Seq<Seq<char>> {
    seq!["حديث"@, "صحيح"@, "ضعيف"@, "سند"@]
}

pub open spec fn sirah_terms() -> Seq<Seq<char>> {
    seq!["سيرة"@, "غزوة"@, "صحابة"@]
}

pub open spec fn akhlaq_terms() -> Seq<Seq<char>> {
    seq!["أخلاق"@, "آداب"@, "سلوك"@]
}

pub open spec fn dua_terms() -> Seq<Seq<char>> {
    seq!["دعاء"@, "ذكر"@, "تسبيح"@]
}

/// The type of a question with these keywords and concepts: the first of
/// creed, jurisprudence, exegesis, hadith, biography and ethics whose terms
/// include one of the concepts; else supplication if a keyword is one of its
/// terms; else general.
pub open spec fn classify_spec(keywords: Seq<Seq<char>>, concepts: Seq<Seq<char>>) -> QuestionType {
    if any_in_list(concepts, aqeedah_terms()) {
        QuestionType::Aqeedah
    } else if any_in_list(concepts, fiqh_terms()) {
        QuestionType::Fiqh
    } else if any_in_list(concepts, tafsir_terms()) {
        QuestionType::Tafsir
    } else if any_in_list(concepts, hadith_terms()) {
        QuestionType::Hadith
    } else if any_in_list(concepts, sirah_terms()) {
        QuestionType::Sirah
    } else if any_in_list(concepts, akhlaq_terms()) {
        QuestionType::Akhlaq
    } else if any_in_list(keywords, dua_terms()) {
        QuestionType::Dua
    } else {
        QuestionType::General
    }
}

/// Classifier of questions by type.
pub struct QuestionClassifier;

impl QuestionClassifier {
    pub fn new() -> (r: Self) {
        QuestionClassifier
    }

    /// The type of the question (see `classify_spec`); the text is not consulted.
    pub fn classify(&self, text: &str, keywords: &Vec<String>, concepts: &Vec<String>) -> (r: QuestionType)
        ensures
            r == classify_spec(string_views(keywords@), string_views(concepts@)),
    {
        let aqeedah = vec!["توحيد", "شرك", "إيمان", "كفر"];
        assert(strs_view(aqeedah@) =~= aqeedah_terms());
        if any_string_in_list(concepts, &aqeedah) {
            return QuestionType::Aqeedah;
        }
        let fiqh = vec!["صلاة", "زكاة", "صوم", "حج", "طهارة"];
        assert(strs_view(fiqh@) =~= fiqh_terms());
        if any_string_in_list(concepts, &fiqh) {
            return QuestionType::Fiqh;
        }
        let tafsir = vec!["تفسير", "آية", "سورة"];
        assert(strs_view(tafsir@) =~= tafsir_terms());
        if any_string_in_list(concepts, &tafsir) {
            return QuestionType::Tafsir;
        }
        let hadith = vec!["حديث", "صحيح", "ضعيف", "سند"];
        assert(strs_view(hadith@) =~= hadith_terms());
        if any_string_in_list(concepts, &hadith) {
            return QuestionType::Hadith;
        }
        let sirah = vec!["سيرة", "غزوة", "صحابة"];
        assert(strs_view(sirah@) =~= sirah_terms());
        if any_string_in_list(concepts, &sirah) {
            return QuestionType::Sirah;
        }
        let akhlaq = vec!["أخلاق", "آداب", "سلوك"];
        assert(strs_view(akhlaq@) =~= akhlaq_terms());
        if any_string_in_list(concepts, &akhlaq) {
            return QuestionType::Akhlaq;
        }
        let dua = vec!["دعاء", "ذكر", "تسبيح"];
        assert(strs_view(dua@) =~= dua_terms());
        if any_string_in_list(keywords, &dua) {
            return QuestionType::Dua;
        }
        QuestionType::General
    }
}

// ---------------------------------------------------------------------------
// Scope detection
// ---------------------------------------------------------------------------

/// Where a question stands with respect to the Islamic scope.
#[derive(Debug, Clone, Copy, PartialEq, Eq, Structural)]
pub enum ScopeStatus {
    InScope,
    Borderline,
    OutOfScope,
}

/// The words that mark a question as outside the Islamic scope.
pub open spec fn out_of_scope_indicator_list() -> Seq<Seq<char>> {
    seq![
        "برمجة"@, "كمبيوتر"@, "تكنولوجيا"@, "إنترنت"@, "هاتف"@, "تطبيق"@,
        "ذكي"@, "روبوت"@, "ذكاء اصطناعي"@,
        "فيزياء"@, "كيمياء"@, "رياضيات"@, "جيولوجيا"@, "فلك"@, "بيولوجيا"@,
        "دواء"@, "علاج"@, "مرض"@, "طبيب"@, "مستشفى"@, "عملية جراحية"@,
        "كرة قدم"@, "رياضة"@, "لعبة"@, "فيلم"@, "مسلسل"@, "موسيقى"@, "غناء"@,
        "سياسة"@, "حكومة"@, "انتخابات"@, "رئيس"@, "وزير"@, "اقتصاد"@, "بورصة"@,
        "أسهم"@, "بنك"@, "فوائد"@, "ربا"@,
        "طبخ"@, "وصفة"@, "مطعم"@, "طعام"@, "أكل"@,
        "سفر"@, "سياحة"@, "فندق"@, "طيران"@, "تذكرة"@,
        "موضة"@, "أزياء"@, "مكياج"@, "تجميل"@, "شعر"@,
    ]
}

/// The words that give a question an Islamic context.
pub open spec fn islamic_context_list() -> Seq<Seq<char>> {
    seq![
        "إسلام"@, "مسلم"@, "قرآن"@, "حديث"@, "سنة"@, "فقه"@, "شريعة"@, "حلال"@, "حرام"@,
        "صلاة"@, "زكاة"@, "صوم"@, "حج"@, "عمرة"@, "دعاء"@, "ذكر"@, "تسبيح"@,
        "نبي"@, "رسول"@, "صحابة"@, "تابعين"@, "علماء"@, "مذهب"@, "عقيدة"@,
        "جنة"@, "نار"@, "آخرة"@, "يوم القيامة"@, "ملائكة"@, "جن"@, "شيطان"@,
    ]
}

/// Topics that may have an Islamic side, each with that side.
pub open spec fn borderline_topic_list() -> Seq<(Seq<char>, Seq<char>)> {
    seq![
        ("طب"@, "الطب النبوي والعلاج بالقرآن والسنة"@),
        ("اقتصاد"@, "الاقتصاد الإسلامي والمعاملات المالية"@),
        ("قانون"@, "الفقه الإسلامي والأحكام الشرعية"@),
        ("تاريخ"@, "التاريخ الإسلامي والسيرة النبوية"@),
        ("فلسفة"@, "الفلسفة الإسلامية وعلم الكلام"@),
        ("علم نفس"@, "التزكية والأخلاق الإسلامية"@),
    ]
}

/// The answers given to out-of-scope questions, by category.
pub open spec fn fallback_response_list() -> Seq<(Seq<char>, Seq<char>)> {
    seq![
        ("تكنولوجيا"@, "أعتذر، لكن تخصصي في الشؤون الإسلامية. إذا كان لديك سؤال حول الاستخدام الإسلامي للتكنولوجيا أو آدابها في الإسلام، فسأكون سعيداً لمساعدتك."@),
        ("طب"@, "تخصصي في الشؤون الإسلامية وليس الطب. لكن يمكنني مساعدتك في موضوعات الطب النبوي، أو الأحكام الشرعية المتعلقة بالعلاج والصحة."@),
        ("عام"@, "أعتذر، هذا السؤال خارج نطاق تخصصي في الشؤون الإسلامية. أنا هنا لمساعدتك في أمور الدين والفقه والعقيدة والقرآن والسنة. هل لديك سؤال إسلامي يمكنني مساعدتك فيه؟"@),
    ]
}

/// The view of a table of string pairs.
pub open spec fn pairs_view(v: Seq<(&str, &str)>) -> Seq<(Seq<char>, Seq<char>)> {
    v.map_values(|p: (&str, &str)| (p.0@, p.1@))
}

/// The first components of a table of pairs.
pub open spec fn pair_keys(v: Seq<(Seq<char>, Seq<char>)>) -> Seq<Seq<char>> {
    v.map_values(|p: (Seq<char>, Seq<char>)| p.0)
}

/// The entries of `table` whose key, lower-cased, occurs in `low`, in order.
pub open spec fn keep_lower_occurring_pairs(low: Seq<char>, table: Seq<(Seq<char>, Seq<char>)>) -> Seq<(Seq<char>, Seq<char>)>
    decreases table.len(),
{
    if table.len() == 0 {
        Seq::empty()
    } else {
        let rest = keep_lower_occurring_pairs(low, table.drop_last());
        if seq_contains(low, lowercase_of(table.last().0)) {
            rest.push(table.last())
        } else {
            rest
        }
    }
}

/// The value of the first entry of `table` with key `key`.
pub open spec fn lookup(table: Seq<(Seq<char>, Seq<char>)>, key: Seq<char>) -> Option<Seq<char>>
    decreases table.len(),
{
    if table.len() == 0 {
        None
    } else if table[0].0 == key {
        Some(table[0].1)
    } else {
        lookup(table.drop_first(), key)
    }
}

/// The opening of a suggestion of the Islamic side of a topic.
pub open spec fn suggestion_prefix() -> Seq<char> {
    "يمكنني مساعدتك في "@
}

/// The scope status from the numbers of Islamic keywords, out-of-scope
/// keywords and borderline topics found: out of scope where the out-of-scope
/// keywords outnumber the Islamic ones; else borderline where a borderline
/// topic is present (it may have an Islamic side, which is suggested); else in
/// scope where the Islamic keywords outnumber the others; else borderline.
pub open spec fn scope_status_of(islamic: nat, out_of_scope: nat, borderline: nat) -> ScopeStatus {
    if out_of_scope > islamic {
        ScopeStatus::OutOfScope
    } else if borderline > 0 {
        ScopeStatus::Borderline
    } else if islamic > out_of_scope {
        ScopeStatus::InScope
    } else {
        ScopeStatus::Borderline
    }
}

/// The analysis of a question's scope.
#[derive(Debug, Clone)]
pub struct ScopeAnalysis {
    pub scope_status: ScopeStatus,
    pub islamic_keywords: Vec<String>,
    pub out_of_scope_keywords: Vec<String>,
    pub borderline_topics: Vec<String>,
    pub suggested_islamic_angle: Option<String>,
}

/// The category of an out-of-scope question, from its first keyword that
/// belongs to technology, medicine or entertainment; general otherwise.
pub open spec fn category_of(keywords: Seq<Seq<char>>) -> Seq<char>
    decreases keywords.len(),
{
    if keywords.len() == 0 {
        "عام"@
    } else if seq_in_list(keywords[0], seq!["برمجة"@, "كمبيوتر"@, "تكنولوجيا"@]) {
        "تكنولوجيا"@
    } else if seq_in_list(keywords[0], seq!["دواء"@, "علاج"@, "طبيب"@]) {
        "طب"@
    } else if seq_in_list(keywords[0], seq!["رياضة"@, "لعبة"@, "فيلم"@]) {
        "ترفيه"@
    } else {
        category_of(keywords.drop_first())
    }
}

/// The answer for a question in scope.
pub open spec fn in_scope_reply() -> Seq<char> {
    "هذا السؤال في نطاق تخصصي. سأحاول الإجابة عليه بإذن الله."@
}

/// The answer for a borderline question without a suggestion.
pub open spec fn borderline_reply() -> Seq<char> {
    "هذا الموضوع قد يكون له جوانب إسلامية. هل يمكنك توضيح السؤال أكثر ليكون في نطاق الشؤون الإسلامية؟"@
}

/// The answer for a borderline question with the suggestion `s`.
pub open spec fn borderline_reply_with(s: Seq<char>) -> Seq<char> {
    "هذا الموضوع يمكن أن يكون له جانب إسلامي. "@ + s + ". هل تريد أن أركز على الجانب الإسلامي؟"@
}

/// Detector of questions outside the Islamic scope.
pub struct OutOfScopeDetector {
    pub out_of_scope_indicators: Vec<&'static str>,
    pub borderline_topics: Vec<(&'static str, &'static str)>,
    pub fallback_responses: Vec<(&'static str, &'static str)>,
    pub islamic_context_keywords: Vec<&'static str>,
}

impl OutOfScopeDetector {
    pub open spec fn indicators(&self) -> Seq<Seq<char>> {
        strs_view(self.out_of_scope_indicators@)
    }

    pub open spec fn islamic(&self) -> Seq<Seq<char>> {
        strs_view(self.islamic_context_keywords@)
    }

    pub open spec fn borderline(&self) -> Seq<(Seq<char>, Seq<char>)> {
        pairs_view(self.borderline_topics@)
    }

    pub open spec fn fallbacks(&self) -> Seq<(Seq<char>, Seq<char>)> {
        pairs_view(self.fallback_responses@)
    }

    /// The detector has an answer for the general category.
    pub open spec fn has_general_fallback(&self) -> bool {
        lookup(self.fallbacks(), "عام"@) is Some
    }

    /// Whether `text` is out of scope: no Islamic keyword occurs in its lower-cased
    /// form, and some out-of-scope indicator (lower-cased) does.
    pub open spec fn out_of_scope_spec(&self, text: Seq<char>) -> bool {
        let low = lowercase_of(text);
        !any_occurs(low, self.islamic()) && keep_lower_occurring(low, self.indicators()).len() > 0
    }

    /// The Islamic keywords of `text`.
    pub open spec fn islamic_found(&self, text: Seq<char>) -> Seq<Seq<char>> {
        keep_lower_occurring(lowercase_of(text), self.islamic())
    }

    /// The out-of-scope keywords of `text`.
    pub open spec fn out_of_scope_found(&self, text: Seq<char>) -> Seq<Seq<char>> {
        keep_lower_occurring(lowercase_of(text), self.indicators())
    }

    /// The borderline topics of `text`, with their Islamic sides.
    pub open spec fn borderline_found(&self, text: Seq<char>) -> Seq<(Seq<char>, Seq<char>)> {
        keep_lower_occurring_pairs(lowercase_of(text), self.borderline())
    }

    /// The scope status of `text`.
    pub open spec fn status_spec(&self, text: Seq<char>) -> ScopeStatus {
        scope_status_of(
            self.islamic_found(text).len(),
            self.out_of_scope_found(text).len(),
            self.borderline_found(text).len(),
        )
    }

    /// The suggested Islamic side for `text`: that of its first borderline topic.
    pub open spec fn suggestion_spec(&self, text: Seq<char>) -> Option<Seq<char>> {
        let b = self.borderline_found(text);
        if b.len() > 0 {
            Some(suggestion_prefix() + b[0].1)
        } else {
            None
        }
    }

    /// The answer that `generate_fallback_response` gives for an analysis with
    /// this status, suggestion and out-of-scope keywords.
    pub open spec fn fallback_spec(
        &self,
        status: ScopeStatus,
        suggestion: Option<Seq<char>>,
        out_keywords: Seq<Seq<char>>,
    ) -> Seq<char> {
        match status {
            ScopeStatus::InScope => in_scope_reply(),
            ScopeStatus::Borderline => match suggestion {
                Some(s) => borderline_reply_with(s),
                None => borderline_reply(),
            },
            ScopeStatus::OutOfScope => match lookup(self.fallbacks(), category_of(out_keywords)) {
                Some(r) => r,
                None => lookup(self.fallbacks(), "عام"@).unwrap(),
            },
        }
    }

    pub fn new() -> (r: Self)
        ensures
            r.indicators() == out_of_scope_indicator_list(),
            r.islamic() == islamic_context_list(),
            r.borderline() == borderline_topic_list(),
            r.fallbacks() == fallback_response_list(),
            r.has_general_fallback(),
    {
        let out_of_scope_indicators = vec![
            "برمجة", "كمبيوتر", "تكنولوجيا", "إنترنت", "هاتف", "تطبيق",
            "ذكي", "روبوت", "ذكاء اصطناعي",
            "فيزياء", "كيمياء", "رياضيات", "جيولوجيا", "فلك", "بيولوجيا",
            "دواء", "علاج", "مرض", "طبيب", "مستشفى", "عملية جراحية",
            "كرة قدم", "رياضة", "لعبة", "فيلم", "مسلسل", "موسيقى", "غناء",
            "سياسة", "حكومة", "انتخابات", "رئيس", "وزير", "اقتصاد", "بورصة",
            "أسهم", "بنك", "فوائد", "ربا",
            "طبخ", "وصفة", "مطعم", "طعام", "أكل",
            "سفر", "سياحة", "فندق", "طيران", "تذكرة",
            "موضة", "أزياء", "مكياج", "تجميل", "شعر",
        ];
        let borderline_topics = vec![
            ("طب", "الطب النبوي والعلاج بالقرآن والسنة"),
            ("اقتصاد", "الاقتصاد الإسلامي والمعاملات المالية"),
            ("قانون", "الفقه الإسلامي والأحكام الشرعية"),
            ("تاريخ", "التاريخ الإسلامي والسيرة النبوية"),
            ("فلسفة", "الفلسفة الإسلامية وعلم الكلام"),
            ("علم نفس", "التزكية والأخلاق الإسلامية"),
        ];
        let fallback_responses = vec![
            ("تكنولوجيا", "أعتذر، لكن تخصصي في الشؤون الإسلامية. إذا كان لديك سؤال حول الاستخدام الإسلامي للتكنولوجيا أو آدابها في الإسلام، فسأكون سعيداً لمساعدتك."),
            ("طب", "تخصصي في الشؤون الإسلامية وليس الطب. لكن يمكنني مساعدتك في موضوعات الطب النبوي، أو الأحكام الشرعية المتعلقة بالعلاج والصحة."),
            ("عام", "أعتذر، هذا السؤال خارج نطاق تخصصي في الشؤون الإسلامية. أنا هنا لمساعدتك في أمور الدين والفقه والعقيدة والقرآن والسنة. هل لديك سؤال إسلامي يمكنني مساعدتك فيه؟"),
        ];
        let islamic_context_keywords = vec![
            "إسلام", "مسلم", "قرآن", "حديث", "سنة", "فقه", "شريعة", "حلال", "حرام",
            "صلاة", "زكاة", "صوم", "حج", "عمرة", "دعاء", "ذكر", "تسبيح",
            "نبي", "رسول", "صحابة", "تابعين", "علماء", "مذهب", "عقيدة",
            "جنة", "نار", "آخرة", "يوم القيامة", "ملائكة", "جن", "شيطان",
        ];
        let r = OutOfScopeDetector {
            out_of_scope_indicators,
            borderline_topics,
            fallback_responses,
            islamic_context_keywords,
        };
        proof {
            assert(r.indicators() =~= out_of_scope_indicator_list());
            assert(r.islamic() =~= islamic_context_list());
            assert(r.borderline() =~= borderline_topic_list());
            assert(r.fallbacks() =~= fallback_response_list());
            let f = r.fallbacks();
            reveal_strlit("تكنولوجيا");
            reveal_strlit("طب");
            reveal_strlit("عام");
            assert(f[0].0 == "تكنولوجيا"@);
            assert(f[1].0 == "طب"@);
            assert("تكنولوجيا"@.len() != "عام"@.len());
            assert("طب"@.len() != "عام"@.len());
            assert(f[0].0 != "عام"@);
            assert(f[1].0 != "عام"@);
            assert(f[2].0 == "عام"@);
            assert(f.drop_first()[0] == f[1]);
            assert(f.drop_first().drop_first()[0] == f[2]);
            let f2 = f.drop_first().drop_first();
            assert(f2[0].0 == "عام"@);
            assert(lookup(f2, "عام"@) == Some(f2[0].1));
            assert(lookup(f.drop_first(), "عام"@) == lookup(f2, "عام"@));
            assert(lookup(f, "عام"@) == lookup(f.drop_first(), "عام"@));
            assert(lookup(f, "عام"@) is Some);
        }
        r
    }

    /// Whether `text` is out of scope (see `out_of_scope_spec`).
    pub fn is_out_of_scope(&self, text: &str) -> (r: bool)
        ensures
            r == self.out_of_scope_spec(text@),
    {
        let low = lowercase_chars(text);
        if contains_any(&low, &self.islamic_context_keywords) {
            return false;
        }
        let found = filter_lower_occurring(&low, &self.out_of_scope_indicators);
        assert(string_views(found@).len() == found@.len());
        found.len() > 0
    }

    /// The entries of the borderline table whose topic occurs in `low`.
    fn borderline_in(&self, low: &Vec<char>) -> (r: Vec<(String, String)>)
        ensures
            r@.map_values(|p: (String, String)| (p.0@, p.1@)) == keep_lower_occurring_pairs(low@, self.borderline()),
    {
        let ghost table = self.borderline();
        let mut r: Vec<(String, String)> = Vec::new();
        let mut i: usize = 0;
        while i < self.borderline_topics.len()
            invariant
                i <= self.borderline_topics.len(),
                table == self.borderline(),
                r@.map_values(|p: (String, String)| (p.0@, p.1@)) == keep_lower_occurring_pairs(low@, table.take(i as int)),
            decreases self.borderline_topics.len() - i,
        {
            proof {
                assert(table.take(i + 1).drop_last() =~= table.take(i as int));
            }
            let (topic, angle) = self.borderline_topics[i];
            let lt = lowercase_chars(topic);
            if vec_contains(low, &lt) {
                let t = to_string(topic);
                let a = to_string(angle);
                let ghost prev = r@;
                r.push((t, a));
                proof {
                    assert(r@.map_values(|p: (String, String)| (p.0@, p.1@)) =~= prev.map_values(
                        |p: (String, String)| (p.0@, p.1@),
                    ).push(table[i as int]));
                }
            }
            i = i + 1;
        }
        assert(table.take(self.borderline_topics.len() as int) =~= table);
        r
    }

    /// The scope analysis of `text`.
    pub fn get_scope_analysis(&self, text: &str) -> (r: ScopeAnalysis)
        ensures
            string_views(r.islamic_keywords@) == self.islamic_found(text@),
            string_views(r.out_of_scope_keywords@) == self.out_of_scope_found(text@),
            string_views(r.borderline_topics@) == pair_keys(self.borderline_found(text@)),
            r.scope_status == self.status_spec(text@),
            match r.suggested_islamic_angle {
                Some(s) => self.suggestion_spec(text@) == Some(s@),
                None => self.suggestion_spec(text@) is None,
            },
    {
        let low = lowercase_chars(text);
        let islamic_keywords = filter_lower_occurring(&low, &self.islamic_context_keywords);
        let out_of_scope_keywords = filter_lower_occurring(&low, &self.out_of_scope_indicators);
        let found = self.borderline_in(&low);
        let ghost fv = found@.map_values(|p: (String, String)| (p.0@, p.1@));
        let mut borderline_topics: Vec<String> = Vec::new();
        let mut i: usize = 0;
        while i < found.len()
            invariant
                i <= found.len(),
                fv == found@.map_values(|p: (String, String)| (p.0@, p.1@)),
                string_views(borderline_topics@) == pair_keys(fv.take(i as int)),
            decreases found.len() - i,
        {
            let t = found[i].0.clone();
            let ghost prev = borderline_topics@;
            borderline_topics.push(t);
            proof {
                assert(fv[i as int].0 == found@[i as int].0@);
                assert(string_views(borderline_topics@) =~= string_views(prev).push(fv[i as int].0));
                assert(pair_keys(fv.take(i + 1)) =~= pair_keys(fv.take(i as int)).push(fv[i as int].0));
            }
            i = i + 1;
        }
        assert(fv.take(found.len() as int) =~= fv);
        let ni = islamic_keywords.len() as i128;
        let no = out_of_scope_keywords.len() as i128;
        let nb = borderline_topics.len() as i128;
        assert(string_views(islamic_keywords@).len() == islamic_keywords@.len());
        assert(string_views(out_of_scope_keywords@).len() == out_of_scope_keywords@.len());
        assert(string_views(borderline_topics@).len() == borderline_topics@.len());
        proof {
            lemma_keep_len(low@, self.islamic());
            lemma_keep_len(low@, self.indicators());
            lemma_keep_pairs_len(low@, self.borderline());
        }
        let scope_status = if no > ni {
            ScopeStatus::OutOfScope
        } else if nb > 0 {
            ScopeStatus::Borderline
        } else if ni > no {
            ScopeStatus::InScope
        } else {
            ScopeStatus::Borderline
        };
        let suggested_islamic_angle = if found.len() > 0 {
            let mut v = chars_of("يمكنني مساعدتك في ");
            let angle = chars_of(found[0].1.as_str());
            push_chars(&mut v, &angle);
            proof {
                assert(fv[0].1 == found@[0].1@);
            }
            Some(string_from_chars(&v))
        } else {
            None
        };
        ScopeAnalysis {
            scope_status,
            islamic_keywords,
            out_of_scope_keywords,
            borderline_topics,
            suggested_islamic_angle,
        }
    }

    /// The reply that suits an analysis (see `fallback_spec`).
    pub fn generate_fallback_response(&self, analysis: &ScopeAnalysis) -> (r: String)
        requires
            self.has_general_fallback(),
        ensures
            r@ == self.fallback_spec(
                analysis.scope_status,
                match analysis.suggested_islamic_angle {
                    Some(s) => Some(s@),
                    None => None,
                },
                string_views(analysis.out_of_scope_keywords@),
            ),
    {
        match analysis.scope_status {
            ScopeStatus::InScope => to_string("هذا السؤال في نطاق تخصصي. سأحاول الإجابة عليه بإذن الله."),
            ScopeStatus::Borderline => match &analysis.suggested_islamic_angle {
                Some(suggestion) => {
                    let mut v = chars_of("هذا الموضوع يمكن أن يكون له جانب إسلامي. ");
                    let sc = chars_of(suggestion.as_str());
                    push_chars(&mut v, &sc);
                    push_str(&mut v, ". هل تريد أن أركز على الجانب الإسلامي؟");
                    string_from_chars(&v)
                },
                None => to_string("هذا الموضوع قد يكون له جوانب إسلامية. هل يمكنك توضيح السؤال أكثر ليكون في نطاق الشؤون الإسلامية؟"),
            },
            ScopeStatus::OutOfScope => {
                let category = self.categorize_out_of_scope_topic(&analysis.out_of_scope_keywords);
                match self.find_fallback(category.as_str()) {
                    Some(r) => to_string(r),
                    None => {
                        let g = self.find_fallback("عام");
                        to_string(g.unwrap())
                    },
                }
            },
        }
    }

    /// The answer registered for `key`, if any.
    fn find_fallback(&self, key: &str) -> (r: Option<&'static str>)
        ensures
            match r {
                Some(s) => lookup(self.fallbacks(), key@) == Some(s@),
                None => lookup(self.fallbacks(), key@) is None,
            },
    {
        let ghost table = self.fallbacks();
        let mut i: usize = 0;
        assert(table.skip(0) =~= table);
        while i < self.fallback_responses.len()
            invariant
                i <= self.fallback_responses.len(),
                table == self.fallbacks(),
                lookup(table, key@) == lookup(table.skip(i as int), key@),
            decreases self.fallback_responses.len() - i,
        {
            let (k, v) = self.fallback_responses[i];
            proof {
                assert(table.skip(i as int)[0] == table[i as int]);
                assert(table.skip(i as int).drop_first() =~= table.skip(i + 1));
            }
            if str_eq(k, key) {
                return Some(v);
            }
            i = i + 1;
        }
        None
    }

    /// A suggestion of the Islamic side of the first of `borderline_topics`
    /// that has one.
    pub fn suggest_islamic_angle(&self, borderline_topics: &Vec<String>) -> (r: Option<String>)
        ensures
            match r {
                Some(s) => exists|i: int| 0 <= i < borderline_topics@.len()
                    && #[trigger] lookup(self.borderline(), borderline_topics@[i]@) is Some
                    && s@ == suggestion_prefix() + lookup(self.borderline(), borderline_topics@[i]@).unwrap()
                    && forall|j: int| 0 <= j < i ==> lookup(self.borderline(), #[trigger] borderline_topics@[j]@) is None,
                None => forall|i: int| 0 <= i < borderline_topics@.len() ==> lookup(self.borderline(), #[trigger] borderline_topics@[i]@) is None,
            },
    {
        let mut i: usize = 0;
        while i < borderline_topics.len()
            invariant
                i <= borderline_topics.len(),
                forall|j: int| 0 <= j < i ==> lookup(self.borderline(), #[trigger] borderline_topics@[j]@) is None,
            decreases borderline_topics.len() - i,
        {
            match self.find_borderline(borderline_topics[i].as_str()) {
                Some(angle) => {
                    let mut v = chars_of("يمكنني مساعدتك في ");
                    push_str(&mut v, angle);
                    return Some(string_from_chars(&v));
                },
                None => {},
            }
            i = i + 1;
        }
        None
    }

    /// The Islamic side registered for `topic`, if any.
    fn find_borderline(&self, topic: &str) -> (r: Option<&'static str>)
        ensures
            match r {
                Some(s) => lookup(self.borderline(), topic@) == Some(s@),
                None => lookup(self.borderline(), topic@) is None,
            },
    {
        let ghost table = self.borderline();
        let mut i: usize = 0;
        assert(table.skip(0) =~= table);
        while i < self.borderline_topics.len()
            invariant
                i <= self.borderline_topics.len(),
                table == self.borderline(),
                lookup(table, topic@) == lookup(table.skip(i as int), topic@),
            decreases self.borderline_topics.len() - i,
        {
            let (k, v) = self.borderline_topics[i];
            proof {
                assert(table.skip(i as int)[0] == table[i as int]);
                assert(table.skip(i as int).drop_first() =~= table.skip(i + 1));
            }
            if str_eq(k, topic) {
                return Some(v);
            }
            i = i + 1;
        }
        None
    }

    /// The category of an out-of-scope question (see `category_of`).
    pub fn categorize_out_of_scope_topic(&self, keywords: &Vec<String>) -> (r: String)
        ensures
            r@ == category_of(string_views(keywords@)),
    {
        let tech = vec!["برمجة", "كمبيوتر", "تكنولوجيا"];
        let medical = vec!["دواء", "علاج", "طبيب"];
        let entertainment = vec!["رياضة", "لعبة", "فيلم"];
        assert(strs_view(tech@) =~= seq!["برمجة"@, "كمبيوتر"@, "تكنولوجيا"@]);
        assert(strs_view(medical@) =~= seq!["دواء"@, "علاج"@, "طبيب"@]);
        assert(strs_view(entertainment@) =~= seq!["رياضة"@, "لعبة"@, "فيلم"@]);
        let ghost kv = string_views(keywords@);
        let mut i: usize = 0;
        assert(kv.skip(0) =~= kv);
        while i < keywords.len()
            invariant
                i <= keywords.len(),
                kv == string_views(keywords@),
                category_of(kv) == category_of(kv.skip(i as int)),
                strs_view(tech@) == seq!["برمجة"@, "كمبيوتر"@, "تكنولوجيا"@],
                strs_view(medical@) == seq!["دواء"@, "علاج"@, "طبيب"@],
                strs_view(entertainment@) == seq!["رياضة"@, "لعبة"@, "فيلم"@],
            decreases keywords.len() - i,
        {
            let k = chars_of(keywords[i].as_str());
            proof {
                assert(kv.skip(i as int)[0] == kv[i as int]);
                assert(kv[i as int] == keywords@[i as int]@);
                assert(kv.skip(i as int).drop_first() =~= kv.skip(i + 1));
            }
            if chars_in_str_list(&k, &tech) {
                return to_string("تكنولوجيا");
            }
            if chars_in_str_list(&k, &medical) {
                return to_string("طب");
            }
            if chars_in_str_list(&k, &entertainment) {
                return to_string("ترفيه");
            }
            i = i + 1;
        }
        assert(kv.skip(keywords.len() as int) =~= Seq::<Seq<char>>::empty());
        to_string("عام")
    }
}

/// `keep_lower_occurring` keeps at most the list's members.
pub proof fn lemma_keep_len(low: Seq<char>, list: Seq<Seq<char>>)
    ensures
        keep_lower_occurring(low, list).len() <= list.len(),
    decreases list.len(),
{
    if list.len() > 0 {
        lemma_keep_len(low, list.drop_last());
    }
}

/// `keep_lower_occurring_pairs` keeps at most the table's entries.
pub proof fn lemma_keep_pairs_len(low: Seq<char>, table: Seq<(Seq<char>, Seq<char>)>)
    ensures
        keep_lower_occurring_pairs(low, table).len() <= table.len(),
    decreases table.len(),
{
    if table.len() > 0 {
        lemma_keep_pairs_len(low, table.drop_last());
    }
}

// ---------------------------------------------------------------------------
// The question processor
// ---------------------------------------------------------------------------

/// Words that indicate a complex question.
pub open spec fn complexity_indicator_list() -> Seq<Seq<char>> {
    seq!["اختلاف"@, "خلاف"@, "مذاهب"@, "تفصيل"@, "دليل"@, "حكم"@, "علة"@, "قياس"@]
}

/// Words that indicate a disputed question.
pub open spec fn controversy_topic_list() -> Seq<Seq<char>> {
    seq!["خلاف"@, "اختلاف"@, "مذهب"@, "رأي"@, "قول"@, "وجه"@, "احتمال"@]
}

/// The complexity score: one for a text over two hundred bytes, one for more
/// than ten keywords, one for more than five concepts, and one for each
/// complexity indicator in the text.
pub open spec fn complexity_score(text: Seq<char>, n_keywords: nat, n_concepts: nat) -> nat {
    (if utf8_len(text) > 200 { 1nat } else { 0nat })
        + (if n_keywords > 10 { 1nat } else { 0nat })
        + (if n_concepts > 5 { 1nat } else { 0nat })
        + count_occurring(text, complexity_indicator_list())
}

/// The complexity level of a score: simple up to two, intermediate up to five,
/// advanced up to eight, scholarly above.
pub open spec fn complexity_of(score: nat) -> ComplexityLevel {
    if score <= 2 {
        ComplexityLevel::Simple
    } else if score <= 5 {
        ComplexityLevel::Intermediate
    } else if score <= 8 {
        ComplexityLevel::Advanced
    } else {
        ComplexityLevel::Scholarly
    }
}

/// `c` is in the Arabic block (U+0600 to U+06FF).
pub open spec fn is_arabic_char(c: char) -> bool {
    '\u{0600}' <= c && c <= '\u{06FF}'
}

/// The number of characters of `s` in the Arabic block.
pub open spec fn arabic_count(s: Seq<char>) -> nat
    decreases s.len(),
{
    if s.len() == 0 {
        0
    } else {
        arabic_count(s.drop_last()) + if is_arabic_char(s.last()) { 1nat } else { 0nat }
    }
}

/// The number of alphabetic characters of `s`.
pub open spec fn alphabetic_count(s: Seq<char>) -> nat
    decreases s.len(),
{
    if s.len() == 0 {
        0
    } else {
        alphabetic_count(s.drop_last()) + if is_alphabetic_char(s.last()) { 1nat } else { 0nat }
    }
}

/// The language of `text`: Arabic when it has no letters or when more than half
/// of its letters are in the Arabic block, English otherwise.
pub open spec fn language_of(text: Seq<char>) -> Language {
    let a = arabic_count(text);
    let t = alphabetic_count(text);
    if t == 0 || 2 * a > t {
        Language::Arabic
    } else {
        Language::English
    }
}

/// A question is disputed when a dispute word occurs in its text or in one of
/// its concepts.
pub open spec fn controversial_spec(text: Seq<char>, concepts: Seq<Seq<char>>) -> bool {
    exists|i: int|
        0 <= i < controversy_topic_list().len() && (seq_contains(text, controversy_topic_list()[i])
            || exists|j: int| 0 <= j < concepts.len() && seq_contains(concepts[j], controversy_topic_list()[i]))
}

/// Jurisprudence and creed questions always need several sources; others when
/// they touch more than three concepts.
pub open spec fn multiple_sources_spec(question_type: QuestionType, n_concepts: nat) -> bool {
    match question_type {
        QuestionType::Fiqh | QuestionType::Aqeedah => true,
        _ => n_concepts > 3,
    }
}

/// Analyser of user questions.
pub struct QuestionProcessor {
    pub text_normalizer: TextNormalizer,
    pub keyword_extractor: KeywordExtractor,
    pub concept_extractor: ConceptExtractor,
    pub question_classifier: QuestionClassifier,
    pub out_of_scope_detector: OutOfScopeDetector,
}

impl QuestionProcessor {
    /// The processor is set up with the standard tables.
    pub open spec fn standard(&self) -> bool {
        &&& self.text_normalizer.diacritics_pattern@ == diacritics_pattern()
        &&& self.text_normalizer.punctuation_pattern@ == punctuation_pattern()
        &&& strs_view(self.keyword_extractor.stop_words@) == stop_word_list()
        &&& concept_terms(concept_table_view(self.concept_extractor.islamic_concepts@)) == concept_table()
        &&& self.out_of_scope_detector.indicators() == out_of_scope_indicator_list()
        &&& self.out_of_scope_detector.islamic() == islamic_context_list()
        &&& self.out_of_scope_detector.borderline() == borderline_topic_list()
        &&& self.out_of_scope_detector.fallbacks() == fallback_response_list()
        &&& self.out_of_scope_detector.has_general_fallback()
    }

    pub fn new() -> (r: Self)
        ensures
            r.standard(),
    {
        QuestionProcessor {
            text_normalizer: TextNormalizer::new(),
            keyword_extractor: KeywordExtractor::new(),
            concept_extractor: ConceptExtractor::new(),
            question_classifier: QuestionClassifier::new(),
            out_of_scope_detector: OutOfScopeDetector::new(),
        }
    }

    /// What `process_question` gives back for `question`: the detector's fallback
    /// reply for a question out of scope, else the analysis of the question.
    pub open spec fn analysis_matches(&self, question: Seq<char>, r: Result<ProcessedQuestion, AIServiceError>) -> bool {
        &&& (self.out_of_scope_detector.status_spec(question) == ScopeStatus::OutOfScope <==> r is Err)
        &&& match r {
            Err(e) => e matches AIServiceError::OutOfScopeQuestion(msg) && msg@
                == self.out_of_scope_detector.fallback_spec(
                ScopeStatus::OutOfScope,
                self.out_of_scope_detector.suggestion_spec(question),
                self.out_of_scope_detector.out_of_scope_found(question),
            ),
            Ok(q) => {
                let n = normal_form(
                    self.text_normalizer.diacritics_pattern@,
                    self.text_normalizer.punctuation_pattern@,
                    question,
                );
                let kws = keywords_of(n, strs_view(self.keyword_extractor.stop_words@));
                let concept_set = keep_occurring(
                    n,
                    concept_terms(concept_table_view(self.concept_extractor.islamic_concepts@)),
                ).to_set();
                &&& q.original_text@ == question
                &&& q.normalized_text@ == n
                &&& string_views(q.keywords@) == kws
                &&& strictly_sorted(string_views(q.concepts@))
                &&& string_views(q.concepts@).to_set() == concept_set
                &&& q.question_type == classify_spec(kws, string_views(q.concepts@))
                &&& q.complexity_level == complexity_of(
                    complexity_score(n, kws.len(), q.concepts@.len()),
                )
                &&& q.language == language_of(question)
                &&& q.is_controversial == controversial_spec(n, string_views(q.concepts@))
                &&& q.requires_multiple_sources == multiple_sources_spec(
                    q.question_type,
                    q.concepts@.len(),
                )
            },
        }
    }

    /// Analyses `question`. A question that is out of scope is refused with the
    /// detector's fallback reply; any other question is analysed.
    pub fn process_question(&self, question: &str) -> (r: Result<ProcessedQuestion, AIServiceError>)
        requires
            self.out_of_scope_detector.has_general_fallback(),
        ensures
            self.analysis_matches(question@, r),
    {
        let analysis = self.out_of_scope_detector.get_scope_analysis(question);
        if analysis.scope_status == ScopeStatus::OutOfScope {
            let reply = self.out_of_scope_detector.generate_fallback_response(&analysis);
            return Err(AIServiceError::OutOfScopeQuestion(reply));
        }
        let normalized = self.text_normalizer.normalize(question);
        let keywords = self.keyword_extractor.extract(normalized.as_str());
        let concepts = self.concept_extractor.extract(normalized.as_str());
        let question_type = self.question_classifier.classify(normalized.as_str(), &keywords, &concepts);
        let complexity_level = Self::determine_complexity(normalized.as_str(), &keywords, &concepts);
        let language = Self::detect_language(question);
        let is_controversial = Self::is_controversial_question(normalized.as_str(), &concepts);
        let requires_multiple_sources = Self::requires_multiple_sources(&question_type, &concepts);
        let original_text = to_string(question);
        Ok(ProcessedQuestion {
            original_text,
            normalized_text: normalized,
            keywords,
            concepts,
            question_type,
            complexity_level,
            language,
            is_controversial,
            requires_multiple_sources,
        })
    }

    /// The complexity level of a question (see `complexity_score`).
    pub fn determine_complexity(text: &str, keywords: &Vec<String>, concepts: &Vec<String>) -> (r: ComplexityLevel)
        ensures
            r == complexity_of(complexity_score(text@, keywords@.len(), concepts@.len())),
    {
        let cs = chars_of(text);
        let bytes = utf8_length(&cs);
        let indicators = vec!["اختلاف", "خلاف", "مذاهب", "تفصيل", "دليل", "حكم", "علة", "قياس"];
        assert(strs_view(indicators@) =~= complexity_indicator_list());
        let found = count_contained(&cs, &indicators);
        let mut score: usize = found;
        if bytes > 200 {
            score = score + 1;
        }
        if keywords.len() > 10 {
            score = score + 1;
        }
        if concepts.len() > 5 {
            score = score + 1;
        }
        if score <= 2 {
            ComplexityLevel::Simple
        } else if score <= 5 {
            ComplexityLevel::Intermediate
        } else if score <= 8 {
            ComplexityLevel::Advanced
        } else {
            ComplexityLevel::Scholarly
        }
    }

    /// The language of `text` (see `language_of`). Counting is exact; the
    /// ratio test of more than one half is decided on the counts.
    pub fn detect_language(text: &str) -> (r: Language)
        ensures
            r == language_of(text@),
    {
        let cs = chars_of(text);
        let mut arabic: usize = 0;
        let mut total: usize = 0;
        let mut i: usize = 0;
        while i < cs.len()
            invariant
                i <= cs.len(),
                arabic == arabic_count(cs@.take(i as int)),
                total == alphabetic_count(cs@.take(i as int)),
                arabic <= i,
                total <= i,
            decreases cs.len() - i,
        {
            proof {
                assert(cs@.take(i + 1).drop_last() =~= cs@.take(i as int));
            }
            let c = cs[i];
            if '\u{0600}' <= c && c <= '\u{06FF}' {
                arabic = arabic + 1;
            }
            if char_is_alphabetic(c) {
                total = total + 1;
            }
            i = i + 1;
        }
        assert(cs@.take(cs.len() as int) =~= cs@);
        if total == 0 {
            return Language::Arabic;
        }
        if arabic as u128 * 2 > total as u128 {
            Language::Arabic
        } else {
            Language::English
        }
    }

    /// Whether the question is disputed (see `controversial_spec`).
    pub fn is_controversial_question(text: &str, concepts: &Vec<String>) -> (r: bool)
        ensures
            r == controversial_spec(text@, string_views(concepts@)),
    {
        let topics = vec!["خلاف", "اختلاف", "مذهب", "رأي", "قول", "وجه", "احتمال"];
        assert(strs_view(topics@) =~= controversy_topic_list());
        let ghost tl = controversy_topic_list();
        let ghost cv = string_views(concepts@);
        let cs = chars_of(text);
        let mut i: usize = 0;
        while i < topics.len()
            invariant
                i <= topics.len(),
                strs_view(topics@) == tl,
                tl == controversy_topic_list(),
                cv == string_views(concepts@),
                cs@ == text@,
                forall|k: int| 0 <= k < i ==> !(seq_contains(text@, #[trigger] tl[k])
                    || exists|j: int| 0 <= j < cv.len() && seq_contains(cv[j], tl[k])),
            decreases topics.len() - i,
        {
            let t = chars_of(topics[i]);
            assert(tl[i as int] == topics@[i as int]@);
            if vec_contains(&cs, &t) {
                return true;
            }
            let mut j: usize = 0;
            while j < concepts.len()
                invariant
                    j <= concepts.len(),
                    cv == string_views(concepts@),
                    i < tl.len(),
                    tl == controversy_topic_list(),
                    t@ == tl[i as int],
                    forall|m: int| 0 <= m < j ==> !seq_contains(#[trigger] cv[m], tl[i as int]),
                decreases concepts.len() - j,
            {
                let c = chars_of(concepts[j].as_str());
                assert(cv[j as int] == concepts@[j as int]@);
                if vec_contains(&c, &t) {
                    assert(seq_contains(cv[j as int], tl[i as int]));
                    return true;
                }
                j = j + 1;
            }
            i = i + 1;
        }
        false
    }

    /// Whether the question needs several sources (see `multiple_sources_spec`).
    pub fn requires_multiple_sources(question_type: &QuestionType, concepts: &Vec<String>) -> (r: bool)
        ensures
            r == multiple_sources_spec(*question_type, concepts@.len()),
    {
        match question_type {
            QuestionType::Fiqh | QuestionType::Aqeedah => true,
            _ => concepts.len() > 3,
        }
    }
}

} // verus!
