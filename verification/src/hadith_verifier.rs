//! Verification of hadith: grades, usage recommendations, narrator and book
//! reliability, and signs of fabrication.
use vstd::prelude::*;
use crate::text::{chars_of, contains_any, any_occurs, seq_contains, str_eq, strs_view, to_string};

verus! {

#[derive(Debug, Clone, Copy, PartialEq, Eq, Hash, Structural)]
pub enum HadithGrade {
    Sahih,
    Hasan,
    Daif,
    Mawdu,
    Unknown,
}

#[derive(Debug, Clone, Copy, PartialEq, Eq, Structural)]
pub enum UsageRecommendation {
    HighlyRecommended,
    Recommended,
    Cautious,
    NotRecommended,
    Forbidden,
}

/// A scholar's judgement of a hadith.
#[derive(Debug, Clone)]
pub struct ScholarOpinion {
    pub scholar_name: String,
    pub opinion: String,
    pub grade_given: HadithGrade,
    pub reasoning: String,
    pub source: String,
}

/// A hadith found in the collection, with its similarity to the query in
/// hundredths (95 stands for 0.95).
#[derive(Debug, Clone)]
pub struct HadithMatch {
    pub id: String,
    pub text: String,
    pub narrator_chain: Vec<String>,
    pub source_books: Vec<String>,
    pub similarity_hundredths: u32,
}

/// Phrases that mark a scholar's reasoning as a severe weakness.
pub open spec fn severe_weakness_phrases() -> Seq<Seq<char>> {
    seq!["شديد الضعف"@, "متروك"@, "كذاب"@]
}

/// Some opinion's reasoning names a severe weakness.
pub open spec fn severely_weak_spec(reasonings: Seq<Seq<char>>) -> bool {
    exists|i: int| 0 <= i < reasonings.len() && any_occurs(reasonings[i], severe_weakness_phrases())
}

/// The reasonings of a list of opinions.
pub open spec fn reasonings_of(opinions: Seq<ScholarOpinion>) -> Seq<Seq<char>> {
    opinions.map_values(|o: ScholarOpinion| o.reasoning@)
}

/// Every opinion grades the hadith sahih.
pub open spec fn all_sahih(opinions: Seq<ScholarOpinion>) -> bool {
    forall|i: int| 0 <= i < opinions.len() ==> opinions[i].grade_given == HadithGrade::Sahih
}

/// The recommended use of a hadith of this grade with these opinions: sahih is
/// highly recommended when every opinion agrees and recommended otherwise; hasan
/// is recommended; daif calls for caution unless an opinion names a severe
/// weakness, then it is not recommended; mawdu is forbidden; an unknown grade is
/// not recommended.
pub open spec fn usage_recommendation_spec(grade: HadithGrade, opinions: Seq<ScholarOpinion>) -> UsageRecommendation {
    match grade {
        HadithGrade::Sahih => if all_sahih(opinions) {
            UsageRecommendation::HighlyRecommended
        } else {
            UsageRecommendation::Recommended
        },
        HadithGrade::Hasan => UsageRecommendation::Recommended,
        HadithGrade::Daif => if severely_weak_spec(reasonings_of(opinions)) {
            UsageRecommendation::NotRecommended
        } else {
            UsageRecommendation::Cautious
        },
        HadithGrade::Mawdu => UsageRecommendation::Forbidden,
        HadithGrade::Unknown => UsageRecommendation::NotRecommended,
    }
}

/// A hadith may be shown (with a warning when cautious) unless its use is not
/// recommended or forbidden.
pub open spec fn may_display(r: UsageRecommendation) -> bool {
    match r {
        UsageRecommendation::HighlyRecommended | UsageRecommendation::Recommended | UsageRecommendation::Cautious => true,
        UsageRecommendation::NotRecommended | UsageRecommendation::Forbidden => false,
    }
}

/// The number of opinions that give `grade`.
pub open spec fn grade_count(opinions: Seq<ScholarOpinion>, grade: HadithGrade) -> nat
    decreases opinions.len(),
{
    if opinions.len() == 0 {
        0
    } else {
        grade_count(opinions.drop_last(), grade) + if opinions.last().grade_given == grade { 1nat } else { 0nat }
    }
}

/// The largest number of opinions that agree on one grade.
pub open spec fn max_agreement(opinions: Seq<ScholarOpinion>) -> nat {
    let a = grade_count(opinions, HadithGrade::Sahih);
    let b = grade_count(opinions, HadithGrade::Hasan);
    let c = grade_count(opinions, HadithGrade::Daif);
    let d = grade_count(opinions, HadithGrade::Mawdu);
    let e = grade_count(opinions, HadithGrade::Unknown);
    let ab = if a >= b { a } else { b };
    let cd = if c >= d { c } else { d };
    let abcd = if ab >= cd { ab } else { cd };
    if abcd >= e { abcd } else { e }
}

/// The verification system for hadith.
pub struct HadithVerificationSystem {
    pub hadith_database: HadithDatabase,
    pub authenticity_checker: AuthenticityChecker,
    pub source_validator: SourceValidator,
    pub grading_system: HadithGradingSystem,
}

impl HadithVerificationSystem {
    pub fn new() -> (r: Self) {
        HadithVerificationSystem {
            hadith_database: HadithDatabase::new(),
            authenticity_checker: AuthenticityChecker::new(),
            source_validator: SourceValidator::new(),
            grading_system: HadithGradingSystem::new(),
        }
    }

    /// The recommended use of a hadith (see `usage_recommendation_spec`).
    pub fn determine_usage_recommendation(&self, grade: &HadithGrade, opinions: &Vec<ScholarOpinion>) -> (r: UsageRecommendation)
        ensures
            r == usage_recommendation_spec(*grade, opinions@),
    {
        match grade {
            HadithGrade::Sahih => {
                let mut i: usize = 0;
                while i < opinions.len()
                    invariant
                        i <= opinions.len(),
                        *grade == HadithGrade::Sahih,
                        forall|k: int| 0 <= k < i ==> opinions@[k].grade_given == HadithGrade::Sahih,
                    decreases opinions.len() - i,
                {
                    if opinions[i].grade_given != HadithGrade::Sahih {
                        assert(!all_sahih(opinions@));
                        return UsageRecommendation::Recommended;
                    }
                    i = i + 1;
                }
                UsageRecommendation::HighlyRecommended
            },
            HadithGrade::Hasan => UsageRecommendation::Recommended,
            HadithGrade::Daif => {
                if self.is_severely_weak(opinions) {
                    UsageRecommendation::NotRecommended
                } else {
                    UsageRecommendation::Cautious
                }
            },
            HadithGrade::Mawdu => UsageRecommendation::Forbidden,
            HadithGrade::Unknown => UsageRecommendation::NotRecommended,
        }
    }

    /// Whether some opinion's reasoning names a severe weakness.
    pub fn is_severely_weak(&self, opinions: &Vec<ScholarOpinion>) -> (r: bool)
        ensures
            r == severely_weak_spec(reasonings_of(opinions@)),
    {
        let phrases = vec!["شديد الضعف", "متروك", "كذاب"];
        assert(strs_view(phrases@) =~= severe_weakness_phrases());
        let ghost rs = reasonings_of(opinions@);
        let mut i: usize = 0;
        while i < opinions.len()
            invariant
                i <= opinions.len(),
                rs == reasonings_of(opinions@),
                strs_view(phrases@) == severe_weakness_phrases(),
                forall|k: int| 0 <= k < i ==> !any_occurs(#[trigger] rs[k], severe_weakness_phrases()),
            decreases opinions.len() - i,
        {
            let text = chars_of(opinions[i].reasoning.as_str());
            assert(rs[i as int] == opinions@[i as int].reasoning@);
            if contains_any(&text, &phrases) {
                return true;
            }
            i = i + 1;
        }
        false
    }

    /// Whether a hadith with this recommendation may be shown.
    pub fn may_display(recommendation: &UsageRecommendation) -> (r: bool)
        ensures
            r == may_display(*recommendation),
    {
        match recommendation {
            UsageRecommendation::HighlyRecommended | UsageRecommendation::Recommended | UsageRecommendation::Cautious => true,
            UsageRecommendation::NotRecommended | UsageRecommendation::Forbidden => false,
        }
    }

    /// The largest number of opinions that agree on one grade; the consensus
    /// score is this number over the number of opinions, or one half without
    /// opinions.
    pub fn consensus_count(opinions: &Vec<ScholarOpinion>) -> (r: usize)
        ensures
            r == max_agreement(opinions@),
    {
        let mut a: usize = 0;
        let mut b: usize = 0;
        let mut c: usize = 0;
        let mut d: usize = 0;
        let mut e: usize = 0;
        let mut i: usize = 0;
        while i < opinions.len()
            invariant
                i <= opinions.len(),
                a == grade_count(opinions@.take(i as int), HadithGrade::Sahih),
                b == grade_count(opinions@.take(i as int), HadithGrade::Hasan),
                c == grade_count(opinions@.take(i as int), HadithGrade::Daif),
                d == grade_count(opinions@.take(i as int), HadithGrade::Mawdu),
                e == grade_count(opinions@.take(i as int), HadithGrade::Unknown),
                a + b + c + d + e == i,
            decreases opinions.len() - i,
        {
            proof {
                assert(opinions@.take(i + 1).drop_last() =~= opinions@.take(i as int));
            }
            match opinions[i].grade_given {
                HadithGrade::Sahih => { a = a + 1; },
                HadithGrade::Hasan => { b = b + 1; },
                HadithGrade::Daif => { c = c + 1; },
                HadithGrade::Mawdu => { d = d + 1; },
                HadithGrade::Unknown => { e = e + 1; },
            }
            i = i + 1;
        }
        assert(opinions@.take(opinions.len() as int) =~= opinions@);
        let ab = if a >= b { a } else { b };
        let cd = if c >= d { c } else { d };
        let abcd = if ab >= cd { ab } else { cd };
        if abcd >= e { abcd } else { e }
    }
}

/// The collection of hadith; it stands in for a database and answers with
/// fixed records.
pub struct HadithDatabase {}

impl HadithDatabase {
    pub fn new() -> (r: Self) {
        HadithDatabase {}
    }

    /// The hadith that resemble `text`: a single record that carries the text
    /// itself, narrated by Abu Hurayra from Sa'id ibn al-Musayyib, found in the
    /// two Sahih collections, with similarity 0.95.
    pub fn find_similar_hadiths(&self, text: &str) -> (r: Vec<HadithMatch>)
        ensures
            r@.len() == 1,
            r@[0].id@ == "hadith_001"@,
            r@[0].text@ == text@,
            string_views_of(r@[0].narrator_chain@) == seq!["أبو هريرة"@, "سعيد بن المسيب"@],
            string_views_of(r@[0].source_books@) == seq!["صحيح البخاري"@, "صحيح مسلم"@],
            r@[0].similarity_hundredths == 95,
    {
        let narrator_chain = vec![to_string("أبو هريرة"), to_string("سعيد بن المسيب")];
        let source_books = vec![to_string("صحيح البخاري"), to_string("صحيح مسلم")];
        assert(string_views_of(narrator_chain@) =~= seq!["أبو هريرة"@, "سعيد بن المسيب"@]);
        assert(string_views_of(source_books@) =~= seq!["صحيح البخاري"@, "صحيح مسلم"@]);
        vec![HadithMatch {
            id: to_string("hadith_001"),
            text: to_string(text),
            narrator_chain,
            source_books,
            similarity_hundredths: 95,
        }]
    }

    /// The scholars' opinions of a hadith: a single opinion of al-Bukhari that
    /// grades it sahih.
    pub fn get_scholar_opinions(&self, hadith_id: &str) -> (r: Vec<ScholarOpinion>)
        ensures
            r@.len() == 1,
            r@[0].scholar_name@ == "الإمام البخاري"@,
            r@[0].opinion@ == "حديث صحيح"@,
            r@[0].grade_given == HadithGrade::Sahih,
            r@[0].reasoning@ == "السند صحيح والرواة ثقات"@,
            r@[0].source@ == "صحيح البخاري"@,
    {
        vec![ScholarOpinion {
            scholar_name: to_string("الإمام البخاري"),
            opinion: to_string("حديث صحيح"),
            grade_given: HadithGrade::Sahih,
            reasoning: to_string("السند صحيح والرواة ثقات"),
            source: to_string("صحيح البخاري"),
        }]
    }
}

/// The views of a sequence of strings.
pub open spec fn string_views_of(v: Seq<String>) -> Seq<Seq<char>> {
    v.map_values(|s: String| s@)
}

/// The reliability of a narrator in hundredths: Abu Hurayra and Aisha are fully
/// reliable, any other narrator 0.8.
pub open spec fn narrator_reliability_spec(narrator: Seq<char>) -> u32 {
    if narrator == "أبو هريرة"@ || narrator == "عائشة"@ { 100 } else { 80 }
}

/// The connection score of a chain in hundredths: 0.5 for fewer than two
/// narrators, 0.9 otherwise.
pub open spec fn chain_connection_spec(len: nat) -> u32 {
    if len < 2 { 50 } else { 90 }
}

/// Checker of narrator chains.
pub struct AuthenticityChecker;

impl AuthenticityChecker {
    pub fn new() -> (r: Self) {
        AuthenticityChecker
    }

    /// The reliability of a narrator, in hundredths.
    pub fn check_narrator_reliability(&self, narrator: &str) -> (r: u32)
        ensures
            r == narrator_reliability_spec(narrator@),
    {
        if str_eq(narrator, "أبو هريرة") || str_eq(narrator, "عائشة") {
            100
        } else {
            80
        }
    }

    /// The connection score of a chain, in hundredths.
    pub fn check_chain_connection(&self, chain: &Vec<String>) -> (r: u32)
        ensures
            r == chain_connection_spec(chain@.len()),
    {
        if chain.len() < 2 { 50 } else { 90 }
    }
}

/// The authenticity of a hadith book in hundredths: the two Sahih collections
/// 1.0; the Sunan of Abu Dawud, at-Tirmidhi and an-Nasa'i 0.9; Ibn Majah and the
/// Musnad of Ahmad 0.8; any other book 0.5.
pub open spec fn book_authenticity_spec(book: Seq<char>) -> u32 {
    if book == "صحيح البخاري"@ || book == "صحيح مسلم"@ {
        100
    } else if book == "سنن أبي داود"@ || book == "جامع الترمذي"@ || book == "سنن النسائي"@ {
        90
    } else if book == "سنن ابن ماجه"@ || book == "مسند أحمد"@ {
        80
    } else {
        50
    }
}

/// Validator of hadith books.
pub struct SourceValidator;

impl SourceValidator {
    pub fn new() -> (r: Self) {
        SourceValidator
    }

    /// The authenticity of a book, in hundredths.
    pub fn get_source_authenticity_score(&self, source: &str) -> (r: u32)
        ensures
            r == book_authenticity_spec(source@),
    {
        if str_eq(source, "صحيح البخاري") || str_eq(source, "صحيح مسلم") {
            100
        } else if str_eq(source, "سنن أبي داود") || str_eq(source, "جامع الترمذي") || str_eq(source, "سنن النسائي") {
            90
        } else if str_eq(source, "سنن ابن ماجه") || str_eq(source, "مسند أحمد") {
            80
        } else {
            50
        }
    }
}

/// Phrases of known fabricated hadith.
pub open spec fn fabrication_phrases() -> Seq<Seq<char>> {
    seq!["من قرأ هذا الحديث"@, "من نشر هذا الحديث"@, "ثواب عظيم لمن قرأ"@]
}

/// Grader of hadith.
pub struct HadithGradingSystem;

impl HadithGradingSystem {
    pub fn new() -> (r: Self) {
        HadithGradingSystem
    }

    /// Whether `text` carries a phrase of known fabricated hadith.
    pub fn is_fabricated_hadith(&self, text: &str) -> (r: bool)
        ensures
            r == any_occurs(text@, fabrication_phrases()),
    {
        let phrases = vec!["من قرأ هذا الحديث", "من نشر هذا الحديث", "ثواب عظيم لمن قرأ"];
        assert(strs_view(phrases@) =~= fabrication_phrases());
        let t = chars_of(text);
        contains_any(&t, &phrases)
    }
}

} // verus!
