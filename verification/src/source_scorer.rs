//! Scoring of retrieved sources: the tables of authenticity, authority, type
//! match, freshness and consensus, and the recommended use of a source.
//! Scores are in hundredths (95 stands for 0.95).
use vstd::prelude::*;
use crate::text::{
    chars_of, lowercase_chars, lowercase_of, push_str, seq_contains, str_eq, string_from_chars, string_views,
    to_string, vec_contains,
};
use crate::types::{authenticity_name, AuthenticityLevel, ConfidenceLevel, IslamicSource, QuestionType, SourceType};

verus! {

/// The reasons behind a score.
#[derive(Debug, Clone)]
pub struct ScoringDetails {
    pub relevance_factors: Vec<String>,
    pub authority_factors: Vec<String>,
    pub authenticity_factors: Vec<String>,
    pub consensus_factors: Vec<String>,
    pub penalties: Vec<String>,
    pub bonuses: Vec<String>,
}

/// How a source is to be used in an answer.
#[derive(Debug, Clone, Copy, PartialEq, Eq, Structural)]
pub enum SourceUsageRecommendation {
    Primary,
    Supporting,
    Reference,
    Cautionary,
    Excluded,
}

/// A score in hundredths with the reasons for it.
#[derive(Debug, Clone)]
pub struct ScoringResult {
    pub score_hundredths: u32,
    pub factors: Vec<String>,
}

/// The authenticity score of a source, in hundredths: by its authenticity
/// level (verified 1.0, reliable 0.8, questionable 0.5, unreliable 0.2, unknown
/// 0.4), then a verse of the Quran is 1.0, a sahih hadith at least 0.9, a hasan
/// hadith at least 0.8, a daif hadith at most 0.6, a fabricated hadith 0.1.
pub open spec fn authenticity_hundredths(t: SourceType, a: AuthenticityLevel) -> u32 {
    let base: u32 = match a {
        AuthenticityLevel::Verified => 100,
        AuthenticityLevel::Reliable => 80,
        AuthenticityLevel::Questionable => 50,
        AuthenticityLevel::Unreliable => 20,
        AuthenticityLevel::Unknown => 40,
    };
    match t {
        SourceType::Quran => 100,
        SourceType::SahihHadith => if base >= 90 { base } else { 90 },
        SourceType::HasanHadith => if base >= 80 { base } else { 80 },
        SourceType::DaifHadith => if base <= 60 { base } else { 60 },
        SourceType::MawduHadith => 10,
        _ => base,
    }
}

/// The use of a source: fabricated hadith are excluded; otherwise by its
/// confidence band, where a high band is primary only when the relevance exceeds
/// 0.8, and a medium band is cautionary for a daif hadith.
pub open spec fn usage_spec(t: SourceType, level: ConfidenceLevel, relevance_above_080: bool) -> SourceUsageRecommendation {
    if t == SourceType::MawduHadith {
        SourceUsageRecommendation::Excluded
    } else {
        match level {
            ConfidenceLevel::VeryHigh => SourceUsageRecommendation::Primary,
            ConfidenceLevel::High => if relevance_above_080 {
                SourceUsageRecommendation::Primary
            } else {
                SourceUsageRecommendation::Supporting
            },
            ConfidenceLevel::Medium => if t == SourceType::DaifHadith {
                SourceUsageRecommendation::Cautionary
            } else {
                SourceUsageRecommendation::Supporting
            },
            ConfidenceLevel::Low => SourceUsageRecommendation::Reference,
            ConfidenceLevel::VeryLow => SourceUsageRecommendation::Excluded,
        }
    }
}

/// How well a type of source suits a type of question, in hundredths.
pub open spec fn type_match_hundredths(t: SourceType, q: QuestionType) -> u32 {
    match (q, t) {
        (QuestionType::Tafsir, SourceType::Quran) => 100,
        (QuestionType::Tafsir, SourceType::Tafsir) => 90,
        (QuestionType::Hadith, SourceType::SahihHadith) => 100,
        (QuestionType::Hadith, SourceType::HasanHadith) => 90,
        (QuestionType::Hadith, SourceType::DaifHadith) => 70,
        (QuestionType::Fiqh, SourceType::FiqhRuling) => 100,
        (QuestionType::Fiqh, SourceType::SahihHadith) => 80,
        (QuestionType::Aqeedah, SourceType::Quran) => 90,
        (QuestionType::Aqeedah, SourceType::SahihHadith) => 80,
        (_, SourceType::Quran) => 80,
        _ => 50,
    }
}

/// The penalties noted for a source: a daif hadith, and a questionable or
/// unreliable source.
pub open spec fn penalties_spec(t: SourceType, a: AuthenticityLevel) -> Seq<Seq<char>> {
    (if t == SourceType::DaifHadith { seq!["حديث ضعيف - يحتاج تنبيه"@] } else { Seq::empty() })
        + (if a == AuthenticityLevel::Questionable || a == AuthenticityLevel::Unreliable {
        seq!["مصدر مشكوك في موثوقيته"@]
    } else {
        Seq::empty()
    })
}

/// Authors whose works earn a bonus.
pub open spec fn renowned_authors() -> Seq<Seq<char>> {
    seq!["البخاري"@, "مسلم"@, "ابن كثير"@, "الطبري"@, "القرطبي"@]
}

/// The bonuses noted for a source: a verse of the Quran, a sahih hadith, and a
/// renowned author.
pub open spec fn bonuses_spec(t: SourceType, author: Option<Seq<char>>) -> Seq<Seq<char>> {
    (if t == SourceType::Quran { seq!["القرآن الكريم - المصدر الأول"@] } else { Seq::empty() })
        + (if t == SourceType::SahihHadith { seq!["حديث صحيح - موثوق تماماً"@] } else { Seq::empty() })
        + (match author {
        Some(a) => if renowned_authors().contains(a) { seq!["مؤلف معتبر ومشهور"@] } else { Seq::empty() },
        None => Seq::empty(),
    })
}

/// The authority of an author, in hundredths, where the table knows the name.
pub open spec fn author_authority(name: Seq<char>) -> Option<u32> {
    if name == "ابن كثير"@ || name == "الطبري"@ || name == "البخاري"@ || name == "مسلم"@ {
        Some(100)
    } else if name == "القرطبي"@ || name == "أبو حنيفة"@ || name == "مالك"@ || name == "الشافعي"@ || name
        == "أحمد بن حنبل"@ {
        Some(95)
    } else if name == "البغوي"@ || name == "أبو داود"@ || name == "الترمذي"@ || name == "النسائي"@ {
        Some(90)
    } else if name == "ابن ماجه"@ {
        Some(85)
    } else {
        None
    }
}

/// The authority of a type of source, in hundredths.
pub open spec fn type_authority(t: SourceType) -> u32 {
    match t {
        SourceType::Quran => 100,
        SourceType::SahihHadith => 95,
        SourceType::HasanHadith => 85,
        SourceType::Tafsir => 80,
        SourceType::FiqhRuling => 75,
        SourceType::ScholarOpinion => 70,
        SourceType::DaifHadith => 50,
        SourceType::MawduHadith => 10,
        SourceType::IslamicStory => 60,
    }
}

/// The authority of a reference, in hundredths: the Sahih collections 1.0, a
/// Sunan 0.85, a Musnad 0.8, a tafsir 0.75, otherwise 0.5 (searched in the
/// lower-cased reference).
pub open spec fn reference_authority(reference: Seq<char>) -> u32 {
    let low = lowercase_of(reference);
    if seq_contains(low, "صحيح البخاري"@) || seq_contains(low, "صحيح مسلم"@) {
        100
    } else if seq_contains(low, "سنن"@) {
        85
    } else if seq_contains(low, "مسند"@) {
        80
    } else if seq_contains(low, "تفسير"@) {
        75
    } else {
        50
    }
}

/// The authority of a source before it is averaged with its reference's: the
/// larger of the author's authority (one half when the author is unknown or
/// missing) and the type's.
pub open spec fn source_authority(t: SourceType, author: Option<Seq<char>>) -> u32 {
    let a: u32 = match author {
        Some(n) => match author_authority(n) {
            Some(x) => x,
            None => 50,
        },
        None => 50,
    };
    if a >= type_authority(t) { a } else { type_authority(t) }
}

/// The freshness of a source, in hundredths: the Quran and sahih or hasan hadith
/// are timeless (1.0), other sources 0.8.
pub open spec fn freshness_hundredths(t: SourceType) -> u32 {
    match t {
        SourceType::Quran | SourceType::SahihHadith | SourceType::HasanHadith => 100,
        _ => 80,
    }
}

/// The consensus score of a source, in hundredths: 0.6 for a disputed question
/// and 0.8 otherwise, then a verse of the Quran 1.0 and a sahih hadith at least
/// 0.9.
pub open spec fn consensus_hundredths(t: SourceType, controversial: bool) -> u32 {
    let base: u32 = if controversial { 60 } else { 80 };
    match t {
        SourceType::Quran => 100,
        SourceType::SahihHadith => if base >= 90 { base } else { 90 },
        _ => base,
    }
}

/// The number of `terms` whose lower-cased form occurs in the lower-cased text.
pub open spec fn lower_match_count(text: Seq<char>, terms: Seq<Seq<char>>) -> nat
    decreases terms.len(),
{
    if terms.len() == 0 {
        0
    } else {
        lower_match_count(text, terms.drop_last()) + if seq_contains(lowercase_of(text), lowercase_of(terms.last())) {
            1nat
        } else {
            0nat
        }
    }
}

/// Scorer of sources.
pub struct SourceScoringSystem;

impl SourceScoringSystem {
    pub fn new() -> (r: Self) {
        SourceScoringSystem
    }

    /// The authenticity score and its reasons (see `authenticity_hundredths`).
    pub fn calculate_authenticity_score(&self, source: &IslamicSource) -> (r: ScoringResult)
        ensures
            r.score_hundredths == authenticity_hundredths(source.content_type, source.authenticity),
            r.factors@.len() >= 1,
            r.factors@[0]@ == "مستوى الأصالة: "@ + authenticity_name(source.authenticity),
    {
        let mut score: u32 = match source.authenticity {
            AuthenticityLevel::Verified => 100,
            AuthenticityLevel::Reliable => 80,
            AuthenticityLevel::Questionable => 50,
            AuthenticityLevel::Unreliable => 20,
            AuthenticityLevel::Unknown => 40,
        };
        let mut first = chars_of("مستوى الأصالة: ");
        push_str(&mut first, source.authenticity.debug_name());
        let mut factors = vec![string_from_chars(&first)];
        match source.content_type {
            SourceType::Quran => {
                score = 100;
                factors.push(to_string("القرآن الكريم - أصالة مطلقة"));
            },
            SourceType::SahihHadith => {
                if score < 90 {
                    score = 90;
                }
                factors.push(to_string("حديث صحيح"));
            },
            SourceType::HasanHadith => {
                if score < 80 {
                    score = 80;
                }
                factors.push(to_string("حديث حسن"));
            },
            SourceType::DaifHadith => {
                if score > 60 {
                    score = 60;
                }
                factors.push(to_string("حديث ضعيف"));
            },
            SourceType::MawduHadith => {
                score = 10;
                factors.push(to_string("حديث موضوع"));
            },
            _ => {},
        }
        ScoringResult { score_hundredths: score, factors }
    }

    /// The use of a source (see `usage_spec`); `relevance_above_080` tells
    /// whether its relevance score exceeds 0.8.
    pub fn determine_usage_recommendation(
        &self,
        content_type: SourceType,
        confidence_level: ConfidenceLevel,
        relevance_above_080: bool,
    ) -> (r: SourceUsageRecommendation)
        ensures
            r == usage_spec(content_type, confidence_level, relevance_above_080),
    {
        if content_type == SourceType::MawduHadith {
            return SourceUsageRecommendation::Excluded;
        }
        match confidence_level {
            ConfidenceLevel::VeryHigh => SourceUsageRecommendation::Primary,
            ConfidenceLevel::High => if relevance_above_080 {
                SourceUsageRecommendation::Primary
            } else {
                SourceUsageRecommendation::Supporting
            },
            ConfidenceLevel::Medium => if content_type == SourceType::DaifHadith {
                SourceUsageRecommendation::Cautionary
            } else {
                SourceUsageRecommendation::Supporting
            },
            ConfidenceLevel::Low => SourceUsageRecommendation::Reference,
            ConfidenceLevel::VeryLow => SourceUsageRecommendation::Excluded,
        }
    }

    /// The penalties of a source (see `penalties_spec`).
    pub fn calculate_penalties(&self, source: &IslamicSource) -> (r: Vec<String>)
        ensures
            string_views(r@) == penalties_spec(source.content_type, source.authenticity),
    {
        let mut p: Vec<String> = Vec::new();
        if source.content_type == SourceType::DaifHadith {
            p.push(to_string("حديث ضعيف - يحتاج تنبيه"));
        }
        if source.authenticity == AuthenticityLevel::Questionable || source.authenticity == AuthenticityLevel::Unreliable {
            p.push(to_string("مصدر مشكوك في موثوقيته"));
        }
        assert(string_views(p@) =~= penalties_spec(source.content_type, source.authenticity));
        p
    }

    /// The bonuses of a source (see `bonuses_spec`).
    pub fn calculate_bonuses(&self, source: &IslamicSource) -> (r: Vec<String>)
        ensures
            string_views(r@) == bonuses_spec(
                source.content_type,
                match source.author {
                    Some(a) => Some(a@),
                    None => None,
                },
            ),
    {
        let mut b: Vec<String> = Vec::new();
        if source.content_type == SourceType::Quran {
            b.push(to_string("القرآن الكريم - المصدر الأول"));
        }
        if source.content_type == SourceType::SahihHadith {
            b.push(to_string("حديث صحيح - موثوق تماماً"));
        }
        let renowned = match &source.author {
            Some(a) => {
                let s = a.as_str();
                let r = str_eq(s, "البخاري") || str_eq(s, "مسلم") || str_eq(s, "ابن كثير") || str_eq(s, "الطبري")
                    || str_eq(s, "القرطبي");
                proof {
                    let names = renowned_authors();
                    if r {
                        if a@ == "البخاري"@ { assert(names[0] == a@); }
                        if a@ == "مسلم"@ { assert(names[1] == a@); }
                        if a@ == "ابن كثير"@ { assert(names[2] == a@); }
                        if a@ == "الطبري"@ { assert(names[3] == a@); }
                        if a@ == "القرطبي"@ { assert(names[4] == a@); }
                    } else {
                        assert(!names.contains(a@)) by {
                            if names.contains(a@) {
                                let k = choose|k: int| 0 <= k < names.len() && names[k] == a@;
                            }
                        }
                    }
                }
                r
            },
            None => false,
        };
        if renowned {
            b.push(to_string("مؤلف معتبر ومشهور"));
        }
        assert(string_views(b@) =~= bonuses_spec(
            source.content_type,
            match source.author {
                Some(a) => Some(a@),
                None => None,
            },
        ));
        b
    }
}

/// Calculator of relevance.
pub struct RelevanceCalculator;

impl RelevanceCalculator {
    pub fn new() -> (r: Self) {
        RelevanceCalculator
    }

    /// How many of `terms`, lower-cased, occur in the lower-cased `text`; the
    /// keyword and concept match scores are this count over the number of terms.
    pub fn count_matches(&self, text: &str, terms: &Vec<String>) -> (r: usize)
        ensures
            r == lower_match_count(text@, string_views(terms@)),
    {
        let low = lowercase_chars(text);
        let ghost tv = string_views(terms@);
        let mut n: usize = 0;
        let mut i: usize = 0;
        while i < terms.len()
            invariant
                i <= terms.len(),
                tv == string_views(terms@),
                low@ == lowercase_of(text@),
                n == lower_match_count(text@, tv.take(i as int)),
                n <= i,
            decreases terms.len() - i,
        {
            proof {
                assert(tv.take(i + 1).drop_last() =~= tv.take(i as int));
                assert(tv[i as int] == terms@[i as int]@);
            }
            let lt = lowercase_chars(terms[i].as_str());
            if vec_contains(&low, &lt) {
                n = n + 1;
            }
            i = i + 1;
        }
        assert(tv.take(terms.len() as int) =~= tv);
        n
    }

    /// How well a type of source suits a type of question, in hundredths.
    pub fn calculate_type_match(&self, source_type: SourceType, question_type: QuestionType) -> (r: u32)
        ensures
            r == type_match_hundredths(source_type, question_type),
    {
        match (question_type, source_type) {
            (QuestionType::Tafsir, SourceType::Quran) => 100,
            (QuestionType::Tafsir, SourceType::Tafsir) => 90,
            (QuestionType::Hadith, SourceType::SahihHadith) => 100,
            (QuestionType::Hadith, SourceType::HasanHadith) => 90,
            (QuestionType::Hadith, SourceType::DaifHadith) => 70,
            (QuestionType::Fiqh, SourceType::FiqhRuling) => 100,
            (QuestionType::Fiqh, SourceType::SahihHadith) => 80,
            (QuestionType::Aqeedah, SourceType::Quran) => 90,
            (QuestionType::Aqeedah, SourceType::SahihHadith) => 80,
            (_, SourceType::Quran) => 80,
            _ => 50,
        }
    }
}

/// Evaluator of authority.
pub struct AuthorityEvaluator;

impl AuthorityEvaluator {
    pub fn new() -> (r: Self) {
        AuthorityEvaluator
    }

    /// The authority of an author, where the table knows the name.
    pub fn author_score(&self, name: &str) -> (r: Option<u32>)
        ensures
            r == author_authority(name@),
    {
        if str_eq(name, "ابن كثير") || str_eq(name, "الطبري") || str_eq(name, "البخاري") || str_eq(name, "مسلم") {
            Some(100)
        } else if str_eq(name, "القرطبي") || str_eq(name, "أبو حنيفة") || str_eq(name, "مالك") || str_eq(name, "الشافعي")
            || str_eq(name, "أحمد بن حنبل") {
            Some(95)
        } else if str_eq(name, "البغوي") || str_eq(name, "أبو داود") || str_eq(name, "الترمذي") || str_eq(name, "النسائي") {
            Some(90)
        } else if str_eq(name, "ابن ماجه") {
            Some(85)
        } else {
            None
        }
    }

    /// The authority of a type of source (see `type_authority`).
    pub fn type_score(&self, t: SourceType) -> (r: u32)
        ensures
            r == type_authority(t),
    {
        match t {
            SourceType::Quran => 100,
            SourceType::SahihHadith => 95,
            SourceType::HasanHadith => 85,
            SourceType::Tafsir => 80,
            SourceType::FiqhRuling => 75,
            SourceType::ScholarOpinion => 70,
            SourceType::DaifHadith => 50,
            SourceType::MawduHadith => 10,
            SourceType::IslamicStory => 60,
        }
    }

    /// The authority of a source before averaging (see `source_authority`).
    pub fn source_score(&self, source: &IslamicSource) -> (r: u32)
        ensures
            r == source_authority(
                source.content_type,
                match source.author {
                    Some(a) => Some(a@),
                    None => None,
                },
            ),
    {
        let a: u32 = match &source.author {
            Some(n) => match self.author_score(n.as_str()) {
                Some(x) => x,
                None => 50,
            },
            None => 50,
        };
        let t = self.type_score(source.content_type);
        if a >= t { a } else { t }
    }

    /// The authority of a reference (see `reference_authority`).
    pub fn evaluate_reference(&self, reference: &str) -> (r: u32)
        ensures
            r == reference_authority(reference@),
    {
        let low = lowercase_chars(reference);
        if vec_contains(&low, &chars_of("صحيح البخاري")) || vec_contains(&low, &chars_of("صحيح مسلم")) {
            100
        } else if vec_contains(&low, &chars_of("سنن")) {
            85
        } else if vec_contains(&low, &chars_of("مسند")) {
            80
        } else if vec_contains(&low, &chars_of("تفسير")) {
            75
        } else {
            50
        }
    }
}

/// Assessor of freshness.
pub struct FreshnessAssessor;

impl FreshnessAssessor {
    pub fn new() -> (r: Self) {
        FreshnessAssessor
    }

    /// The freshness of a source (see `freshness_hundredths`).
    pub fn assess(&self, source: &IslamicSource) -> (r: ScoringResult)
        ensures
            r.score_hundredths == freshness_hundredths(source.content_type),
            string_views(r.factors@) == seq!["النصوص الإسلامية الأصيلة خالدة"@],
    {
        let score: u32 = match source.content_type {
            SourceType::Quran | SourceType::SahihHadith | SourceType::HasanHadith => 100,
            _ => 80,
        };
        let factors = vec![to_string("النصوص الإسلامية الأصيلة خالدة")];
        assert(string_views(factors@) =~= seq!["النصوص الإسلامية الأصيلة خالدة"@]);
        ScoringResult { score_hundredths: score, factors }
    }
}

/// Checker of scholarly consensus.
pub struct ConsensusChecker;

impl ConsensusChecker {
    pub fn new() -> (r: Self) {
        ConsensusChecker
    }

    /// The consensus score of a source for a question that is or is not
    /// disputed (see `consensus_hundredths`).
    pub fn check_consensus(&self, source: &IslamicSource, is_controversial: bool) -> (r: ScoringResult)
        ensures
            r.score_hundredths == consensus_hundredths(source.content_type, is_controversial),
            r.factors@.len() >= 1,
    {
        let mut score: u32;
        let mut factors: Vec<String> = Vec::new();
        if is_controversial {
            score = 60;
            factors.push(to_string("موضوع خلافي - يحتاج مصادر متعددة"));
        } else {
            score = 80;
            factors.push(to_string("موضوع غير خلافي"));
        }
        match source.content_type {
            SourceType::Quran => {
                score = 100;
                factors.push(to_string("القرآن - إجماع مطلق"));
            },
            SourceType::SahihHadith => {
                if score < 90 {
                    score = 90;
                }
                factors.push(to_string("حديث صحيح - إجماع عالي"));
            },
            _ => {},
        }
        ScoringResult { score_hundredths: score, factors }
    }
}

} // verus!
