//! Schools of thought, disputed questions, and the guidance that the
//! application gives for them.
use vstd::prelude::*;
use crate::text::{
    any_occurs, chars_of, contains_any, filter_lower_occurring, keep_lower_occurring, lowercase_chars,
    lowercase_of, push_chars, push_str, seq_contains, seq_in_list, str_eq, str_in_list, string_from_chars,
    string_views, strs_view, to_string, vec_contains, vec_eq,
};
use crate::religious_query::push_text;
use crate::types::{AuthenticityLevel, IslamicSource, QuestionType, SourceType};

verus! {

/// The schools of Islamic jurisprudence.
#[derive(Debug, Clone, Copy, PartialEq, Eq, Hash, Structural)]
pub enum IslamicMadhab {
    Hanafi,
    Maliki,
    Shafii,
    Hanbali,
    Zahiri,
    Shia,
    Ibadi,
    General,
}

/// The Arabic name of a school.
pub open spec fn madhab_arabic(m: IslamicMadhab) -> Seq<char> {
    match m {
        IslamicMadhab::Hanafi => "الحنفي"@,
        IslamicMadhab::Maliki => "المالكي"@,
        IslamicMadhab::Shafii => "الشافعي"@,
        IslamicMadhab::Hanbali => "الحنبلي"@,
        IslamicMadhab::Zahiri => "الظاهري"@,
        IslamicMadhab::Shia => "الشيعي"@,
        IslamicMadhab::Ibadi => "الإباضي"@,
        IslamicMadhab::General => "عام"@,
    }
}

impl IslamicMadhab {
    pub fn to_arabic(&self) -> (s: &'static str)
        ensures
            s@ == madhab_arabic(*self),
    {
        match self {
            IslamicMadhab::Hanafi => "الحنفي",
            IslamicMadhab::Maliki => "المالكي",
            IslamicMadhab::Shafii => "الشافعي",
            IslamicMadhab::Hanbali => "الحنبلي",
            IslamicMadhab::Zahiri => "الظاهري",
            IslamicMadhab::Shia => "الشيعي",
            IslamicMadhab::Ibadi => "الإباضي",
            IslamicMadhab::General => "عام",
        }
    }
}

/// How strongly a viewpoint is held.
#[derive(Debug, Clone, Copy, PartialEq, Eq, Structural)]
pub enum ViewpointStrength {
    Consensus,
    Majority,
    Strong,
    Moderate,
    Weak,
    Minority,
}

/// The Arabic name of a strength.
pub open spec fn strength_arabic(s: ViewpointStrength) -> Seq<char> {
    match s {
        ViewpointStrength::Consensus => "إجماع"@,
        ViewpointStrength::Majority => "رأي الجمهور"@,
        ViewpointStrength::Strong => "رأي قوي"@,
        ViewpointStrength::Moderate => "رأي متوسط"@,
        ViewpointStrength::Weak => "رأي ضعيف"@,
        ViewpointStrength::Minority => "رأي الأقلية"@,
    }
}

/// The weight of a strength in hundredths: consensus 1.0, majority 0.8, strong
/// 0.7, moderate 0.6, weak 0.4, minority 0.3.
pub open spec fn strength_hundredths(s: ViewpointStrength) -> u32 {
    match s {
        ViewpointStrength::Consensus => 100,
        ViewpointStrength::Majority => 80,
        ViewpointStrength::Strong => 70,
        ViewpointStrength::Moderate => 60,
        ViewpointStrength::Weak => 40,
        ViewpointStrength::Minority => 30,
    }
}

impl ViewpointStrength {
    pub fn to_arabic(&self) -> (s: &'static str)
        ensures
            s@ == strength_arabic(*self),
    {
        match self {
            ViewpointStrength::Consensus => "إجماع",
            ViewpointStrength::Majority => "رأي الجمهور",
            ViewpointStrength::Strong => "رأي قوي",
            ViewpointStrength::Moderate => "رأي متوسط",
            ViewpointStrength::Weak => "رأي ضعيف",
            ViewpointStrength::Minority => "رأي الأقلية",
        }
    }

    /// The weight of the strength, in hundredths.
    pub fn to_score_hundredths(&self) -> (h: u32)
        ensures
            h == strength_hundredths(*self),
    {
        match self {
            ViewpointStrength::Consensus => 100,
            ViewpointStrength::Majority => 80,
            ViewpointStrength::Strong => 70,
            ViewpointStrength::Moderate => 60,
            ViewpointStrength::Weak => 40,
            ViewpointStrength::Minority => 30,
        }
    }
}

/// How disputed a question is.
#[derive(Debug, Clone, Copy, PartialEq, Eq, Structural)]
pub enum ControlversyLevel {
    NoControversy,
    Minor,
    Moderate,
    Significant,
    Major,
}

/// The Arabic name of a level of dispute.
pub open spec fn controversy_arabic(l: ControlversyLevel) -> Seq<char> {
    match l {
        ControlversyLevel::NoControversy => "لا يوجد خلاف"@,
        ControlversyLevel::Minor => "خلاف طفيف"@,
        ControlversyLevel::Moderate => "خلاف متوسط"@,
        ControlversyLevel::Significant => "خلاف كبير"@,
        ControlversyLevel::Major => "خلاف جوهري"@,
    }
}

/// The weight that a known disputed topic of this level adds, in tenths.
pub open spec fn controversy_weight_tenths(l: ControlversyLevel) -> u32 {
    match l {
        ControlversyLevel::Major => 8,
        ControlversyLevel::Significant => 6,
        ControlversyLevel::Moderate => 4,
        ControlversyLevel::Minor => 2,
        ControlversyLevel::NoControversy => 0,
    }
}

impl ControlversyLevel {
    pub fn to_arabic(&self) -> (s: &'static str)
        ensures
            s@ == controversy_arabic(*self),
    {
        match self {
            ControlversyLevel::NoControversy => "لا يوجد خلاف",
            ControlversyLevel::Minor => "خلاف طفيف",
            ControlversyLevel::Moderate => "خلاف متوسط",
            ControlversyLevel::Significant => "خلاف كبير",
            ControlversyLevel::Major => "خلاف جوهري",
        }
    }

    /// The weight that a known disputed topic of this level adds, in tenths.
    pub fn weight_tenths(&self) -> (t: u32)
        ensures
            t == controversy_weight_tenths(*self),
    {
        match self {
            ControlversyLevel::Major => 8,
            ControlversyLevel::Significant => 6,
            ControlversyLevel::Moderate => 4,
            ControlversyLevel::Minor => 2,
            ControlversyLevel::NoControversy => 0,
        }
    }
}

/// Kinds of content inside the application.
#[derive(Debug, Clone, Copy, PartialEq, Eq, Structural)]
pub enum InternalSourceType {
    QuranSection,
    HadithCollection,
    TafsirChapter,
    FiqhRuling,
    ScholarlyArticle,
    ComparativeStudy,
}

/// Classes of source reliability.
#[derive(Debug, Clone, Copy, PartialEq, Eq, Structural)]
pub enum ReliabilityClassification {
    HighlyReliable,
    Reliable,
    ModeratelyReliable,
    Questionable,
    Unreliable,
}

/// The Arabic name of a reliability class.
pub open spec fn reliability_arabic(c: ReliabilityClassification) -> Seq<char> {
    match c {
        ReliabilityClassification::HighlyReliable => "موثوق جداً"@,
        ReliabilityClassification::Reliable => "موثوق"@,
        ReliabilityClassification::ModeratelyReliable => "موثوق نسبياً"@,
        ReliabilityClassification::Questionable => "مشكوك فيه"@,
        ReliabilityClassification::Unreliable => "غير موثوق"@,
    }
}

impl ReliabilityClassification {
    pub fn to_arabic(&self) -> (s: &'static str)
        ensures
            s@ == reliability_arabic(*self),
    {
        match self {
            ReliabilityClassification::HighlyReliable => "موثوق جداً",
            ReliabilityClassification::Reliable => "موثوق",
            ReliabilityClassification::ModeratelyReliable => "موثوق نسبياً",
            ReliabilityClassification::Questionable => "مشكوك فيه",
            ReliabilityClassification::Unreliable => "غير موثوق",
        }
    }
}

/// A scholarly position on a disputed question.
#[derive(Debug, Clone)]
pub struct ScholarlyViewpoint {
    pub id: String,
    pub madhab: IslamicMadhab,
    pub position: String,
    pub evidence: Vec<IslamicSource>,
    pub reasoning: String,
    pub prominent_scholars: Vec<String>,
    pub strength_level: ViewpointStrength,
    pub conditions: Vec<String>,
    pub exceptions: Vec<String>,
    pub modern_applications: Vec<String>,
}

/// A pointer to content inside the application, with its relevance in
/// hundredths.
#[derive(Debug, Clone)]
pub struct InternalGuidance {
    pub source_type: InternalSourceType,
    pub reference_path: String,
    pub description: String,
    pub relevance_hundredths: u32,
    pub recommended_sections: Vec<String>,
}

/// A piece of guidance has a path, a description and at least one section.
pub open spec fn filled(g: InternalGuidance) -> bool {
    g.reference_path@.len() > 0 && g.description@.len() > 0 && g.recommended_sections@.len() > 0
}

/// The analysers of disputed questions, together.
pub struct MultipleViewpointsSystem {
    pub controversy_detector: ControlversyDetector,
    pub madhab_classifier: MadhabClassifier,
    pub viewpoint_aggregator: ViewpointAggregator,
    pub source_reliability_evaluator: SourceReliabilityEvaluator,
    pub internal_guidance_generator: InternalGuidanceGenerator,
}

impl MultipleViewpointsSystem {
    pub fn new() -> (r: Self)
        ensures
            r.controversy_detector.standard(),
            r.madhab_classifier.standard(),
    {
        MultipleViewpointsSystem {
            controversy_detector: ControlversyDetector::new(),
            madhab_classifier: MadhabClassifier::new(),
            viewpoint_aggregator: ViewpointAggregator::new(),
            source_reliability_evaluator: SourceReliabilityEvaluator::new(),
            internal_guidance_generator: InternalGuidanceGenerator::new(),
        }
    }
}

// ---------------------------------------------------------------------------
// Controversy detection
// ---------------------------------------------------------------------------

/// Words that point to a dispute.
pub open spec fn dispute_keyword_list() -> Seq<Seq<char>> {
    seq![
        "خلاف"@, "اختلاف"@, "اختلف"@, "مذهب"@, "مذاهب"@, "آراء"@, "أقوال"@,
        "رأي"@, "قول"@, "وجه"@, "احتمال"@, "جائز"@, "مكروه"@, "مستحب"@,
        "خلافي"@, "محل نزاع"@, "محل خلاف"@, "فيه نظر"@,
    ]
}

/// Known disputed topics and how disputed each is.
pub open spec fn disputed_topic_list() -> Seq<(Seq<char>, ControlversyLevel)> {
    seq![
        ("رفع اليدين في الصلاة"@, ControlversyLevel::Moderate),
        ("المسح على الخفين"@, ControlversyLevel::Minor),
        ("قراءة الفاتحة خلف الإمام"@, ControlversyLevel::Moderate),
        ("حكم الموسيقى"@, ControlversyLevel::Significant),
        ("التصوير"@, ControlversyLevel::Moderate),
        ("الربا"@, ControlversyLevel::Minor),
        ("النقاب"@, ControlversyLevel::Significant),
        ("صلاة التراويح"@, ControlversyLevel::Minor),
    ]
}

/// The view of a table of topics.
pub open spec fn topics_view(v: Seq<(&str, ControlversyLevel)>) -> Seq<(Seq<char>, ControlversyLevel)> {
    v.map_values(|e: (&str, ControlversyLevel)| (e.0@, e.1))
}

/// The first entry of `topics` whose topic, lower-cased, occurs in `low`.
pub open spec fn first_topic(low: Seq<char>, topics: Seq<(Seq<char>, ControlversyLevel)>) -> Option<(Seq<char>, ControlversyLevel)>
    decreases topics.len(),
{
    if topics.len() == 0 {
        None
    } else if seq_contains(low, lowercase_of(topics[0].0)) {
        Some(topics[0])
    } else {
        first_topic(low, topics.drop_first())
    }
}

/// The number of distinct values in a sequence of source types.
pub open spec fn distinct_count(types: Seq<SourceType>) -> nat {
    types.to_set().len()
}

/// The diversity of source types in tenths: none or one type 0, two 0.3, three
/// 0.5, four 0.7, more 0.9.
pub open spec fn diversity_tenths(n: nat) -> u32 {
    if n <= 1 { 0 } else if n == 2 { 3 } else if n == 3 { 5 } else if n == 4 { 7 } else { 9 }
}

/// The content types of a list of sources.
pub open spec fn content_types(sources: Seq<IslamicSource>) -> Seq<SourceType> {
    sources.map_values(|s: IslamicSource| s.content_type)
}

/// Detector of disputed questions.
pub struct ControlversyDetector {
    pub controversial_keywords: Vec<&'static str>,
    pub controversial_topics: Vec<(&'static str, ControlversyLevel)>,
}

impl ControlversyDetector {
    /// The detector holds the standard tables.
    pub open spec fn standard(&self) -> bool {
        &&& strs_view(self.controversial_keywords@) == dispute_keyword_list()
        &&& topics_view(self.controversial_topics@) == disputed_topic_list()
    }

    pub fn new() -> (r: Self)
        ensures
            r.standard(),
    {
        let controversial_keywords = vec![
            "خلاف", "اختلاف", "اختلف", "مذهب", "مذاهب", "آراء", "أقوال",
            "رأي", "قول", "وجه", "احتمال", "جائز", "مكروه", "مستحب",
            "خلافي", "محل نزاع", "محل خلاف", "فيه نظر",
        ];
        let controversial_topics = vec![
            ("رفع اليدين في الصلاة", ControlversyLevel::Moderate),
            ("المسح على الخفين", ControlversyLevel::Minor),
            ("قراءة الفاتحة خلف الإمام", ControlversyLevel::Moderate),
            ("حكم الموسيقى", ControlversyLevel::Significant),
            ("التصوير", ControlversyLevel::Moderate),
            ("الربا", ControlversyLevel::Minor),
            ("النقاب", ControlversyLevel::Significant),
            ("صلاة التراويح", ControlversyLevel::Minor),
        ];
        let r = ControlversyDetector { controversial_keywords, controversial_topics };
        assert(strs_view(r.controversial_keywords@) =~= dispute_keyword_list());
        assert(topics_view(r.controversial_topics@) =~= disputed_topic_list());
        r
    }

    /// The dispute words that occur in the lower-cased normalised question.
    pub fn keyword_matches(&self, normalized_question: &str) -> (r: Vec<String>)
        ensures
            string_views(r@) == keep_lower_occurring(
                lowercase_of(normalized_question@),
                strs_view(self.controversial_keywords@),
            ),
    {
        let low = lowercase_chars(normalized_question);
        filter_lower_occurring(&low, &self.controversial_keywords)
    }

    /// The first known disputed topic that occurs in the lower-cased normalised
    /// question; only one topic is taken.
    pub fn topic_match(&self, normalized_question: &str) -> (r: Option<(&'static str, ControlversyLevel)>)
        ensures
            match r {
                Some(t) => first_topic(lowercase_of(normalized_question@), topics_view(self.controversial_topics@)) == Some((t.0@, t.1)),
                None => first_topic(lowercase_of(normalized_question@), topics_view(self.controversial_topics@)) is None,
            },
    {
        let low = lowercase_chars(normalized_question);
        let ghost tv = topics_view(self.controversial_topics@);
        let mut i: usize = 0;
        assert(tv.skip(0) =~= tv);
        while i < self.controversial_topics.len()
            invariant
                i <= self.controversial_topics.len(),
                tv == topics_view(self.controversial_topics@),
                low@ == lowercase_of(normalized_question@),
                first_topic(low@, tv) == first_topic(low@, tv.skip(i as int)),
            decreases self.controversial_topics.len() - i,
        {
            let (topic, level) = self.controversial_topics[i];
            proof {
                assert(tv.skip(i as int)[0] == tv[i as int]);
                assert(tv.skip(i as int).drop_first() =~= tv.skip(i + 1));
            }
            let lt = lowercase_chars(topic);
            if vec_contains(&low, &lt) {
                return Some((topic, level));
            }
            i = i + 1;
        }
        None
    }

    /// The diversity of the sources' content types, in tenths (see
    /// `diversity_tenths`).
    pub fn assess_madhab_diversity(&self, sources: &Vec<IslamicSource>) -> (r: u32)
        ensures
            r == diversity_tenths(distinct_count(content_types(sources@))),
    {
        let mut seen: Vec<SourceType> = Vec::new();
        let mut i: usize = 0;
        let ghost types = content_types(sources@);
        while i < sources.len()
            invariant
                i <= sources.len(),
                types == content_types(sources@),
                seen@.to_set() == types.take(i as int).to_set(),
                seen@.no_duplicates(),
            decreases sources.len() - i,
        {
            let t = sources[i].content_type;
            let mut j: usize = 0;
            let mut present = false;
            while j < seen.len()
                invariant
                    j <= seen.len(),
                    present <==> exists|k: int| 0 <= k < j && seen@[k] == t,
                decreases seen.len() - j,
            {
                if seen[j] == t {
                    present = true;
                }
                j = j + 1;
            }
            proof {
                assert(types.take(i + 1) =~= types.take(i as int).push(t));
                assert(types.take(i + 1).to_set() =~= types.take(i as int).to_set().insert(t)) by {
                    assert forall|x: SourceType| types.take(i + 1).to_set().contains(x) <==> types.take(i as int).to_set().insert(t).contains(x) by {
                        if types.take(i + 1).to_set().contains(x) {
                            let k = choose|k: int| 0 <= k < i + 1 && #[trigger] types.take(i + 1)[k] == x;
                            if k < i {
                                assert(types.take(i as int)[k] == x);
                            }
                        }
                        if types.take(i as int).to_set().contains(x) {
                            let k = choose|k: int| 0 <= k < i && #[trigger] types.take(i as int)[k] == x;
                            assert(types.take(i + 1)[k] == x);
                        }
                        if x == t {
                            assert(types.take(i + 1)[i as int] == x);
                        }
                    }
                }
            }
            if !present {
                let ghost prev = seen@;
                seen.push(t);
                proof {
                    assert(seen@.to_set() =~= prev.to_set().insert(t)) by {
                        assert forall|x: SourceType| seen@.to_set().contains(x) <==> prev.to_set().insert(t).contains(x) by {
                            if seen@.to_set().contains(x) {
                                let k = choose|k: int| 0 <= k < seen@.len() && seen@[k] == x;
                                if k < prev.len() {
                                    assert(prev[k] == x);
                                }
                            }
                            if prev.to_set().contains(x) {
                                let k = choose|k: int| 0 <= k < prev.len() && prev[k] == x;
                                assert(seen@[k] == x);
                            }
                            if x == t {
                                assert(seen@[prev.len() as int] == x);
                            }
                        }
                    }
                }
            } else {
                proof {
                    let k = choose|k: int| 0 <= k < seen@.len() && seen@[k] == t;
                    assert(seen@.to_set().contains(t));
                    assert(seen@.to_set().insert(t) =~= seen@.to_set());
                }
            }
            i = i + 1;
        }
        assert(types.take(sources.len() as int) =~= types);
        proof {
            seen@.unique_seq_to_set();
        }
        let n = seen.len();
        if n <= 1 { 0 } else if n == 2 { 3 } else if n == 3 { 5 } else if n == 4 { 7 } else { 9 }
    }

    /// Whether the sources mix sahih and daif hadith.
    pub fn has_conflicting_sources(&self, sources: &Vec<IslamicSource>) -> (r: bool)
        ensures
            r == ((exists|i: int| 0 <= i < sources@.len() && sources@[i].content_type == SourceType::SahihHadith)
                && (exists|i: int| 0 <= i < sources@.len() && sources@[i].content_type == SourceType::DaifHadith)),
    {
        let mut has_sahih = false;
        let mut has_daif = false;
        let mut i: usize = 0;
        while i < sources.len()
            invariant
                i <= sources.len(),
                has_sahih <==> exists|k: int| 0 <= k < i && sources@[k].content_type == SourceType::SahihHadith,
                has_daif <==> exists|k: int| 0 <= k < i && sources@[k].content_type == SourceType::DaifHadith,
            decreases sources.len() - i,
        {
            if sources[i].content_type == SourceType::SahihHadith {
                has_sahih = true;
            }
            if sources[i].content_type == SourceType::DaifHadith {
                has_daif = true;
            }
            i = i + 1;
        }
        has_sahih && has_daif
    }
}

// ---------------------------------------------------------------------------
// Classification by school
// ---------------------------------------------------------------------------

/// Famous scholars and their schools.
pub open spec fn scholar_school_list() -> Seq<(Seq<char>, IslamicMadhab)> {
    seq![
        ("أبو حنيفة"@, IslamicMadhab::Hanafi),
        ("مالك بن أنس"@, IslamicMadhab::Maliki),
        ("الشافعي"@, IslamicMadhab::Shafii),
        ("أحمد بن حنبل"@, IslamicMadhab::Hanbali),
        ("ابن تيمية"@, IslamicMadhab::Hanbali),
        ("ابن القيم"@, IslamicMadhab::Hanbali),
        ("النووي"@, IslamicMadhab::Shafii),
    ]
}

/// The view of a table of schools.
pub open spec fn schools_view(v: Seq<(&str, IslamicMadhab)>) -> Seq<(Seq<char>, IslamicMadhab)> {
    v.map_values(|e: (&str, IslamicMadhab)| (e.0@, e.1))
}

/// The view of a table of school indicators.
pub open spec fn indicators_view(v: Seq<(IslamicMadhab, Vec<&str>)>) -> Seq<(IslamicMadhab, Seq<Seq<char>>)> {
    v.map_values(|e: (IslamicMadhab, Vec<&str>)| (e.0, strs_view(e.1@)))
}

/// The words that point to each of the four schools.
pub open spec fn school_indicator_list() -> Seq<(IslamicMadhab, Seq<Seq<char>>)> {
    seq![
        (IslamicMadhab::Hanafi, seq!["أبو حنيفة"@, "الحنفي"@, "المذهب الحنفي"@, "الهداية"@, "البدائع"@]),
        (IslamicMadhab::Maliki, seq!["مالك"@, "المالكي"@, "المذهب المالكي"@, "الموطأ"@, "المدونة"@]),
        (IslamicMadhab::Shafii, seq!["الشافعي"@, "المذهب الشافعي"@, "الأم"@, "المهذب"@]),
        (IslamicMadhab::Hanbali, seq!["أحمد"@, "الحنبلي"@, "المذهب الحنبلي"@, "المسند"@, "المغني"@]),
    ]
}

/// The school that a scholar's name is mapped to.
pub open spec fn school_of_scholar(table: Seq<(Seq<char>, IslamicMadhab)>, name: Seq<char>) -> Option<IslamicMadhab>
    decreases table.len(),
{
    if table.len() == 0 {
        None
    } else if table[0].0 == name {
        Some(table[0].1)
    } else {
        school_of_scholar(table.drop_first(), name)
    }
}

/// Some indicator of school `m`, lower-cased, occurs in `text`.
pub open spec fn school_indicated(table: Seq<(IslamicMadhab, Seq<Seq<char>>)>, text: Seq<char>, m: IslamicMadhab) -> bool {
    exists|i: int, j: int|
        0 <= i < table.len() && table[i].0 == m && 0 <= j < table[i].1.len()
            && seq_contains(text, lowercase_of(table[i].1[j]))
}

/// The text that is searched for indicators: the lower-cased reference and
/// text, joined by a space.
pub open spec fn indicator_text(source: IslamicSource) -> Seq<char> {
    lowercase_of(source.reference@) + seq![' '] + lowercase_of(source.text@)
}

/// Classifier of sources by school.
pub struct MadhabClassifier {
    pub madhab_indicators: Vec<(IslamicMadhab, Vec<&'static str>)>,
    pub scholar_madhab_mapping: Vec<(&'static str, IslamicMadhab)>,
}

impl MadhabClassifier {
    /// The classifier holds the standard tables.
    pub open spec fn standard(&self) -> bool {
        &&& indicators_view(self.madhab_indicators@) == school_indicator_list()
        &&& schools_view(self.scholar_madhab_mapping@) == scholar_school_list()
    }

    pub fn new() -> (r: Self)
        ensures
            r.standard(),
    {
        let madhab_indicators = vec![
            (IslamicMadhab::Hanafi, vec!["أبو حنيفة", "الحنفي", "المذهب الحنفي", "الهداية", "البدائع"]),
            (IslamicMadhab::Maliki, vec!["مالك", "المالكي", "المذهب المالكي", "الموطأ", "المدونة"]),
            (IslamicMadhab::Shafii, vec!["الشافعي", "المذهب الشافعي", "الأم", "المهذب"]),
            (IslamicMadhab::Hanbali, vec!["أحمد", "الحنبلي", "المذهب الحنبلي", "المسند", "المغني"]),
        ];
        let scholar_madhab_mapping = vec![
            ("أبو حنيفة", IslamicMadhab::Hanafi),
            ("مالك بن أنس", IslamicMadhab::Maliki),
            ("الشافعي", IslamicMadhab::Shafii),
            ("أحمد بن حنبل", IslamicMadhab::Hanbali),
            ("ابن تيمية", IslamicMadhab::Hanbali),
            ("ابن القيم", IslamicMadhab::Hanbali),
            ("النووي", IslamicMadhab::Shafii),
        ];
        let r = MadhabClassifier { madhab_indicators, scholar_madhab_mapping };
        proof {
            let iv = indicators_view(r.madhab_indicators@);
            assert(iv[0].1 =~= school_indicator_list()[0].1);
            assert(iv[1].1 =~= school_indicator_list()[1].1);
            assert(iv[2].1 =~= school_indicator_list()[2].1);
            assert(iv[3].1 =~= school_indicator_list()[3].1);
            assert(iv =~= school_indicator_list());
            assert(schools_view(r.scholar_madhab_mapping@) =~= scholar_school_list());
        }
        r
    }

    /// The school of a scholar, if the table maps the name.
    fn scholar_school(&self, name: &str) -> (r: Option<IslamicMadhab>)
        ensures
            r == school_of_scholar(schools_view(self.scholar_madhab_mapping@), name@),
    {
        let ghost t = schools_view(self.scholar_madhab_mapping@);
        let mut i: usize = 0;
        assert(t.skip(0) =~= t);
        while i < self.scholar_madhab_mapping.len()
            invariant
                i <= self.scholar_madhab_mapping.len(),
                t == schools_view(self.scholar_madhab_mapping@),
                school_of_scholar(t, name@) == school_of_scholar(t.skip(i as int), name@),
            decreases self.scholar_madhab_mapping.len() - i,
        {
            let (k, m) = self.scholar_madhab_mapping[i];
            proof {
                assert(t.skip(i as int)[0] == t[i as int]);
                assert(t.skip(i as int).drop_first() =~= t.skip(i + 1));
            }
            if str_eq(k, name) {
                return Some(m);
            }
            i = i + 1;
        }
        None
    }

    /// The school of a source: that of its author when the author is a mapped
    /// scholar; else a school whose indicator occurs in the lower-cased reference
    /// or text (which one, when several do, is left open); else general.
    pub fn classify_single_source(&self, source: &IslamicSource) -> (r: IslamicMadhab)
        ensures
            match source.author {
                Some(a) if school_of_scholar(schools_view(self.scholar_madhab_mapping@), a@) is Some =>
                    r == school_of_scholar(schools_view(self.scholar_madhab_mapping@), a@).unwrap(),
                _ => if exists|m: IslamicMadhab| school_indicated(indicators_view(self.madhab_indicators@), indicator_text(*source), m) {
                    school_indicated(indicators_view(self.madhab_indicators@), indicator_text(*source), r)
                } else {
                    r == IslamicMadhab::General
                },
            },
    {
        match &source.author {
            Some(a) => {
                match self.scholar_school(a.as_str()) {
                    Some(m) => { return m; },
                    None => {},
                }
            },
            None => {},
        }
        let mut text = lowercase_chars(source.reference.as_str());
        text.push(' ');
        let body = lowercase_chars(source.text.as_str());
        push_chars(&mut text, &body);
        let ghost table = indicators_view(self.madhab_indicators@);
        assert(text@ =~= indicator_text(*source));
        let mut i: usize = 0;
        while i < self.madhab_indicators.len()
            invariant
                i <= self.madhab_indicators.len(),
                table == indicators_view(self.madhab_indicators@),
                text@ == indicator_text(*source),
                match source.author {
                    Some(a) => school_of_scholar(schools_view(self.scholar_madhab_mapping@), a@) is None,
                    None => true,
                },
                forall|a: int, b: int| 0 <= a < i && 0 <= b < table[a].1.len() ==> !seq_contains(text@, lowercase_of(#[trigger] table[a].1[b])),
            decreases self.madhab_indicators.len() - i,
        {
            let entry = &self.madhab_indicators[i];
            let mut j: usize = 0;
            while j < entry.1.len()
                invariant
                    j <= entry.1.len(),
                    i < table.len(),
                    table[i as int] == (entry.0, strs_view(entry.1@)),
                    table == indicators_view(self.madhab_indicators@),
                    text@ == indicator_text(*source),
                    match source.author {
                        Some(a) => school_of_scholar(schools_view(self.scholar_madhab_mapping@), a@) is None,
                        None => true,
                    },
                    forall|b: int| 0 <= b < j ==> !seq_contains(text@, lowercase_of(#[trigger] table[i as int].1[b])),
                decreases entry.1.len() - j,
            {
                let ind = lowercase_chars(entry.1[j]);
                if vec_contains(&text, &ind) {
                    assert(seq_contains(text@, lowercase_of(table[i as int].1[j as int])));
                    assert(school_indicated(table, text@, entry.0));
                    return entry.0;
                }
                j = j + 1;
            }
            i = i + 1;
        }
        IslamicMadhab::General
    }
}

// ---------------------------------------------------------------------------
// Viewpoints
// ---------------------------------------------------------------------------

/// Builder of viewpoints from classified sources.
pub struct ViewpointAggregator;

/// Words of condition.
pub open spec fn condition_words() -> Seq<Seq<char>> {
    seq!["إذا"@, "بشرط"@, "عند"@]
}

/// Words of exception.
pub open spec fn exception_words() -> Seq<Seq<char>> {
    seq!["إلا"@, "غير"@, "ما عدا"@]
}

/// Some source's lower-cased text holds one of `words`.
pub open spec fn some_source_mentions(sources: Seq<IslamicSource>, words: Seq<Seq<char>>) -> bool {
    exists|i: int| 0 <= i < sources.len() && any_occurs(lowercase_of(sources[i].text@), words)
}

impl ViewpointAggregator {
    pub fn new() -> (r: Self) {
        ViewpointAggregator
    }

    /// Whether some source's lower-cased text holds one of `words`.
    fn mentions(sources: &Vec<IslamicSource>, words: &Vec<&str>) -> (r: bool)
        ensures
            r == some_source_mentions(sources@, strs_view(words@)),
    {
        let mut i: usize = 0;
        while i < sources.len()
            invariant
                i <= sources.len(),
                forall|k: int| 0 <= k < i ==> !any_occurs(lowercase_of(#[trigger] sources@[k].text@), strs_view(words@)),
            decreases sources.len() - i,
        {
            let low = lowercase_chars(sources[i].text.as_str());
            if contains_any(&low, words) {
                return true;
            }
            i = i + 1;
        }
        false
    }

    /// The conditions of a viewpoint: a note that conditions apply when some
    /// source speaks of one, else a note that none is stated.
    pub fn extract_conditions(&self, sources: &Vec<IslamicSource>) -> (r: Vec<String>)
        ensures
            r@.len() == 1,
            r@[0]@ == if some_source_mentions(sources@, condition_words()) {
                "يشترط توفر الشروط المذكورة في المصدر"@
            } else {
                "لا توجد شروط خاصة مذكورة"@
            },
    {
        let words = vec!["إذا", "بشرط", "عند"];
        assert(strs_view(words@) =~= condition_words());
        if Self::mentions(sources, &words) {
            vec![to_string("يشترط توفر الشروط المذكورة في المصدر")]
        } else {
            vec![to_string("لا توجد شروط خاصة مذكورة")]
        }
    }

    /// The exceptions of a viewpoint: a note that exceptions apply when some
    /// source speaks of one, else a note that none is stated.
    pub fn extract_exceptions(&self, sources: &Vec<IslamicSource>) -> (r: Vec<String>)
        ensures
            r@.len() == 1,
            r@[0]@ == if some_source_mentions(sources@, exception_words()) {
                "توجد استثناءات مذكورة في المصادر"@
            } else {
                "لا توجد استثناءات خاصة"@
            },
    {
        let words = vec!["إلا", "غير", "ما عدا"];
        assert(strs_view(words@) =~= exception_words());
        if Self::mentions(sources, &words) {
            vec![to_string("توجد استثناءات مذكورة في المصادر")]
        } else {
            vec![to_string("لا توجد استثناءات خاصة")]
        }
    }

    /// Notes on applying a viewpoint today, by the type of question.
    pub fn generate_modern_applications(&self, question_type: QuestionType) -> (r: Vec<String>)
        ensures
            string_views(r@) == match question_type {
                QuestionType::Fiqh => seq![
                    "يمكن تطبيق هذا الحكم في الحياة المعاصرة"@,
                    "يُنصح بمراجعة العلماء المعاصرين للتطبيق العملي"@,
                ],
                QuestionType::Aqeedah => seq!["هذا المفهوم العقدي ثابت عبر العصور"@],
                _ => seq!["يمكن الاستفادة من هذا الرأي في السياق المعاصر"@],
            },
    {
        let r = match question_type {
            QuestionType::Fiqh => vec![
                to_string("يمكن تطبيق هذا الحكم في الحياة المعاصرة"),
                to_string("يُنصح بمراجعة العلماء المعاصرين للتطبيق العملي"),
            ],
            QuestionType::Aqeedah => vec![to_string("هذا المفهوم العقدي ثابت عبر العصور")],
            _ => vec![to_string("يمكن الاستفادة من هذا الرأي في السياق المعاصر")],
        };
        assert(string_views(r@) =~= match question_type {
            QuestionType::Fiqh => seq![
                "يمكن تطبيق هذا الحكم في الحياة المعاصرة"@,
                "يُنصح بمراجعة العلماء المعاصرين للتطبيق العملي"@,
            ],
            QuestionType::Aqeedah => seq!["هذا المفهوم العقدي ثابت عبر العصور"@],
            _ => seq!["يمكن الاستفادة من هذا الرأي في السياق المعاصر"@],
        });
        r
    }

    /// The position of a viewpoint, from its first (best) source: for a
    /// jurisprudence question the ruling based on that source's reference; for an
    /// exegesis question the school's adopted exegesis; otherwise the adopted view;
    /// without sources, that there is no clear position.
    pub fn extract_position_from_sources(&self, sources: &Vec<IslamicSource>, question_type: QuestionType) -> (r: String)
        ensures
            r@ == if sources@.len() == 0 {
                "لا يوجد موقف واضح"@
            } else {
                match question_type {
                    QuestionType::Fiqh => "الحكم الشرعي بناءً على "@ + sources@[0].reference@,
                    QuestionType::Tafsir => "التفسير المعتمد في هذا المذهب"@,
                    _ => "الرأي المعتمد في هذه المسألة"@,
                }
            },
    {
        if sources.len() == 0 {
            return to_string("لا يوجد موقف واضح");
        }
        match question_type {
            QuestionType::Fiqh => {
                let mut v = chars_of("الحكم الشرعي بناءً على ");
                push_str(&mut v, sources[0].reference.as_str());
                string_from_chars(&v)
            },
            QuestionType::Tafsir => to_string("التفسير المعتمد في هذا المذهب"),
            _ => to_string("الرأي المعتمد في هذه المسألة"),
        }
    }

    /// Whether the sources include a verse of the Quran and a sahih hadith;
    /// with the average score these settle the strength of a viewpoint.
    pub fn evidence_kinds(&self, sources: &Vec<IslamicSource>) -> (r: (bool, bool))
        ensures
            r.0 == exists|i: int| 0 <= i < sources@.len() && sources@[i].content_type == SourceType::Quran,
            r.1 == exists|i: int| 0 <= i < sources@.len() && sources@[i].content_type == SourceType::SahihHadith,
    {
        let mut has_quran = false;
        let mut has_sahih = false;
        let mut i: usize = 0;
        while i < sources.len()
            invariant
                i <= sources.len(),
                has_quran <==> exists|k: int| 0 <= k < i && sources@[k].content_type == SourceType::Quran,
                has_sahih <==> exists|k: int| 0 <= k < i && sources@[k].content_type == SourceType::SahihHadith,
            decreases sources.len() - i,
        {
            if sources[i].content_type == SourceType::Quran {
                has_quran = true;
            }
            if sources[i].content_type == SourceType::SahihHadith {
                has_sahih = true;
            }
            i = i + 1;
        }
        (has_quran, has_sahih)
    }
}

/// Evaluator of source reliability.
pub struct SourceReliabilityEvaluator;

/// The scholars whose authorship counts toward a source's reliability.
pub open spec fn famous_scholars() -> Seq<Seq<char>> {
    seq![
        "البخاري"@, "مسلم"@, "ابن كثير"@, "الطبري"@, "القرطبي"@,
        "النووي"@, "ابن تيمية"@, "ابن القيم"@, "الشافعي"@, "مالك"@,
    ]
}

/// The reason that the kind of a source gives for its reliability, if any.
pub open spec fn type_reliability_factor(t: SourceType) -> Seq<Seq<char>> {
    match t {
        SourceType::Quran => seq!["القرآن الكريم - موثوقية مطلقة"@],
        SourceType::SahihHadith => seq!["حديث صحيح"@],
        SourceType::HasanHadith => seq!["حديث حسن"@],
        SourceType::Tafsir => seq!["تفسير معتمد"@],
        SourceType::FiqhRuling => seq!["حكم فقهي"@],
        SourceType::DaifHadith => seq!["حديث ضعيف - يحتاج تحقق"@],
        SourceType::MawduHadith => seq!["حديث موضوع - غير موثوق"@],
        _ => Seq::empty(),
    }
}

/// The reason that the authenticity of a source gives, if any.
pub open spec fn authenticity_reliability_factor(a: AuthenticityLevel) -> Seq<Seq<char>> {
    match a {
        AuthenticityLevel::Verified => seq!["مصدر محقق"@],
        AuthenticityLevel::Reliable => seq!["مصدر موثوق"@],
        AuthenticityLevel::Questionable => seq!["مصدر مشكوك فيه"@],
        AuthenticityLevel::Unreliable => seq!["مصدر غير موثوق"@],
        AuthenticityLevel::Unknown => Seq::empty(),
    }
}

/// The reason that the author gives: a famous scholar is named.
pub open spec fn author_reliability_factor(author: Option<Seq<char>>) -> Seq<Seq<char>> {
    match author {
        Some(a) => if seq_in_list(a, famous_scholars()) { seq!["مؤلف مشهور: "@ + a] } else { Seq::empty() },
        None => Seq::empty(),
    }
}

/// The reasons for a source's reliability: its kind's, its authenticity's and
/// its author's, in that order.
pub open spec fn reliability_factors_spec(t: SourceType, a: AuthenticityLevel, author: Option<Seq<char>>) -> Seq<Seq<char>> {
    type_reliability_factor(t) + authenticity_reliability_factor(a) + author_reliability_factor(author)
}

/// Whether `name` is one of the famous scholars.
pub fn is_famous_scholar(name: &str) -> (r: bool)
    ensures
        r == seq_in_list(name@, famous_scholars()),
{
    let famous = vec!["البخاري", "مسلم", "ابن كثير", "الطبري", "القرطبي", "النووي", "ابن تيمية", "ابن القيم", "الشافعي", "مالك"];
    assert(famous@.map_values(|x: &str| x@) =~= famous_scholars());
    str_in_list(name, &famous)
}

impl SourceReliabilityEvaluator {
    pub fn new() -> (r: Self) {
        SourceReliabilityEvaluator
    }

    /// The reasons given for a source's reliability (see
    /// `reliability_factors_spec`).
    pub fn reliability_factors(&self, source: &IslamicSource) -> (r: Vec<String>)
        ensures
            string_views(r@) == reliability_factors_spec(
                source.content_type,
                source.authenticity,
                match source.author {
                    Some(a) => Some(a@),
                    None => None,
                },
            ),
    {
        let mut r: Vec<String> = Vec::new();
        match source.content_type {
            SourceType::Quran => push_text(&mut r, "القرآن الكريم - موثوقية مطلقة"),
            SourceType::SahihHadith => push_text(&mut r, "حديث صحيح"),
            SourceType::HasanHadith => push_text(&mut r, "حديث حسن"),
            SourceType::Tafsir => push_text(&mut r, "تفسير معتمد"),
            SourceType::FiqhRuling => push_text(&mut r, "حكم فقهي"),
            SourceType::DaifHadith => push_text(&mut r, "حديث ضعيف - يحتاج تحقق"),
            SourceType::MawduHadith => push_text(&mut r, "حديث موضوع - غير موثوق"),
            _ => {},
        }
        assert(string_views(r@) =~= type_reliability_factor(source.content_type));
        let ghost first = string_views(r@);
        match source.authenticity {
            AuthenticityLevel::Verified => push_text(&mut r, "مصدر محقق"),
            AuthenticityLevel::Reliable => push_text(&mut r, "مصدر موثوق"),
            AuthenticityLevel::Questionable => push_text(&mut r, "مصدر مشكوك فيه"),
            AuthenticityLevel::Unreliable => push_text(&mut r, "مصدر غير موثوق"),
            AuthenticityLevel::Unknown => {},
        }
        assert(string_views(r@) =~= first + authenticity_reliability_factor(source.authenticity));
        let ghost second = string_views(r@);
        match &source.author {
            Some(author) => {
                if is_famous_scholar(author.as_str()) {
                    let mut v: Vec<char> = Vec::new();
                    push_str(&mut v, "مؤلف مشهور: ");
                    push_str(&mut v, author.as_str());
                    r.push(string_from_chars(&v));
                }
            },
            None => {},
        }
        assert(string_views(r@) =~= second + author_reliability_factor(match source.author {
            Some(a) => Some(a@),
            None => None,
        }));
        r
    }
}

// ---------------------------------------------------------------------------
// Internal guidance
// ---------------------------------------------------------------------------

/// The guidance for a type of question, by its kinds and relevances: for
/// jurisprudence a comparative study (0.9) and one ruling section per viewpoint
/// (0.8 each); for exegesis a tafsir chapter (0.9); for hadith a hadith
/// collection (0.9); for creed a scholarly article (0.8); otherwise a scholarly
/// article (0.6).
pub open spec fn guidance_shape(question_type: QuestionType, n_viewpoints: nat) -> Seq<(InternalSourceType, u32)> {
    match question_type {
        QuestionType::Fiqh => seq![(InternalSourceType::ComparativeStudy, 90u32)]
            + Seq::new(n_viewpoints, |i: int| (InternalSourceType::FiqhRuling, 80u32)),
        QuestionType::Tafsir => seq![(InternalSourceType::TafsirChapter, 90u32)],
        QuestionType::Hadith => seq![(InternalSourceType::HadithCollection, 90u32)],
        QuestionType::Aqeedah => seq![(InternalSourceType::ScholarlyArticle, 80u32)],
        _ => seq![(InternalSourceType::ScholarlyArticle, 60u32)],
    }
}

/// The kinds and relevances of a list of guidance.
pub open spec fn guidance_kinds(g: Seq<InternalGuidance>) -> Seq<(InternalSourceType, u32)> {
    g.map_values(|x: InternalGuidance| (x.source_type, x.relevance_hundredths))
}

/// Generator of guidance to the application's own content.
pub struct InternalGuidanceGenerator;

impl InternalGuidanceGenerator {
    pub fn new() -> (r: Self) {
        InternalGuidanceGenerator
    }

    /// The guidance for a question of this type with these viewpoints, ordered
    /// by decreasing relevance (see `guidance_shape`); each ruling section points
    /// to the path of its viewpoint's school.
    pub fn generate_guidance(&self, question_type: QuestionType, viewpoints: &Vec<ScholarlyViewpoint>) -> (r: Vec<InternalGuidance>)
        ensures
            guidance_kinds(r@) == guidance_shape(question_type, viewpoints@.len()),
            forall|i: int, j: int| 0 <= i < j < r@.len() ==> r@[i].relevance_hundredths >= r@[j].relevance_hundredths,
            question_type == QuestionType::Fiqh ==> forall|k: int| 0 <= k < viewpoints@.len() ==>
                r@[k + 1].reference_path@ == "/app/fiqh/madhabs/"@ + madhab_arabic(#[trigger] viewpoints@[k].madhab),
            forall|k: int| 0 <= k < r@.len() ==> filled(#[trigger] r@[k]),
    {
        match question_type {
            QuestionType::Fiqh => {
                let mut g: Vec<InternalGuidance> = Vec::new();
                g.push(InternalGuidance {
                    source_type: InternalSourceType::ComparativeStudy,
                    reference_path: to_string("/app/fiqh/comparative-studies"),
                    description: to_string("دراسة مقارنة للآراء الفقهية في هذه المسألة"),
                    relevance_hundredths: 90,
                    recommended_sections: vec![to_string("مقارنة المذاهب الأربعة"), to_string("الأدلة والترجيح")],
                });
                proof {
                    reveal_strlit("/app/fiqh/comparative-studies");
                    reveal_strlit("دراسة مقارنة للآراء الفقهية في هذه المسألة");
                }
                let mut i: usize = 0;
                while i < viewpoints.len()
                    invariant
                        i <= viewpoints.len(),
                        g@.len() == i + 1,
                        g@[0].source_type == InternalSourceType::ComparativeStudy,
                        g@[0].relevance_hundredths == 90,
                        forall|k: int| 1 <= k < g@.len() ==> (#[trigger] g@[k]).source_type == InternalSourceType::FiqhRuling
                            && g@[k].relevance_hundredths == 80,
                        forall|k: int| 0 <= k < i ==> g@[k + 1].reference_path@ == "/app/fiqh/madhabs/"@ + madhab_arabic(#[trigger] viewpoints@[k].madhab),
                        forall|k: int| 0 <= k < g@.len() ==> filled(#[trigger] g@[k]),
                    decreases viewpoints.len() - i,
                {
                    let name = viewpoints[i].madhab.to_arabic();
                    let mut path = chars_of("/app/fiqh/madhabs/");
                    push_str(&mut path, name);
                    let mut desc = chars_of("الأحكام الفقهية في المذهب ");
                    push_str(&mut desc, name);
                    proof {
                        reveal_strlit("/app/fiqh/madhabs/");
                        reveal_strlit("الأحكام الفقهية في المذهب ");
                    }
                    g.push(InternalGuidance {
                        source_type: InternalSourceType::FiqhRuling,
                        reference_path: string_from_chars(&path),
                        description: string_from_chars(&desc),
                        relevance_hundredths: 80,
                        recommended_sections: vec![to_string("الأحكام الأساسية"), to_string("التطبيقات المعاصرة")],
                    });
                    i = i + 1;
                }
                assert(guidance_kinds(g@) =~= guidance_shape(question_type, viewpoints@.len()));
                g
            },
            QuestionType::Tafsir => {
                let g = vec![InternalGuidance {
                    source_type: InternalSourceType::TafsirChapter,
                    reference_path: to_string("/app/tafsir/comparative"),
                    description: to_string("مقارنة تفاسير الآية من كتب التفسير المختلفة"),
                    relevance_hundredths: 90,
                    recommended_sections: vec![to_string("تفسير ابن كثير"), to_string("تفسير الطبري"), to_string("تفسير القرطبي")],
                }];
                proof {
                    reveal_strlit("/app/tafsir/comparative");
                    reveal_strlit("مقارنة تفاسير الآية من كتب التفسير المختلفة");
                }
                assert(guidance_kinds(g@) =~= guidance_shape(question_type, viewpoints@.len()));
                g
            },
            QuestionType::Hadith => {
                let g = vec![InternalGuidance {
                    source_type: InternalSourceType::HadithCollection,
                    reference_path: to_string("/app/hadith/verification"),
                    description: to_string("تحقيق الأحاديث ودراسة الأسانيد"),
                    relevance_hundredths: 90,
                    recommended_sections: vec![to_string("درجة الحديث"), to_string("دراسة السند"), to_string("شروح العلماء")],
                }];
                proof {
                    reveal_strlit("/app/hadith/verification");
                    reveal_strlit("تحقيق الأحاديث ودراسة الأسانيد");
                }
                assert(guidance_kinds(g@) =~= guidance_shape(question_type, viewpoints@.len()));
                g
            },
            QuestionType::Aqeedah => {
                let g = vec![InternalGuidance {
                    source_type: InternalSourceType::ScholarlyArticle,
                    reference_path: to_string("/app/aqeedah/studies"),
                    description: to_string("دراسات عقدية معاصرة في هذا الموضوع"),
                    relevance_hundredths: 80,
                    recommended_sections: vec![to_string("الأدلة من القرآن والسنة"), to_string("موقف أهل السنة والجماعة")],
                }];
                proof {
                    reveal_strlit("/app/aqeedah/studies");
                    reveal_strlit("دراسات عقدية معاصرة في هذا الموضوع");
                }
                assert(guidance_kinds(g@) =~= guidance_shape(question_type, viewpoints@.len()));
                g
            },
            _ => {
                let g = vec![InternalGuidance {
                    source_type: InternalSourceType::ScholarlyArticle,
                    reference_path: to_string("/app/general/related-topics"),
                    description: to_string("مواضيع ذات صلة في التطبيق"),
                    relevance_hundredths: 60,
                    recommended_sections: vec![to_string("مواضيع مشابهة"), to_string("مراجع إضافية")],
                }];
                proof {
                    reveal_strlit("/app/general/related-topics");
                    reveal_strlit("مواضيع ذات صلة في التطبيق");
                }
                assert(guidance_kinds(g@) =~= guidance_shape(question_type, viewpoints@.len()));
                g
            },
        }
    }
}

// ---------------------------------------------------------------------------
// The reasoning and the scholars of a viewpoint
// ---------------------------------------------------------------------------

/// The name of the kind of evidence that a source of type `t` gives.
pub open spec fn evidence_name(t: SourceType) -> Seq<char> {
    match t {
        SourceType::Quran => "القرآن الكريم"@,
        SourceType::SahihHadith => "الحديث الصحيح"@,
        SourceType::HasanHadith => "الحديث الحسن"@,
        SourceType::Tafsir => "التفسير"@,
        SourceType::FiqhRuling => "الحكم الفقهي"@,
        _ => "المصدر الإسلامي"@,
    }
}

fn evidence_name_of(t: SourceType) -> (s: &'static str)
    ensures
        s@ == evidence_name(t),
{
    match t {
        SourceType::Quran => "القرآن الكريم",
        SourceType::SahihHadith => "الحديث الصحيح",
        SourceType::HasanHadith => "الحديث الحسن",
        SourceType::Tafsir => "التفسير",
        SourceType::FiqhRuling => "الحكم الفقهي",
        _ => "المصدر الإسلامي",
    }
}

/// `list` with `item` added at the end, unless it holds it already.
pub open spec fn push_new(list: Seq<Seq<char>>, item: Seq<char>) -> Seq<Seq<char>> {
    if list.contains(item) {
        list
    } else {
        list.push(item)
    }
}

/// The kinds of evidence of the sources, each once, in the order in which
/// they first occur.
pub open spec fn evidence_names(sources: Seq<IslamicSource>) -> Seq<Seq<char>>
    decreases sources.len(),
{
    if sources.len() == 0 {
        Seq::empty()
    } else {
        push_new(evidence_names(sources.drop_last()), evidence_name(sources.last().content_type))
    }
}

/// The authors of the sources, each once, in the order in which they first
/// occur.
pub open spec fn scholar_names(sources: Seq<IslamicSource>) -> Seq<Seq<char>>
    decreases sources.len(),
{
    if sources.len() == 0 {
        Seq::empty()
    } else {
        match sources.last().author {
            Some(a) => push_new(scholar_names(sources.drop_last()), a@),
            None => scholar_names(sources.drop_last()),
        }
    }
}

/// The names joined by " و".
pub open spec fn joined_with_and(names: Seq<Seq<char>>) -> Seq<char>
    decreases names.len(),
{
    if names.len() == 0 {
        Seq::empty()
    } else if names.len() == 1 {
        names[0]
    } else {
        joined_with_and(names.drop_last()) + " و"@ + names.last()
    }
}

/// The reasoning of a school's viewpoint: the kinds of evidence that its
/// sources give.
pub open spec fn reasoning_spec(madhab: IslamicMadhab, sources: Seq<IslamicSource>) -> Seq<char> {
    "يستند المذهب "@ + madhab_arabic(madhab) + " في هذه المسألة إلى "@ + joined_with_and(evidence_names(sources))
        + ". وهذا الرأي مبني على فهم النصوص وتطبيق الأصول الفقهية المعتمدة في هذا المذهب."@
}

/// Whether `list` holds a string with the characters `item`.
fn holds_string(list: &Vec<String>, item: &Vec<char>) -> (r: bool)
    ensures
        r == string_views(list@).contains(item@),
{
    let mut i: usize = 0;
    while i < list.len()
        invariant
            i <= list.len(),
            forall|k: int| 0 <= k < i ==> string_views(list@)[k] != item@,
        decreases list.len() - i,
    {
        let cs = chars_of(list[i].as_str());
        if vec_eq(&cs, item) {
            assert(string_views(list@)[i as int] == item@);
            return true;
        }
        i = i + 1;
    }
    false
}

/// Adds `item` to `list` unless it holds it already.
fn push_if_new(list: &mut Vec<String>, item: String)
    ensures
        string_views(final(list)@) == push_new(string_views(old(list)@), item@),
{
    let cs = chars_of(item.as_str());
    if !holds_string(list, &cs) {
        list.push(item);
        assert(string_views(list@) =~= string_views(old(list)@).push(item@));
    }
}

/// The kinds of evidence of the sources, each once (see `evidence_names`).
pub fn evidence_kinds_of(sources: &Vec<IslamicSource>) -> (r: Vec<String>)
    ensures
        string_views(r@) == evidence_names(sources@),
{
    let mut r: Vec<String> = Vec::new();
    let mut i: usize = 0;
    while i < sources.len()
        invariant
            i <= sources.len(),
            string_views(r@) == evidence_names(sources@.take(i as int)),
        decreases sources.len() - i,
    {
        proof {
            assert(sources@.take(i + 1).drop_last() =~= sources@.take(i as int));
        }
        push_if_new(&mut r, to_string(evidence_name_of(sources[i].content_type)));
        i = i + 1;
    }
    assert(sources@.take(sources.len() as int) =~= sources@);
    r
}

/// The authors of the sources, each once (see `scholar_names`).
pub fn extract_scholars(sources: &Vec<IslamicSource>) -> (r: Vec<String>)
    ensures
        string_views(r@) == scholar_names(sources@),
{
    let mut r: Vec<String> = Vec::new();
    let mut i: usize = 0;
    while i < sources.len()
        invariant
            i <= sources.len(),
            string_views(r@) == scholar_names(sources@.take(i as int)),
        decreases sources.len() - i,
    {
        proof {
            assert(sources@.take(i + 1).drop_last() =~= sources@.take(i as int));
        }
        match &sources[i].author {
            Some(a) => push_if_new(&mut r, a.clone()),
            None => {},
        }
        i = i + 1;
    }
    assert(sources@.take(sources.len() as int) =~= sources@);
    r
}

/// The names joined by " و".
fn join_with_and(names: &Vec<String>) -> (r: Vec<char>)
    ensures
        r@ == joined_with_and(string_views(names@)),
{
    let ghost views = string_views(names@);
    let mut r: Vec<char> = Vec::new();
    let mut i: usize = 0;
    while i < names.len()
        invariant
            i <= names.len(),
            views == string_views(names@),
            r@ == joined_with_and(views.take(i as int)),
        decreases names.len() - i,
    {
        proof {
            assert(views.take(i + 1).drop_last() =~= views.take(i as int));
            assert(views.take(i + 1).last() == views[i as int]);
        }
        if i == 0 {
            push_str(&mut r, names[i].as_str());
            assert(r@ =~= joined_with_and(views.take(1)));
        } else {
            let ghost before = r@;
            push_str(&mut r, " و");
            push_str(&mut r, names[i].as_str());
            assert(r@ =~= before + " و"@ + views[i as int]);
        }
        i = i + 1;
    }
    assert(views.take(names.len() as int) =~= views);
    r
}

/// The reasoning of a school's viewpoint: the kinds of evidence that its
/// sources give, each once (see `reasoning_spec`).
pub fn generate_reasoning(madhab: IslamicMadhab, sources: &Vec<IslamicSource>) -> (r: String)
    ensures
        r@ == reasoning_spec(madhab, sources@),
{
    let kinds = evidence_kinds_of(sources);
    let mut v: Vec<char> = Vec::new();
    push_str(&mut v, "يستند المذهب ");
    push_str(&mut v, madhab.to_arabic());
    push_str(&mut v, " في هذه المسألة إلى ");
    let joined = join_with_and(&kinds);
    push_chars(&mut v, &joined);
    push_str(&mut v, ". وهذا الرأي مبني على فهم النصوص وتطبيق الأصول الفقهية المعتمدة في هذا المذهب.");
    assert(v@ =~= reasoning_spec(madhab, sources@));
    string_from_chars(&v)
}

/// `push_new` keeps a list free of repeats, and holds what the list held and
/// the item.
proof fn lemma_push_new(list: Seq<Seq<char>>, item: Seq<char>)
    requires
        list.no_duplicates(),
    ensures
        push_new(list, item).no_duplicates(),
        forall|x: Seq<char>| push_new(list, item).contains(x) <==> (list.contains(x) || x == item),
{
    if !list.contains(item) {
        let p = list.push(item);
        assert forall|x: Seq<char>| p.contains(x) <==> (list.contains(x) || x == item) by {
            if p.contains(x) {
                let k = choose|k: int| 0 <= k < p.len() && p[k] == x;
                if k < list.len() {
                    assert(list[k] == x);
                }
            }
            if x == item {
                assert(p[list.len() as int] == item);
            }
            if list.contains(x) {
                let k = choose|k: int| 0 <= k < list.len() && list[k] == x;
                assert(p[k] == x);
            }
        }
    }
}

/// Law: the reasoning names each kind of evidence of the sources once, and no
/// other: the names have no repeats, and a name is among them exactly when
/// some source gives that kind of evidence.
pub proof fn law_evidence_names_are_the_kinds_once(sources: Seq<IslamicSource>)
    ensures
        evidence_names(sources).no_duplicates(),
        forall|x: Seq<char>| evidence_names(sources).contains(x)
            <==> exists|k: int| 0 <= k < sources.len() && evidence_name(#[trigger] sources[k].content_type) == x,
    decreases sources.len(),
{
    if sources.len() > 0 {
        let init = sources.drop_last();
        law_evidence_names_are_the_kinds_once(init);
        lemma_push_new(evidence_names(init), evidence_name(sources.last().content_type));
        assert forall|x: Seq<char>| evidence_names(sources).contains(x)
            <==> exists|k: int| 0 <= k < sources.len() && evidence_name(#[trigger] sources[k].content_type) == x by {
            if evidence_names(sources).contains(x) {
                if evidence_names(init).contains(x) {
                    let k = choose|k: int| 0 <= k < init.len() && evidence_name(#[trigger] init[k].content_type) == x;
                    assert(sources[k] == init[k]);
                } else {
                    assert(evidence_name(sources[sources.len() - 1].content_type) == x);
                }
            }
            if exists|k: int| 0 <= k < sources.len() && evidence_name(#[trigger] sources[k].content_type) == x {
                let k = choose|k: int| 0 <= k < sources.len() && evidence_name(#[trigger] sources[k].content_type) == x;
                if k < init.len() {
                    assert(init[k] == sources[k]);
                }
            }
        }
    }
}

/// Whether `x` is the author of `s`.
pub open spec fn authored_by(s: IslamicSource, x: Seq<char>) -> bool {
    s.author matches Some(a) && a@ == x
}

/// Law: the scholars of a viewpoint are the authors of its sources, each
/// once: no repeats, and a name is among them exactly when some source has
/// that author.
pub proof fn law_scholars_are_the_authors_once(sources: Seq<IslamicSource>)
    ensures
        scholar_names(sources).no_duplicates(),
        forall|x: Seq<char>| scholar_names(sources).contains(x)
            <==> exists|k: int| 0 <= k < sources.len() && #[trigger] authored_by(sources[k], x),
    decreases sources.len(),
{
    if sources.len() > 0 {
        let init = sources.drop_last();
        law_scholars_are_the_authors_once(init);
        let last = sources.last();
        let prev = scholar_names(init);
        assert(sources[sources.len() - 1] == last);
        if last.author is Some {
            lemma_push_new(prev, last.author.unwrap()@);
            assert(scholar_names(sources) == push_new(prev, last.author.unwrap()@));
        } else {
            assert(scholar_names(sources) == prev);
        }
        assert forall|x: Seq<char>| scholar_names(sources).contains(x)
            <==> exists|k: int| 0 <= k < sources.len() && #[trigger] authored_by(sources[k], x) by {
            if scholar_names(sources).contains(x) {
                if prev.contains(x) {
                    let k = choose|k: int| 0 <= k < init.len() && #[trigger] authored_by(init[k], x);
                    assert(sources[k] == init[k]);
                    assert(authored_by(sources[k], x));
                } else {
                    assert(last.author is Some);
                    assert(push_new(prev, last.author.unwrap()@).contains(x));
                    assert(x == last.author.unwrap()@);
                    assert(authored_by(sources[sources.len() - 1], x));
                }
            }
            if exists|k: int| 0 <= k < sources.len() && #[trigger] authored_by(sources[k], x) {
                let k = choose|k: int| 0 <= k < sources.len() && #[trigger] authored_by(sources[k], x);
                if k < init.len() {
                    assert(init[k] == sources[k]);
                    assert(authored_by(init[k], x));
                    assert(prev.contains(x));
                    if last.author is Some {
                        assert(push_new(prev, last.author.unwrap()@).contains(x));
                    }
                } else {
                    assert(sources[k] == last);
                    assert(last.author is Some && last.author.unwrap()@ == x);
                    assert(push_new(prev, last.author.unwrap()@).contains(x));
                }
            }
        }
    }
}

} // verus!
