//! Core types shared by the analysers.
use vstd::prelude::*;
use std::collections::HashMap;

verus! {

/// A source of Islamic content.
#[derive(Debug, Clone)]
pub struct IslamicSource {
    pub id: String,
    pub content_type: SourceType,
    pub text: String,
    pub reference: String,
    pub author: Option<String>,
    pub authenticity: AuthenticityLevel,
    pub language: Language,
    pub metadata: HashMap<String, String>,
    /// Creation time, in seconds since the Unix epoch.
    pub created_at: i64,
}

#[derive(Debug, Clone, Copy, PartialEq, Eq, Hash, Structural)]
pub enum SourceType {
    Quran,
    SahihHadith,
    HasanHadith,
    DaifHadith,
    MawduHadith,
    Tafsir,
    FiqhRuling,
    ScholarOpinion,
    IslamicStory,
}

#[derive(Debug, Clone, Copy, PartialEq, Eq, Hash, Structural)]
pub enum AuthenticityLevel {
    Verified,
    Reliable,
    Questionable,
    Unreliable,
    Unknown,
}

#[derive(Debug, Clone, Copy, PartialEq, Eq, Structural)]
pub enum Language {
    Arabic,
    English,
    French,
    Urdu,
    Turkish,
    Indonesian,
}

#[derive(Debug, Clone, Copy, PartialEq, Eq, Hash, Structural)]
pub enum QuestionType {
    Aqeedah,
    Fiqh,
    Tafsir,
    Hadith,
    Sirah,
    Akhlaq,
    Dua,
    General,
    OutOfScope,
}

#[derive(Debug, Clone, Copy, PartialEq, Eq, Structural)]
pub enum ComplexityLevel {
    Simple,
    Intermediate,
    Advanced,
    Scholarly,
}

/// Confidence bands: very high (above 0.9), high (0.7 to 0.9), medium (0.5 to
/// 0.7), low (0.3 to 0.5), very low (below 0.3).
#[derive(Debug, Clone, Copy, PartialEq, Eq, Structural)]
pub enum ConfidenceLevel {
    VeryHigh,
    High,
    Medium,
    Low,
    VeryLow,
}

/// The representative score of each band, in hundredths.
pub open spec fn confidence_level_hundredths(level: ConfidenceLevel) -> u32 {
    match level {
        ConfidenceLevel::VeryHigh => 95,
        ConfidenceLevel::High => 80,
        ConfidenceLevel::Medium => 60,
        ConfidenceLevel::Low => 40,
        ConfidenceLevel::VeryLow => 20,
    }
}

impl ConfidenceLevel {
    /// The representative score of the band, in hundredths (0.95 is 95).
    pub fn to_score_hundredths(&self) -> (h: u32)
        ensures
            h == confidence_level_hundredths(*self),
    {
        match self {
            ConfidenceLevel::VeryHigh => 95,
            ConfidenceLevel::High => 80,
            ConfidenceLevel::Medium => 60,
            ConfidenceLevel::Low => 40,
            ConfidenceLevel::VeryLow => 20,
        }
    }
}

#[derive(Debug, Clone, Copy, PartialEq, Eq, Structural)]
pub enum CitationType {
    Primary,
    Supporting,
    Reference,
}

/// Errors of the AI service; each carries a message.
#[derive(Debug, Clone, PartialEq, Eq)]
pub enum AIServiceError {
    QuestionProcessingError(String),
    SemanticSearchError(String),
    SourceVerificationError(String),
    ResponseGenerationError(String),
    HallucinationDetected(String),
    OutOfScopeQuestion(String),
    DatabaseError(String),
    ExternalAPIError(String),
    ConfigurationError(String),
    CacheError(String),
    RateLimitExceeded(String),
    ServiceUnavailable(String),
}

/// The `Debug` name of a source type.
pub open spec fn source_type_name(t: SourceType) -> Seq<char> {
    match t {
        SourceType::Quran => "Quran"@,
        SourceType::SahihHadith => "SahihHadith"@,
        SourceType::HasanHadith => "HasanHadith"@,
        SourceType::DaifHadith => "DaifHadith"@,
        SourceType::MawduHadith => "MawduHadith"@,
        SourceType::Tafsir => "Tafsir"@,
        SourceType::FiqhRuling => "FiqhRuling"@,
        SourceType::ScholarOpinion => "ScholarOpinion"@,
        SourceType::IslamicStory => "IslamicStory"@,
    }
}

impl SourceType {
    /// The variant's name, as `{:?}` prints it.
    pub fn debug_name(&self) -> (s: &'static str)
        ensures
            s@ == source_type_name(*self),
    {
        match self {
            SourceType::Quran => "Quran",
            SourceType::SahihHadith => "SahihHadith",
            SourceType::HasanHadith => "HasanHadith",
            SourceType::DaifHadith => "DaifHadith",
            SourceType::MawduHadith => "MawduHadith",
            SourceType::Tafsir => "Tafsir",
            SourceType::FiqhRuling => "FiqhRuling",
            SourceType::ScholarOpinion => "ScholarOpinion",
            SourceType::IslamicStory => "IslamicStory",
        }
    }
}

/// The `Debug` name of an authenticity level.
pub open spec fn authenticity_name(a: AuthenticityLevel) -> Seq<char> {
    match a {
        AuthenticityLevel::Verified => "Verified"@,
        AuthenticityLevel::Reliable => "Reliable"@,
        AuthenticityLevel::Questionable => "Questionable"@,
        AuthenticityLevel::Unreliable => "Unreliable"@,
        AuthenticityLevel::Unknown => "Unknown"@,
    }
}

impl AuthenticityLevel {
    /// The variant's name, as `{:?}` prints it.
    pub fn debug_name(&self) -> (s: &'static str)
        ensures
            s@ == authenticity_name(*self),
    {
        match self {
            AuthenticityLevel::Verified => "Verified",
            AuthenticityLevel::Reliable => "Reliable",
            AuthenticityLevel::Questionable => "Questionable",
            AuthenticityLevel::Unreliable => "Unreliable",
            AuthenticityLevel::Unknown => "Unknown",
        }
    }
}

/// The `Debug` name of a language.
pub open spec fn language_name(l: Language) -> Seq<char> {
    match l {
        Language::Arabic => "Arabic"@,
        Language::English => "English"@,
        Language::French => "French"@,
        Language::Urdu => "Urdu"@,
        Language::Turkish => "Turkish"@,
        Language::Indonesian => "Indonesian"@,
    }
}

impl Language {
    /// The variant's name, as `{:?}` prints it.
    pub fn debug_name(&self) -> (s: &'static str)
        ensures
            s@ == language_name(*self),
    {
        match self {
            Language::Arabic => "Arabic",
            Language::English => "English",
            Language::French => "French",
            Language::Urdu => "Urdu",
            Language::Turkish => "Turkish",
            Language::Indonesian => "Indonesian",
        }
    }
}

/// The `Debug` name of a question type.
pub open spec fn question_type_name(q: QuestionType) -> Seq<char> {
    match q {
        QuestionType::Aqeedah => "Aqeedah"@,
        QuestionType::Fiqh => "Fiqh"@,
        QuestionType::Tafsir => "Tafsir"@,
        QuestionType::Hadith => "Hadith"@,
        QuestionType::Sirah => "Sirah"@,
        QuestionType::Akhlaq => "Akhlaq"@,
        QuestionType::Dua => "Dua"@,
        QuestionType::General => "General"@,
        QuestionType::OutOfScope => "OutOfScope"@,
    }
}

impl QuestionType {
    /// The variant's name, as `{:?}` prints it.
    pub fn debug_name(&self) -> (s: &'static str)
        ensures
            s@ == question_type_name(*self),
    {
        match self {
            QuestionType::Aqeedah => "Aqeedah",
            QuestionType::Fiqh => "Fiqh",
            QuestionType::Tafsir => "Tafsir",
            QuestionType::Hadith => "Hadith",
            QuestionType::Sirah => "Sirah",
            QuestionType::Akhlaq => "Akhlaq",
            QuestionType::Dua => "Dua",
            QuestionType::General => "General",
            QuestionType::OutOfScope => "OutOfScope",
        }
    }
}

/// A question after analysis.
#[derive(Debug, Clone)]
pub struct ProcessedQuestion {
    pub original_text: String,
    pub normalized_text: String,
    pub keywords: Vec<String>,
    pub concepts: Vec<String>,
    pub question_type: QuestionType,
    pub complexity_level: ComplexityLevel,
    pub language: Language,
    pub is_controversial: bool,
    pub requires_multiple_sources: bool,
}

/// Two sources hold the same values, field by field (the metadata by its
/// contents).
pub open spec fn same_source(a: IslamicSource, b: IslamicSource) -> bool {
    &&& a.id == b.id
    &&& a.content_type == b.content_type
    &&& a.text == b.text
    &&& a.reference == b.reference
    &&& a.author == b.author
    &&& a.authenticity == b.authenticity
    &&& a.language == b.language
    &&& a.metadata@ == b.metadata@
    &&& a.created_at == b.created_at
}

/// A copy of a source, field by field.
pub fn clone_source(s: &IslamicSource) -> (r: IslamicSource)
    ensures
        same_source(r, *s),
{
    IslamicSource {
        id: s.id.clone(),
        content_type: s.content_type,
        text: s.text.clone(),
        reference: s.reference.clone(),
        author: match &s.author {
            Some(a) => Some(a.clone()),
            None => None,
        },
        authenticity: s.authenticity,
        language: s.language,
        metadata: s.metadata.clone(),
        created_at: s.created_at,
    }
}

} // verus!
