//! The text exchanged with the language model: the prompt built from a
//! generation context, the headers of its sources, the list of references
//! appended to an answer, the estimate of its tokens, and the answer that the
//! simulated model gives.
use vstd::prelude::*;
use crate::rag::GenerationContext;
use crate::religious_query::author_view;
use crate::text::{
    chars_of, decimal, push_chars, push_decimal, push_str, seq_contains, str_contains, string_from_chars,
    string_views, to_string, utf8_len, utf8_length,
};
use crate::types::{IslamicSource, SourceType};

verus! {

/// The header of a source in the prompt: its kind, and for a tafsir or a
/// scholar's opinion its author where known.
pub open spec fn source_header_spec(t: SourceType, author: Option<Seq<char>>) -> Seq<char> {
    match t {
        SourceType::Quran => "القرآن الكريم"@,
        SourceType::SahihHadith => "حديث صحيح"@,
        SourceType::HasanHadith => "حديث حسن"@,
        SourceType::DaifHadith => "حديث ضعيف"@,
        SourceType::Tafsir => match author {
            Some(a) => "تفسير "@ + a,
            None => "تفسير"@,
        },
        SourceType::FiqhRuling => "حكم فقهي"@,
        SourceType::ScholarOpinion => match author {
            Some(a) => "رأي "@ + a,
            None => "رأي علمي"@,
        },
        _ => "مصدر إسلامي"@,
    }
}

/// Appends the header of a source (see `source_header_spec`).
fn push_source_header(v: &mut Vec<char>, source: &IslamicSource)
    ensures
        final(v)@ == old(v)@ + source_header_spec(source.content_type, author_view(source.author)),
{
    match source.content_type {
        SourceType::Quran => push_str(v, "القرآن الكريم"),
        SourceType::SahihHadith => push_str(v, "حديث صحيح"),
        SourceType::HasanHadith => push_str(v, "حديث حسن"),
        SourceType::DaifHadith => push_str(v, "حديث ضعيف"),
        SourceType::Tafsir => match &source.author {
            Some(a) => {
                push_str(v, "تفسير ");
                push_str(v, a.as_str());
            },
            None => push_str(v, "تفسير"),
        },
        SourceType::FiqhRuling => push_str(v, "حكم فقهي"),
        SourceType::ScholarOpinion => match &source.author {
            Some(a) => {
                push_str(v, "رأي ");
                push_str(v, a.as_str());
            },
            None => push_str(v, "رأي علمي"),
        },
        _ => push_str(v, "مصدر إسلامي"),
    }
}

/// The header of a source in the prompt (see `source_header_spec`).
pub fn format_source_header(source: &IslamicSource) -> (r: String)
    ensures
        r@ == source_header_spec(source.content_type, author_view(source.author)),
{
    let mut v: Vec<char> = Vec::new();
    push_source_header(&mut v, source);
    string_from_chars(&v)
}

/// At most the first `n` characters of `t`.
pub open spec fn char_prefix(t: Seq<char>, n: nat) -> Seq<char> {
    if t.len() <= n { t } else { t.take(n as int) }
}

/// The characters of a source's text shown in the prompt.
pub const EXCERPT_CHARS: usize = 200;

/// The lines of the constraints, each as a list item.
pub open spec fn constraint_lines(cs: Seq<Seq<char>>) -> Seq<char>
    decreases cs.len(),
{
    if cs.len() == 0 {
        Seq::empty()
    } else {
        constraint_lines(cs.drop_last()) + "- "@ + cs.last() + "\n"@
    }
}

/// The entry of the source at position `k` (counted from zero) in the prompt:
/// its number, header, reference and the first characters of its text.
pub open spec fn source_entry(k: nat, s: IslamicSource) -> Seq<char> {
    decimal(k + 1) + ". "@ + source_header_spec(s.content_type, author_view(s.author)) + " ("@ + s.reference@
        + ")\n   النص: "@ + char_prefix(s.text@, EXCERPT_CHARS as nat) + "\n\n"@
}

/// The entries of the sources, in order.
pub open spec fn source_entries(ss: Seq<IslamicSource>) -> Seq<char>
    decreases ss.len(),
{
    if ss.len() == 0 {
        Seq::empty()
    } else {
        source_entries(ss.drop_last()) + source_entry((ss.len() - 1) as nat, ss.last())
    }
}

/// The prompt: the instructions, the constraints (where there are any), the
/// sources (where there are any), and the question.
pub open spec fn prompt_spec(
    question: Seq<char>,
    instructions: Seq<char>,
    constraints: Seq<Seq<char>>,
    sources: Seq<IslamicSource>,
) -> Seq<char> {
    instructions + "\n\n"@
        + (if constraints.len() > 0 { "القيود والضوابط:\n"@ + constraint_lines(constraints) + "\n"@ } else { Seq::empty() })
        + (if sources.len() > 0 { "المصادر المتاحة:\n"@ + source_entries(sources) } else { Seq::empty() })
        + "السؤال: "@ + question + "\n\n"@ + "الإجابة:"@
}

/// Appends the first `n` characters of `s` (all of them where it is shorter).
fn push_char_prefix(v: &mut Vec<char>, s: &str, n: usize)
    ensures
        final(v)@ == old(v)@ + char_prefix(s@, n as nat),
{
    let cs = chars_of(s);
    let mut j: usize = 0;
    while j < cs.len() && j < n
        invariant
            j <= cs.len(),
            j <= n,
            cs@ == s@,
            v@ == old(v)@ + cs@.take(j as int),
        decreases cs.len() - j,
    {
        v.push(cs[j]);
        assert(cs@.take(j + 1) =~= cs@.take(j as int).push(cs@[j as int]));
        j = j + 1;
    }
    assert(cs@.take(cs.len() as int) =~= cs@);
}

/// The prompt given to the model (see `prompt_spec`).
pub fn build_prompt(context: &GenerationContext) -> (r: String)
    ensures
        r@ == prompt_spec(
            context.question@,
            context.instructions@,
            string_views(context.constraints@),
            context.sources@,
        ),
{
    let mut v: Vec<char> = Vec::new();
    push_str(&mut v, context.instructions.as_str());
    push_str(&mut v, "\n\n");
    let ghost a = v@;
    let ghost cs = string_views(context.constraints@);
    if context.constraints.len() > 0 {
        push_str(&mut v, "القيود والضوابط:\n");
        let ghost start = v@;
        let mut i: usize = 0;
        while i < context.constraints.len()
            invariant
                i <= context.constraints.len(),
                cs == string_views(context.constraints@),
                v@ == start + constraint_lines(cs.take(i as int)),
            decreases context.constraints.len() - i,
        {
            proof {
                assert(cs.take(i + 1).drop_last() =~= cs.take(i as int));
            }
            push_str(&mut v, "- ");
            push_str(&mut v, context.constraints[i].as_str());
            push_str(&mut v, "\n");
            proof {
                assert(cs.take(i + 1).last() == context.constraints@[i as int]@);
                assert(v@ =~= start + constraint_lines(cs.take(i + 1)));
            }
            i = i + 1;
        }
        assert(cs.take(context.constraints.len() as int) =~= cs);
        push_str(&mut v, "\n");
    }
    let ghost b = v@;
    assert(b =~= a + (if cs.len() > 0 { "القيود والضوابط:\n"@ + constraint_lines(cs) + "\n"@ } else { Seq::empty() }));
    let ghost ss = context.sources@;
    if context.sources.len() > 0 {
        push_str(&mut v, "المصادر المتاحة:\n");
        let ghost start = v@;
        let mut i: usize = 0;
        while i < context.sources.len()
            invariant
                i <= context.sources.len(),
                ss == context.sources@,
                v@ == start + source_entries(ss.take(i as int)),
            decreases context.sources.len() - i,
        {
            proof {
                assert(ss.take(i + 1).drop_last() =~= ss.take(i as int));
                assert(ss.take(i + 1).last() == ss[i as int]);
            }
            let ghost before = v@;
            let s = &context.sources[i];
            push_decimal(&mut v, i + 1);
            push_str(&mut v, ". ");
            push_source_header(&mut v, s);
            push_str(&mut v, " (");
            push_str(&mut v, s.reference.as_str());
            push_str(&mut v, ")\n   النص: ");
            push_char_prefix(&mut v, s.text.as_str(), EXCERPT_CHARS);
            push_str(&mut v, "\n\n");
            proof {
                assert(v@ =~= before + source_entry(i as nat, ss[i as int]));
                assert(v@ =~= start + source_entries(ss.take(i + 1)));
            }
            i = i + 1;
        }
        assert(ss.take(context.sources.len() as int) =~= ss);
    }
    let ghost c = v@;
    assert(c =~= b + (if ss.len() > 0 { "المصادر المتاحة:\n"@ + source_entries(ss) } else { Seq::empty() }));
    push_str(&mut v, "السؤال: ");
    push_str(&mut v, context.question.as_str());
    push_str(&mut v, "\n\n");
    push_str(&mut v, "الإجابة:");
    assert(v@ =~= prompt_spec(context.question@, context.instructions@, cs, ss));
    string_from_chars(&v)
}

// ---------------------------------------------------------------------------
// References appended to an answer
// ---------------------------------------------------------------------------

/// The body of a reference: the Quran by "the Noble Quran, " and the
/// reference; a tafsir by "tafsir", its author where known, and the reference;
/// any other source by its author where known and the reference.
pub open spec fn reference_body(t: SourceType, author: Option<Seq<char>>, reference: Seq<char>) -> Seq<char> {
    match t {
        SourceType::Quran => "القرآن الكريم، "@ + reference,
        SourceType::Tafsir => match author {
            Some(a) => "تفسير "@ + a + ": "@ + reference,
            None => "تفسير: "@ + reference,
        },
        _ => match author {
            Some(a) => a + ": "@ + reference,
            None => reference,
        },
    }
}

/// The line of the reference at position `k` (counted from zero).
pub open spec fn reference_line(k: nat, s: IslamicSource) -> Seq<char> {
    decimal(k + 1) + ". "@ + reference_body(s.content_type, author_view(s.author), s.reference@) + "\n"@
}

/// The lines of the references, in order.
pub open spec fn reference_lines(ss: Seq<IslamicSource>) -> Seq<char>
    decreases ss.len(),
{
    if ss.len() == 0 {
        Seq::empty()
    } else {
        reference_lines(ss.drop_last()) + reference_line((ss.len() - 1) as nat, ss.last())
    }
}

/// The answer with its references: a heading and one numbered line per source,
/// where there are sources.
pub open spec fn with_references_spec(response: Seq<char>, sources: Seq<IslamicSource>) -> Seq<char> {
    if sources.len() > 0 {
        response + "\n\n**المراجع:**\n"@ + reference_lines(sources)
    } else {
        response
    }
}

/// Appends the body of a reference (see `reference_body`).
fn push_reference_body(v: &mut Vec<char>, s: &IslamicSource)
    ensures
        final(v)@ == old(v)@ + reference_body(s.content_type, author_view(s.author), s.reference@),
{
    match s.content_type {
        SourceType::Quran => push_str(v, "القرآن الكريم، "),
        SourceType::Tafsir => match &s.author {
            Some(a) => {
                push_str(v, "تفسير ");
                push_str(v, a.as_str());
                push_str(v, ": ");
            },
            None => push_str(v, "تفسير: "),
        },
        _ => match &s.author {
            Some(a) => {
                push_str(v, a.as_str());
                push_str(v, ": ");
            },
            None => {},
        },
    }
    push_str(v, s.reference.as_str());
}

/// Appends the references of the sources to an answer (see
/// `with_references_spec`).
pub fn add_citations_to_response(response: &str, sources: &Vec<IslamicSource>) -> (r: String)
    ensures
        r@ == with_references_spec(response@, sources@),
{
    let mut v = chars_of(response);
    if sources.len() > 0 {
        push_str(&mut v, "\n\n**المراجع:**\n");
        let ghost start = v@;
        let ghost ss = sources@;
        let mut i: usize = 0;
        while i < sources.len()
            invariant
                i <= sources.len(),
                ss == sources@,
                v@ == start + reference_lines(ss.take(i as int)),
            decreases sources.len() - i,
        {
            proof {
                assert(ss.take(i + 1).drop_last() =~= ss.take(i as int));
                assert(ss.take(i + 1).last() == ss[i as int]);
            }
            let ghost before = v@;
            push_decimal(&mut v, i + 1);
            push_str(&mut v, ". ");
            push_reference_body(&mut v, &sources[i]);
            push_str(&mut v, "\n");
            proof {
                assert(v@ =~= before + reference_line(i as nat, ss[i as int]));
                assert(v@ =~= start + reference_lines(ss.take(i + 1)));
            }
            i = i + 1;
        }
        assert(ss.take(sources.len() as int) =~= ss);
    }
    string_from_chars(&v)
}

// ---------------------------------------------------------------------------
// Tokens, and the simulated model
// ---------------------------------------------------------------------------

/// The estimated tokens of a text of `bytes` bytes: one per four bytes, at
/// least one.
pub open spec fn token_estimate(bytes: nat) -> nat {
    if bytes / 4 >= 1 { bytes / 4 } else { 1 }
}

/// The estimated tokens of a text (see `token_estimate`).
pub fn estimate_token_count(text: &str) -> (r: usize)
    requires
        utf8_len(text@) <= isize::MAX,
    ensures
        r == token_estimate(utf8_len(text@)),
{
    let cs = chars_of(text);
    let n = utf8_length(&cs);
    if n / 4 >= 1 { n / 4 } else { 1 }
}

/// The answer on the pillars of Islam.
pub open spec fn pillars_answer() -> Seq<char> {
    "أركان الإسلام خمسة: شهادة أن لا إله إلا الله وأن محمداً رسول الله، وإقام الصلاة، وإيتاء الزكاة، وصوم رمضان، وحج البيت من استطاع إليه سبيلاً. هذا ما ثبت في الحديث الصحيح عن ابن عمر رضي الله عنهما."@
}

/// The answer on ablution.
pub open spec fn ablution_answer() -> Seq<char> {
    "الوضوء هو الطهارة الصغرى التي تتطلب غسل الوجه واليدين إلى المرفقين ومسح الرأس وغسل الرجلين إلى الكعبين، كما جاء في قوله تعالى في سورة المائدة. وهو شرط من شروط صحة الصلاة."@
}

/// The answer on prayer.
pub open spec fn prayer_answer() -> Seq<char> {
    "الصلاة هي الركن الثاني من أركان الإسلام وهي عماد الدين. فرضت خمس صلوات في اليوم والليلة: الفجر والظهر والعصر والمغرب والعشاء. وهي أول ما يحاسب عليه العبد يوم القيامة."@
}

/// The answer to any other prompt.
pub open spec fn general_answer() -> Seq<char> {
    "بناءً على المصادر المتاحة، يمكن القول أن هذا الموضوع يحتاج إلى دراسة أعمق. يُنصح بالرجوع إلى العلماء المختصين للحصول على إجابة شاملة ودقيقة. والله أعلم."@
}

/// The answer of the simulated model: on the pillars of Islam, on ablution or
/// on prayer when the prompt names them (in that order), else a general one.
pub open spec fn simulated_answer_spec(prompt: Seq<char>) -> Seq<char> {
    if seq_contains(prompt, "أركان الإسلام"@) {
        pillars_answer()
    } else if seq_contains(prompt, "الوضوء"@) {
        ablution_answer()
    } else if seq_contains(prompt, "الصلاة"@) {
        prayer_answer()
    } else {
        general_answer()
    }
}

/// The answer that the simulated model gives to a prompt (see
/// `simulated_answer_spec`).
pub fn simulated_answer(prompt: &str) -> (r: String)
    ensures
        r@ == simulated_answer_spec(prompt@),
{
    if str_contains(prompt, "أركان الإسلام") {
        to_string("أركان الإسلام خمسة: شهادة أن لا إله إلا الله وأن محمداً رسول الله، وإقام الصلاة، وإيتاء الزكاة، وصوم رمضان، وحج البيت من استطاع إليه سبيلاً. هذا ما ثبت في الحديث الصحيح عن ابن عمر رضي الله عنهما.")
    } else if str_contains(prompt, "الوضوء") {
        to_string("الوضوء هو الطهارة الصغرى التي تتطلب غسل الوجه واليدين إلى المرفقين ومسح الرأس وغسل الرجلين إلى الكعبين، كما جاء في قوله تعالى في سورة المائدة. وهو شرط من شروط صحة الصلاة.")
    } else if str_contains(prompt, "الصلاة") {
        to_string("الصلاة هي الركن الثاني من أركان الإسلام وهي عماد الدين. فرضت خمس صلوات في اليوم والليلة: الفجر والظهر والعصر والمغرب والعشاء. وهي أول ما يحاسب عليه العبد يوم القيامة.")
    } else {
        to_string("بناءً على المصادر المتاحة، يمكن القول أن هذا الموضوع يحتاج إلى دراسة أعمق. يُنصح بالرجوع إلى العلماء المختصين للحصول على إجابة شاملة ودقيقة. والله أعلم.")
    }
}

} // verus!
