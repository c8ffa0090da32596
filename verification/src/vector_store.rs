//! The parts of the vector-database client that decide: its configuration,
//! the filters of a search, the batches of an indexing run and their tally.
use vstd::prelude::*;
use crate::text::{push_str, string_from_chars, string_views, to_string};

verus! {

/// How the database measures the distance between vectors.
#[derive(Debug, Clone, Copy, PartialEq, Eq, Structural)]
pub enum DistanceMetric {
    Cosine,
    Euclidean,
    Dot,
}

/// The configuration of the vector database.
#[derive(Debug, Clone)]
pub struct VectorDatabaseConfig {
    pub host: String,
    pub port: u16,
    pub collection_name: String,
    pub vector_size: usize,
    pub distance_metric: DistanceMetric,
    pub timeout_seconds: u64,
    pub max_retries: u32,
    pub batch_size: usize,
}

impl Default for VectorDatabaseConfig {
    /// A local database on the standard port, holding the Islamic sources as
    /// vectors of 384 numbers compared by cosine, in batches of a hundred.
    fn default() -> (r: Self)
        ensures
            r.host@ == "localhost"@,
            r.port == 6333,
            r.collection_name@ == "islamic_sources"@,
            r.vector_size == 384,
            r.distance_metric == DistanceMetric::Cosine,
            r.timeout_seconds == 30,
            r.max_retries == 3,
            r.batch_size == 100,
    {
        VectorDatabaseConfig {
            host: to_string("localhost"),
            port: 6333,
            collection_name: to_string("islamic_sources"),
            vector_size: 384,
            distance_metric: DistanceMetric::Cosine,
            timeout_seconds: 30,
            max_retries: 3,
            batch_size: 100,
        }
    }
}

// ---------------------------------------------------------------------------
// Filters of a search
// ---------------------------------------------------------------------------

/// A range of creation times, in seconds since the Unix epoch.
#[derive(Debug, Clone, Copy, PartialEq, Eq, Structural)]
pub struct DateRange {
    pub from: Option<i64>,
    pub to: Option<i64>,
}

/// The filter of a search; metadata filters are pairs of key and value.
#[derive(Debug, Clone)]
pub struct VectorFilter {
    pub content_types: Option<Vec<String>>,
    pub sources: Option<Vec<String>>,
    pub authors: Option<Vec<String>>,
    pub languages: Option<Vec<String>>,
    pub authenticity_levels: Option<Vec<String>>,
    pub date_range: Option<DateRange>,
    pub metadata_filters: Option<Vec<(String, String)>>,
}

/// A condition that a stored document must meet.
#[derive(Debug, Clone)]
pub enum FilterCondition {
    /// The field holds one of these keywords.
    Keywords { field: String, values: Vec<String> },
    /// The field is at least this number.
    AtLeast { field: String, value: i64 },
    /// The field is at most this number.
    AtMost { field: String, value: i64 },
}

/// The view of a condition: its kind (keywords, at least, at most), its field,
/// its keywords and its number.
pub open spec fn condition_view(c: FilterCondition) -> (nat, Seq<char>, Seq<Seq<char>>, int) {
    match c {
        FilterCondition::Keywords { field, values } => (0, field@, string_views(values@), 0),
        FilterCondition::AtLeast { field, value } => (1, field@, Seq::empty(), value as int),
        FilterCondition::AtMost { field, value } => (2, field@, Seq::empty(), value as int),
    }
}

/// A keywords condition on a field.
pub open spec fn keywords_view(field: Seq<char>, values: Seq<Seq<char>>) -> (nat, Seq<char>, Seq<Seq<char>>, int) {
    (0, field, values, 0)
}

/// The keywords condition for an optional list of values: none where the list
/// is absent.
pub open spec fn optional_keywords(field: Seq<char>, values: Option<Vec<String>>) -> Seq<(nat, Seq<char>, Seq<Seq<char>>, int)> {
    match values {
        Some(v) => seq![keywords_view(field, string_views(v@))],
        None => Seq::empty(),
    }
}

/// The conditions of the metadata filters: for each pair, its value as the one
/// keyword of the field named "metadata_" and the key.
pub open spec fn metadata_conditions(pairs: Seq<(String, String)>) -> Seq<(nat, Seq<char>, Seq<Seq<char>>, int)>
    decreases pairs.len(),
{
    if pairs.len() == 0 {
        Seq::empty()
    } else {
        metadata_conditions(pairs.drop_last()) + seq![
            keywords_view("metadata_"@ + pairs.last().0@, seq![pairs.last().1@]),
        ]
    }
}

/// The conditions of a filter, in order: content type, source, author,
/// language and authenticity where given; creation time from and to where
/// given; then the metadata filters.
pub open spec fn filter_conditions_spec(f: VectorFilter) -> Seq<(nat, Seq<char>, Seq<Seq<char>>, int)> {
    optional_keywords("content_type"@, f.content_types)
        + optional_keywords("source"@, f.sources)
        + optional_keywords("author"@, f.authors)
        + optional_keywords("language"@, f.languages)
        + optional_keywords("authenticity"@, f.authenticity_levels)
        + match f.date_range {
            Some(d) => (match d.from {
                Some(t) => seq![(1nat, "created_at"@, Seq::<Seq<char>>::empty(), t as int)],
                None => Seq::empty(),
            }) + (match d.to {
                Some(t) => seq![(2nat, "created_at"@, Seq::<Seq<char>>::empty(), t as int)],
                None => Seq::empty(),
            }),
            None => Seq::empty(),
        }
        + match f.metadata_filters {
            Some(m) => metadata_conditions(m@),
            None => Seq::empty(),
        }
}

/// The views of a list of conditions.
pub open spec fn conditions_view(cs: Seq<FilterCondition>) -> Seq<(nat, Seq<char>, Seq<Seq<char>>, int)> {
    cs.map_values(|c: FilterCondition| condition_view(c))
}

/// A copy of a list of strings.
fn copy_strings(v: &Vec<String>) -> (r: Vec<String>)
    ensures
        string_views(r@) == string_views(v@),
{
    let mut r: Vec<String> = Vec::new();
    let mut i: usize = 0;
    while i < v.len()
        invariant
            i <= v.len(),
            string_views(r@) == string_views(v@).take(i as int),
        decreases v.len() - i,
    {
        let ghost before = string_views(r@);
        let s = v[i].clone();
        r.push(s);
        assert(string_views(r@) =~= before.push(v@[i as int]@));
        assert(string_views(v@).take(i + 1) =~= string_views(v@).take(i as int).push(v@[i as int]@));
        i = i + 1;
    }
    assert(string_views(v@).take(v.len() as int) =~= string_views(v@));
    r
}

/// Appends the keywords condition for an optional list of values.
fn push_optional_keywords(out: &mut Vec<FilterCondition>, field: &str, values: &Option<Vec<String>>)
    ensures
        conditions_view(final(out)@) == conditions_view(old(out)@) + optional_keywords(field@, *values),
{
    match values {
        Some(v) => {
            let ghost before = conditions_view(out@);
            out.push(FilterCondition::Keywords { field: to_string(field), values: copy_strings(v) });
            assert(conditions_view(out@) =~= before + optional_keywords(field@, *values));
        },
        None => {
            assert(conditions_view(out@) =~= conditions_view(old(out)@) + optional_keywords(field@, *values));
        },
    }
}

/// The conditions of a search filter (see `filter_conditions_spec`).
pub fn build_filter_conditions(filter: &VectorFilter) -> (r: Vec<FilterCondition>)
    ensures
        conditions_view(r@) == filter_conditions_spec(*filter),
{
    let mut out: Vec<FilterCondition> = Vec::new();
    assert(conditions_view(out@) =~= Seq::empty());
    push_optional_keywords(&mut out, "content_type", &filter.content_types);
    push_optional_keywords(&mut out, "source", &filter.sources);
    push_optional_keywords(&mut out, "author", &filter.authors);
    push_optional_keywords(&mut out, "language", &filter.languages);
    push_optional_keywords(&mut out, "authenticity", &filter.authenticity_levels);
    let ghost a = conditions_view(out@);
    match filter.date_range {
        Some(d) => {
            match d.from {
                Some(t) => {
                    out.push(FilterCondition::AtLeast { field: to_string("created_at"), value: t });
                },
                None => {},
            }
            match d.to {
                Some(t) => {
                    out.push(FilterCondition::AtMost { field: to_string("created_at"), value: t });
                },
                None => {},
            }
        },
        None => {},
    }
    let ghost b = conditions_view(out@);
    assert(b =~= a + match filter.date_range {
        Some(d) => (match d.from {
            Some(t) => seq![(1nat, "created_at"@, Seq::<Seq<char>>::empty(), t as int)],
            None => Seq::empty(),
        }) + (match d.to {
            Some(t) => seq![(2nat, "created_at"@, Seq::<Seq<char>>::empty(), t as int)],
            None => Seq::empty(),
        }),
        None => Seq::empty(),
    });
    match &filter.metadata_filters {
        Some(m) => {
            let ghost pairs = m@;
            let mut i: usize = 0;
            while i < m.len()
                invariant
                    i <= m.len(),
                    pairs == m@,
                    conditions_view(out@) == b + metadata_conditions(pairs.take(i as int)),
                decreases m.len() - i,
            {
                proof {
                    assert(pairs.take(i + 1).drop_last() =~= pairs.take(i as int));
                    assert(pairs.take(i + 1).last() == pairs[i as int]);
                }
                let ghost before = conditions_view(out@);
                let mut field: Vec<char> = Vec::new();
                push_str(&mut field, "metadata_");
                push_str(&mut field, m[i].0.as_str());
                let mut values: Vec<String> = Vec::new();
                values.push(m[i].1.clone());
                assert(string_views(values@) =~= seq![m@[i as int].1@]);
                out.push(FilterCondition::Keywords { field: string_from_chars(&field), values });
                assert(conditions_view(out@) =~= before + seq![
                    keywords_view("metadata_"@ + pairs[i as int].0@, seq![pairs[i as int].1@]),
                ]);
                assert(conditions_view(out@) =~= b + metadata_conditions(pairs.take(i + 1)));
                i = i + 1;
            }
            assert(pairs.take(m.len() as int) =~= pairs);
        },
        None => {},
    }
    assert(conditions_view(out@) =~= filter_conditions_spec(*filter));
    out
}

// ---------------------------------------------------------------------------
// Batches of an indexing run
// ---------------------------------------------------------------------------

/// The `k`-th batch (counted from zero) of `n` documents taken `size` at a time.
pub open spec fn batch_at(n: nat, size: nat, k: int) -> (int, int) {
    (k * size, if (k + 1) * size <= n { (k + 1) * size } else { n as int })
}

/// The batches of `n` documents taken `size` at a time, as `slice::chunks`
/// cuts them: batch `k` holds the documents from `k * size` up to the smaller
/// of `(k + 1) * size` and `n`, and there are as many batches as needed to
/// hold them all.
pub fn batch_bounds(n: usize, size: usize) -> (r: Vec<(usize, usize)>)
    requires
        size > 0,
    ensures
        r@.len() * size >= n,
        r@.len() == 0 || (r@.len() - 1) * size < n,
        forall|k: int| 0 <= k < r@.len() ==> (#[trigger] r@[k]).0 == batch_at(n as nat, size as nat, k).0
            && r@[k].1 == batch_at(n as nat, size as nat, k).1,
{
    let mut r: Vec<(usize, usize)> = Vec::new();
    let mut start: usize = 0;
    assert(r@.len() * size == 0) by (nonlinear_arith)
        requires
            r@.len() == 0,
    ;
    while start < n
        invariant
            size > 0,
            start <= n,
            start == if r@.len() * size <= n { r@.len() * size } else { n as int },
            forall|k: int| 0 <= k < r@.len() ==> (#[trigger] r@[k]).0 == batch_at(n as nat, size as nat, k).0
                && r@[k].1 == batch_at(n as nat, size as nat, k).1 && r@[k].0 < n,
        decreases n - start,
    {
        let ghost k = r@.len() as int;
        assert(k * size == start);
        assert((k + 1) * size == start + size) by (nonlinear_arith)
            requires
                k * size == start,
        ;
        let end = if n - start <= size { n } else { start + size };
        r.push((start, end));
        start = end;
        assert(r@.len() == k + 1);
    }
    proof {
        if r@.len() > 0 {
            let k = (r@.len() - 1) as int;
            assert(r@[k].0 == k * size);
        }
    }
    r
}

// ---------------------------------------------------------------------------
// The tally of an indexing run
// ---------------------------------------------------------------------------

/// The outcome of indexing documents in batches.
#[derive(Debug, Clone)]
pub struct BatchOperationResult {
    pub successful_count: usize,
    pub failed_count: usize,
    pub errors: Vec<String>,
    pub processing_time_ms: u64,
}

impl BatchOperationResult {
    /// A tally with nothing counted yet.
    pub fn new() -> (r: Self)
        ensures
            r.successful_count == 0,
            r.failed_count == 0,
            r.errors@.len() == 0,
            r.processing_time_ms == 0,
    {
        BatchOperationResult { successful_count: 0, failed_count: 0, errors: Vec::new(), processing_time_ms: 0 }
    }

    /// A document that could not be made into a point: one more failure, and
    /// its error.
    pub fn record_conversion_failure(&mut self, document_id: &str, error: &str)
        requires
            old(self).failed_count < usize::MAX,
        ensures
            final(self).failed_count == old(self).failed_count + 1,
            final(self).successful_count == old(self).successful_count,
            final(self).processing_time_ms == old(self).processing_time_ms,
            string_views(final(self).errors@) == string_views(old(self).errors@).push(
                "Failed to create point for document "@ + document_id@ + ": "@ + error@,
            ),
    {
        let mut v: Vec<char> = Vec::new();
        push_str(&mut v, "Failed to create point for document ");
        push_str(&mut v, document_id);
        push_str(&mut v, ": ");
        push_str(&mut v, error);
        let ghost before = string_views(self.errors@);
        self.errors.push(string_from_chars(&v));
        assert(string_views(self.errors@) =~= before.push(v@));
        self.failed_count = self.failed_count + 1;
    }

    /// A batch of `points` points that was stored.
    pub fn record_batch_stored(&mut self, points: usize)
        requires
            old(self).successful_count + points <= usize::MAX,
        ensures
            final(self).successful_count == old(self).successful_count + points,
            final(self).failed_count == old(self).failed_count,
            final(self).errors@ == old(self).errors@,
            final(self).processing_time_ms == old(self).processing_time_ms,
    {
        self.successful_count = self.successful_count + points;
    }

    /// A batch of `points` points that the database refused: each is a
    /// failure, and the error is kept.
    pub fn record_batch_refused(&mut self, points: usize, error: &str)
        requires
            old(self).failed_count + points <= usize::MAX,
        ensures
            final(self).failed_count == old(self).failed_count + points,
            final(self).successful_count == old(self).successful_count,
            final(self).processing_time_ms == old(self).processing_time_ms,
            string_views(final(self).errors@) == string_views(old(self).errors@).push("Batch upsert failed: "@ + error@),
    {
        let mut v: Vec<char> = Vec::new();
        push_str(&mut v, "Batch upsert failed: ");
        push_str(&mut v, error);
        let ghost before = string_views(self.errors@);
        self.errors.push(string_from_chars(&v));
        assert(string_views(self.errors@) =~= before.push(v@));
        self.failed_count = self.failed_count + points;
    }
}

} // verus!
