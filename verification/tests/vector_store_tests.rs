use sanad_ai::vector_store::{
    batch_bounds, build_filter_conditions, BatchOperationResult, DateRange, DistanceMetric, FilterCondition,
    VectorDatabaseConfig, VectorFilter,
};

#[test]
fn default_database_settings() {
    let c = VectorDatabaseConfig::default();
    assert_eq!(c.host, "localhost");
    assert_eq!(c.port, 6333);
    assert_eq!(c.collection_name, "islamic_sources");
    assert_eq!(c.vector_size, 384);
    assert_eq!(c.distance_metric, DistanceMetric::Cosine);
    assert_eq!(c.batch_size, 100);
}

#[test]
fn filter_conditions_in_order() {
    let filter = VectorFilter {
        content_types: Some(vec!["quran".to_string()]),
        sources: None,
        authors: Some(vec!["الطبري".to_string()]),
        languages: None,
        authenticity_levels: None,
        date_range: Some(DateRange { from: Some(10), to: Some(20) }),
        metadata_filters: Some(vec![("surah".to_string(), "2".to_string())]),
    };
    let conditions = build_filter_conditions(&filter);
    assert_eq!(conditions.len(), 5);
    match &conditions[0] {
        FilterCondition::Keywords { field, values } => {
            assert_eq!(field, "content_type");
            assert_eq!(values, &vec!["quran".to_string()]);
        }
        _ => panic!("expected keywords"),
    }
    match &conditions[1] {
        FilterCondition::Keywords { field, .. } => assert_eq!(field, "author"),
        _ => panic!("expected keywords"),
    }
    match &conditions[2] {
        FilterCondition::AtLeast { field, value } => {
            assert_eq!(field, "created_at");
            assert_eq!(*value, 10);
        }
        _ => panic!("expected a lower bound"),
    }
    match &conditions[3] {
        FilterCondition::AtMost { value, .. } => assert_eq!(*value, 20),
        _ => panic!("expected an upper bound"),
    }
    match &conditions[4] {
        FilterCondition::Keywords { field, values } => {
            assert_eq!(field, "metadata_surah");
            assert_eq!(values, &vec!["2".to_string()]);
        }
        _ => panic!("expected keywords"),
    }
}

#[test]
fn batches_cover_every_document_once() {
    assert_eq!(batch_bounds(250, 100), vec![(0, 100), (100, 200), (200, 250)]);
    assert_eq!(batch_bounds(200, 100), vec![(0, 100), (100, 200)]);
    assert!(batch_bounds(0, 100).is_empty());
}

#[test]
fn batch_tally_counts_and_keeps_errors() {
    let mut tally = BatchOperationResult::new();
    tally.record_batch_stored(99);
    tally.record_conversion_failure("doc-7", "bad payload");
    tally.record_batch_refused(10, "timeout");
    assert_eq!(tally.successful_count, 99);
    assert_eq!(tally.failed_count, 11);
    assert_eq!(
        tally.errors,
        vec![
            "Failed to create point for document doc-7: bad payload".to_string(),
            "Batch upsert failed: timeout".to_string()
        ]
    );
}
