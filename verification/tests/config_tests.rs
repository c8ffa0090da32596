use sanad_ai::config::{best_model_index, validate_settings, ModelSpecialization, RateLimitConfig, VectorDatabaseConfig};

// The key of the default configuration comes from the environment; here it is
// given as a test would set it.
#[test]
fn test_default_config() {
    let database = VectorDatabaseConfig::default();
    let rate = RateLimitConfig::default();
    assert!(validate_settings("test_key", &database.host, database.vector_size, rate.requests_per_minute).is_ok());
}

#[test]
fn test_config_validation() {
    let database = VectorDatabaseConfig::default();
    let rate = RateLimitConfig::default();
    assert!(validate_settings("", &database.host, database.vector_size, rate.requests_per_minute).is_err());
}

// The default models: a general one of priority one and an Arabic one of
// priority two.
#[test]
fn test_best_model_selection() {
    let models = vec![(ModelSpecialization::General, 1u8), (ModelSpecialization::Arabic, 2u8)];
    let model = best_model_index(&models, ModelSpecialization::General);
    assert!(model.is_some());
    assert_eq!(models[model.unwrap()].1, 1);
}

#[test]
fn a_model_of_another_specialisation_is_not_chosen() {
    let models = vec![(ModelSpecialization::General, 1u8), (ModelSpecialization::Arabic, 0u8)];
    assert_eq!(best_model_index(&models, ModelSpecialization::Quran), Some(0));
    assert_eq!(best_model_index(&models, ModelSpecialization::Arabic), Some(1));
    let only_arabic = vec![(ModelSpecialization::Arabic, 0u8)];
    assert_eq!(best_model_index(&only_arabic, ModelSpecialization::Fiqh), None);
}

#[test]
fn each_missing_setting_has_its_message() {
    assert_eq!(validate_settings("", "h", 1, 1), Err("Hugging Face API key is required".to_string()));
    assert_eq!(validate_settings("k", "", 1, 1), Err("Vector database host is required".to_string()));
    assert_eq!(validate_settings("k", "h", 0, 1), Err("Vector size must be greater than 0".to_string()));
    assert_eq!(validate_settings("k", "h", 1, 0), Err("Rate limit must be greater than 0".to_string()));
}

#[test]
fn first_of_least_priority_is_chosen() {
    let g = ModelSpecialization::General;
    assert_eq!(best_model_index(&vec![(g, 3), (g, 1), (g, 2), (g, 1)], g), Some(1));
    assert_eq!(best_model_index(&vec![], g), None);
}
