use vstd::prelude::*;

pub mod text;
pub mod types;
pub mod question_processor;
pub mod hadith_verifier;
pub mod clock;
pub mod string_map;
pub mod config;
pub mod service_manager;
pub mod error_handler;
pub mod multiple_viewpoints;
pub mod source_scorer;
pub mod anti_hallucination;
pub mod religious_query;
pub mod rag;
pub mod prompt;
pub mod hugging_face;
pub mod vector_store;
pub mod integration;
pub mod cache;
pub mod fabrication;
pub mod support;
pub mod review;
pub mod consistency;
pub mod laws;
pub mod decision_laws;

verus! {

} // verus!
