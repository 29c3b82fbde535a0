//! Synthetic document generation: prompts are classified by ordered keyword
//! rules, rendered through per-category templates, and memoised in a store
//! keyed by prompt, data kind and length budget.
use vstd::prelude::*;

pub mod classify;
pub mod engine;
pub mod laws;
pub mod templates;
pub mod text;

pub use classify::{analyze_user_prompt, classify, ContentCategory, PromptAnalysis};
pub use engine::{
    generate_code, generate_synthetic_data, generate_tabular, generate_text, status,
    GenerationConfig, GenerationResult, GenerationStore,
};

verus! {

/// Readiness message reported by the engine.
pub fn health() -> (r: String)
    ensures
        r@ == "🎭 Hyv AI Engine v2.0 - Mock Generation Ready! Fast & Reliable"@,
{
    String::from_str("🎭 Hyv AI Engine v2.0 - Mock Generation Ready! Fast & Reliable")
}

/// Labels of the generators the engine offers.
pub fn get_loaded_models() -> (r: Vec<String>)
    ensures
        r@.len() == 3,
        r@[0]@ == "Mock DistilGPT-2 (Text Generation)"@,
        r@[1]@ == "Mock CodeT5 (Code Generation)"@,
        r@[2]@ == "Mock Tabular Generator"@,
{
    let mut r: Vec<String> = Vec::new();
    r.push(String::from_str("Mock DistilGPT-2 (Text Generation)"));
    r.push(String::from_str("Mock CodeT5 (Code Generation)"));
    r.push(String::from_str("Mock Tabular Generator"));
    r
}

/// Prepares the generators; there is nothing to load, so it always succeeds.
pub fn setup_models() -> (r: Result<String, String>)
    ensures
        r matches Ok(m) && m@
            == "🎭 Mock AI generation system initialized! Ready for high-quality synthetic data generation."@,
{
    Ok(
        String::from_str(
            "🎭 Mock AI generation system initialized! Ready for high-quality synthetic data generation.",
        ),
    )
}

} // verus!
