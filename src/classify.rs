//! Ordered keyword classification of prompts.
use vstd::prelude::*;
use vstd::string::StringExecFns;
use crate::text::{contains_seq, contains_str, chars_of, lower_of, lowercase};

verus! {

/// Coarse subject of a prompt, which selects the document template.
#[derive(PartialEq, Eq, Structural, Clone, Copy, Debug)]
pub enum ContentCategory {
    Business,
    Technical,
    Creative,
    Analytical,
    General,
}

/// Category of an already lowercased prompt: the first rule whose keywords
/// occur wins, in the order business, technical, creative, analytical.
pub open spec fn category_of(lower: Seq<char>) -> ContentCategory {
    if contains_seq(lower, "business"@) || contains_seq(lower, "company"@) {
        ContentCategory::Business
    } else if contains_seq(lower, "technical"@) || contains_seq(lower, "engineering"@) {
        ContentCategory::Technical
    } else if contains_seq(lower, "creative"@) || contains_seq(lower, "design"@) {
        ContentCategory::Creative
    } else if contains_seq(lower, "analysis"@) || contains_seq(lower, "data"@) {
        ContentCategory::Analytical
    } else {
        ContentCategory::General
    }
}

/// Category of a prompt, compared without regard to case.
pub open spec fn prompt_category(prompt: Seq<char>) -> ContentCategory {
    category_of(lower_of(prompt))
}

/// Classifies text that is already in lowercase form.
pub fn classify_lowered(lower: &str) -> (r: ContentCategory)
    ensures
        r == category_of(lower@),
{
    let t = chars_of(lower);
    if contains_str(&t, "business") || contains_str(&t, "company") {
        ContentCategory::Business
    } else if contains_str(&t, "technical") || contains_str(&t, "engineering") {
        ContentCategory::Technical
    } else if contains_str(&t, "creative") || contains_str(&t, "design") {
        ContentCategory::Creative
    } else if contains_str(&t, "analysis") || contains_str(&t, "data") {
        ContentCategory::Analytical
    } else {
        ContentCategory::General
    }
}

/// Classifies a prompt into a content category, case-insensitively.
pub fn classify(prompt: &str) -> (r: ContentCategory)
    ensures
        r == prompt_category(prompt@),
{
    let lower = lowercase(prompt);
    classify_lowered(lower.as_str())
}

/// Read-only inspection of a prompt: subject domain and content type, with
/// fixed placeholder values for the remaining attributes.
pub struct PromptAnalysis {
    pub sentiment: String,
    pub domain: String,
    pub content_type: String,
    pub formality: String,
    pub length_requirement: String,
    /// Confidence of the analysis, in hundredths.
    pub confidence_percent: u32,
}

/// Domain tag of an already lowercased prompt, first match wins.
pub open spec fn domain_of(lower: Seq<char>) -> Seq<char> {
    if contains_seq(lower, "ai"@) || contains_seq(lower, "machine learning"@) {
        "ai"@
    } else if contains_seq(lower, "blockchain"@) || contains_seq(lower, "crypto"@) {
        "blockchain"@
    } else if contains_seq(lower, "web"@) || contains_seq(lower, "javascript"@) {
        "web_dev"@
    } else if contains_seq(lower, "health"@) || contains_seq(lower, "medical"@) {
        "healthcare"@
    } else if contains_seq(lower, "finance"@) || contains_seq(lower, "banking"@) {
        "finance"@
    } else {
        "general"@
    }
}

/// Content-type tag of an already lowercased prompt, first match wins.
pub open spec fn content_type_of(lower: Seq<char>) -> Seq<char> {
    if contains_seq(lower, "business"@) {
        "business"@
    } else if contains_seq(lower, "technical"@) {
        "technical"@
    } else if contains_seq(lower, "creative"@) {
        "creative"@
    } else if contains_seq(lower, "analysis"@) {
        "analytical"@
    } else {
        "general"@
    }
}

/// The analysis of an already lowercased prompt.
pub open spec fn analysis_of(a: PromptAnalysis, lower: Seq<char>) -> bool {
    &&& a.sentiment@ == "neutral"@
    &&& a.domain@ == domain_of(lower)
    &&& a.content_type@ == content_type_of(lower)
    &&& a.formality@ == "neutral"@
    &&& a.length_requirement@ == "medium"@
    &&& a.confidence_percent == 80
}

/// Analyses text that is already in lowercase form.
pub fn analyze_lowered(lower: &str) -> (r: PromptAnalysis)
    ensures
        analysis_of(r, lower@),
{
    let t = chars_of(lower);
    let domain = if contains_str(&t, "ai") || contains_str(&t, "machine learning") {
        String::from_str("ai")
    } else if contains_str(&t, "blockchain") || contains_str(&t, "crypto") {
        String::from_str("blockchain")
    } else if contains_str(&t, "web") || contains_str(&t, "javascript") {
        String::from_str("web_dev")
    } else if contains_str(&t, "health") || contains_str(&t, "medical") {
        String::from_str("healthcare")
    } else if contains_str(&t, "finance") || contains_str(&t, "banking") {
        String::from_str("finance")
    } else {
        String::from_str("general")
    };
    let content_type = if contains_str(&t, "business") {
        String::from_str("business")
    } else if contains_str(&t, "technical") {
        String::from_str("technical")
    } else if contains_str(&t, "creative") {
        String::from_str("creative")
    } else if contains_str(&t, "analysis") {
        String::from_str("analytical")
    } else {
        String::from_str("general")
    };
    PromptAnalysis {
        sentiment: String::from_str("neutral"),
        domain,
        content_type,
        formality: String::from_str("neutral"),
        length_requirement: String::from_str("medium"),
        confidence_percent: 80,
    }
}

/// Analyses a prompt, case-insensitively.
pub fn analyze_prompt(prompt: &str) -> (r: PromptAnalysis)
    ensures
        analysis_of(r, lower_of(prompt@)),
{
    let lower = lowercase(prompt);
    analyze_lowered(lower.as_str())
}

/// Inspection entry point: the analysis of `prompt`.
pub fn analyze_user_prompt(prompt: String) -> (r: PromptAnalysis)
    ensures
        analysis_of(r, lower_of(prompt@)),
{
    analyze_prompt(prompt.as_str())
}

} // verus!
