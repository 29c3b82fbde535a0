use hyv_ai_engine::classify::{analyze_lowered, classify_lowered};
use hyv_ai_engine::engine::{
    generate_for_kind, generate_intelligent_text, make_cache_key, DEFAULT_TEMPERATURE_BITS,
};
use hyv_ai_engine::templates::{generate_business_text, render_category};
use hyv_ai_engine::text::{chars_of, contains_chars, contains_str, lowercase, push_decimal};
use hyv_ai_engine::{
    analyze_user_prompt, classify, generate_code, generate_synthetic_data, generate_tabular,
    generate_text, get_loaded_models, health, setup_models, status, ContentCategory,
    GenerationConfig, GenerationStore,
};

fn config(data_type: &str, max_tokens: u32, temperature: f32) -> GenerationConfig {
    GenerationConfig {
        max_tokens,
        temperature_bits: temperature.to_bits(),
        data_type: data_type.to_string(),
    }
}

#[test]
fn repeated_request_is_cached_and_counted_once() {
    let mut store = GenerationStore::new();
    let a = generate_synthetic_data(&mut store, "quarterly report".to_string(), config("text", 200, 0.7));
    let b = generate_synthetic_data(&mut store, "quarterly report".to_string(), config("text", 200, 0.7));
    assert!(a.success && b.success);
    assert!(a.error.is_none() && b.error.is_none());
    assert_eq!(a.content, b.content);
    assert_eq!(store.generation_count(), 1);
    assert_eq!(store.cache_size(), 1);
}

#[test]
fn temperature_is_not_part_of_the_key() {
    let mut store = GenerationStore::new();
    let a = generate_synthetic_data(&mut store, "design a logo".to_string(), config("text", 100, 0.1));
    let b = generate_synthetic_data(&mut store, "design a logo".to_string(), config("text", 100, 0.9));
    assert_eq!(a.content, b.content);
    assert_eq!(store.generation_count(), 1);
    assert_eq!(status(&store), "Cache: 1 entries, Total generations: 1, Status: Ready");
}

#[test]
fn classification_order_and_fallback() {
    assert_eq!(classify("business technical stuff"), ContentCategory::Business);
    assert_eq!(classify("a quiet day"), ContentCategory::General);
    assert_eq!(classify("technical design review"), ContentCategory::Technical);
    assert_eq!(classify("creative data story"), ContentCategory::Creative);
    assert_eq!(classify("data pipeline"), ContentCategory::Analytical);
    assert_eq!(classify("our Company"), ContentCategory::Business);
    assert_eq!(classify(""), ContentCategory::General);
}

#[test]
fn classification_ignores_case() {
    assert_eq!(classify("BUSINESS TECHNICAL"), ContentCategory::Business);
    assert_eq!(classify("Engineering Handbook"), ContentCategory::Technical);
    assert_eq!(classify_lowered("ENGINEERING"), ContentCategory::General);
    assert_eq!(classify_lowered("engineering"), ContentCategory::Technical);
}

#[test]
fn unknown_kind_falls_back_to_text() {
    let mut s1 = GenerationStore::new();
    let mut s2 = GenerationStore::new();
    let p = "plan for a bakery company".to_string();
    let a = generate_synthetic_data(&mut s1, p.clone(), config("unknown_kind", 100, 0.5));
    let b = generate_synthetic_data(&mut s2, p.clone(), config("text", 100, 0.5));
    assert_eq!(a.content, b.content);
    assert_eq!(s1.generation_count(), s2.generation_count());
    for kind in ["code", "tabular", "json", "csv"] {
        assert_eq!(generate_for_kind(&p, &kind.to_string(), 100, 0), b.content);
    }
}

#[test]
fn legacy_entry_points_are_uncached() {
    let store = GenerationStore::new();
    let before = status(&store);
    let a = generate_text("hello".to_string());
    let b = generate_text("hello".to_string());
    assert_eq!(a, b);
    assert!(a.starts_with("## Comprehensive Overview: hello"));
    assert_eq!(generate_code("hello".to_string()), a);
    assert_eq!(generate_tabular("hello".to_string()), a);
    assert_eq!(status(&store), before);
    assert_eq!(before, "Cache: 0 entries, Total generations: 0, Status: Ready");
}

#[test]
fn counter_counts_cache_misses() {
    let mut store = GenerationStore::new();
    let requests = [("a", "text", 10u32), ("b", "text", 10), ("a", "text", 10), ("a", "csv", 10), ("a", "text", 11), ("b", "text", 10)];
    let expected = [1u64, 2, 2, 3, 4, 4];
    let mut last = 0u64;
    for (i, (p, k, m)) in requests.iter().enumerate() {
        generate_synthetic_data(&mut store, p.to_string(), config(k, *m, 0.7));
        let count = store.generation_count();
        assert!(count >= last);
        assert_eq!(count, expected[i]);
        last = count;
    }
    assert_eq!(status(&store), "Cache: 4 entries, Total generations: 4, Status: Ready");
}

#[test]
fn end_to_end_business_plan() {
    let prompt = "Create a business plan for a coffee shop";
    assert_eq!(classify(prompt), ContentCategory::Business);
    let mut store = GenerationStore::new();
    let r = generate_synthetic_data(&mut store, prompt.to_string(), config("text", 500, 0.7));
    assert!(r.success);
    let title = r.content.lines().next().unwrap();
    assert!(title.contains("Business Solution: Create a business plan for a coffee shop"));
    assert!(r.content.contains("### Executive Summary\nThe business strategy for 'Create a business plan for a coffee shop'"));
    assert_eq!(r.content.matches(prompt).count(), 2);
}

#[test]
fn templates_interpolate_prompt_twice() {
    let t = generate_business_text("X", DEFAULT_TEMPERATURE_BITS);
    assert!(t.starts_with("## Business Solution: X\n\n### Executive Summary\nThe business strategy for 'X' focuses"));
    assert!(t.ends_with("- ROI improvement: 20% within first year"));
    let headings = [
        (ContentCategory::Business, "## Business Solution: Q"),
        (ContentCategory::Technical, "## Technical Implementation: Q"),
        (ContentCategory::Creative, "## Creative Concept: Q"),
        (ContentCategory::Analytical, "## Data Analysis Report: Q"),
        (ContentCategory::General, "## Comprehensive Overview: Q"),
    ];
    for (c, h) in headings {
        let doc = render_category(c, "Q", 0);
        assert!(doc.starts_with(h));
        assert!(doc.contains("'Q'"));
    }
    assert!(render_category(ContentCategory::Analytical, "Q", 0).contains("R² = 0.84"));
    assert_eq!(generate_intelligent_text("data audit", 5, 0), render_category(ContentCategory::Analytical, "data audit", 0));
}

#[test]
fn cache_key_format() {
    assert_eq!(make_cache_key("p", "text", 500), "p:text:500");
    assert_eq!(make_cache_key("", "", 0), "::0");
    assert_eq!(make_cache_key("a:b", "csv", 4294967295), "a:b:csv:4294967295");
}

#[test]
fn decimal_rendering() {
    let mut s = String::from("n=");
    push_decimal(&mut s, 0);
    assert_eq!(s, "n=0");
    let mut s = String::new();
    push_decimal(&mut s, 1090);
    assert_eq!(s, "1090");
    let mut s = String::new();
    push_decimal(&mut s, u64::MAX);
    assert_eq!(s, "18446744073709551615");
}

#[test]
fn substring_search() {
    let hay = chars_of("héllo world");
    assert_eq!(hay.len(), 11);
    assert!(contains_str(&hay, "llo w"));
    assert!(contains_str(&hay, "world"));
    assert!(contains_str(&hay, ""));
    assert!(!contains_str(&hay, "worlds"));
    assert!(!contains_str(&hay, "hello"));
    assert!(contains_chars(&Vec::new(), &Vec::new()));
    assert!(!contains_chars(&Vec::new(), &vec!['a']));
}

#[test]
fn lowercase_folds_letters() {
    assert_eq!(lowercase("Coffee SHOP"), "coffee shop");
    assert_eq!(lowercase(""), "");
}

#[test]
fn prompt_analysis_tags() {
    let a = analyze_user_prompt("Machine Learning for Banking".to_string());
    assert_eq!(a.domain, "ai");
    assert_eq!(a.content_type, "general");
    assert_eq!(a.sentiment, "neutral");
    assert_eq!(a.formality, "neutral");
    assert_eq!(a.length_requirement, "medium");
    assert_eq!(a.confidence_percent, 80);
    let b = analyze_user_prompt("Crypto BUSINESS technical".to_string());
    assert_eq!(b.domain, "blockchain");
    assert_eq!(b.content_type, "business");
    assert_eq!(analyze_lowered("web analysis").domain, "web_dev");
    assert_eq!(analyze_lowered("web analysis").content_type, "analytical");
    assert_eq!(analyze_lowered("medical notes").domain, "healthcare");
    assert_eq!(analyze_lowered("finance desk").domain, "finance");
    assert_eq!(analyze_lowered("quiet").domain, "general");
    assert_eq!(analyze_lowered("creative").content_type, "creative");
    assert_eq!(analyze_lowered("said").domain, "ai");
}

#[test]
fn fixed_endpoints() {
    assert!(health().contains("Hyv AI Engine v2.0"));
    let models = get_loaded_models();
    assert_eq!(models, vec![
        "Mock DistilGPT-2 (Text Generation)".to_string(),
        "Mock CodeT5 (Code Generation)".to_string(),
        "Mock Tabular Generator".to_string(),
    ]);
    assert!(setup_models().unwrap().contains("initialized"));
}
