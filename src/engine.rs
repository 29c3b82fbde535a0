//! Cache-backed generation: request keys, the generation store, kind
//! dispatch and the entry points built on them.
use vstd::prelude::*;
use vstd::hash_map::StringHashMap;
use vstd::string::StringExecFns;
use crate::classify::{classify, prompt_category};
use crate::templates::{category_document, render_category};
use crate::text::{decimal, push_decimal};

verus! {

/// Length budget used by the uncached entry points.
pub const DEFAULT_MAX_TOKENS: u32 = 500;

/// Single-precision bit pattern of the temperature 0.7, used where a
/// temperature is fixed.
pub const DEFAULT_TEMPERATURE_BITS: u32 = 0x3F33_3333;

/// Parameters of one generation request.
pub struct GenerationConfig {
    pub max_tokens: u32,
    /// Randomness parameter as a single-precision bit pattern; it is carried
    /// through but does not change the generated text.
    pub temperature_bits: u32,
    pub data_type: String,
}

/// Outcome of a generation request.
pub struct GenerationResult {
    pub success: bool,
    pub content: String,
    pub error: Option<String>,
}

/// Abstract state of a store: cached documents by key, and the number of
/// documents generated so far.
pub struct StoreView {
    pub entries: Map<Seq<char>, Seq<char>>,
    pub generations: nat,
}

/// Cache of generated documents together with the generation counter.
pub struct GenerationStore {
    cache: StringHashMap<String>,
    generations: u64,
}

impl View for GenerationStore {
    type V = StoreView;

    closed spec fn view(&self) -> StoreView {
        StoreView {
            entries: self.cache@.map_values(|v: String| v@),
            generations: self.generations as nat,
        }
    }
}

impl GenerationStore {
    /// An empty store with the counter at zero.
    pub fn new() -> (r: GenerationStore)
        ensures
            r@.entries == Map::<Seq<char>, Seq<char>>::empty(),
            r@.generations == 0,
    {
        let r = GenerationStore { cache: StringHashMap::new(), generations: 0 };
        assert(r@.entries =~= Map::<Seq<char>, Seq<char>>::empty());
        r
    }

    /// The document cached under `key`, if any.
    pub fn lookup(&self, key: &str) -> (r: Option<String>)
        ensures
            match r {
                Some(c) => self@.entries.contains_key(key@) && c@ == self@.entries[key@],
                None => !self@.entries.contains_key(key@),
            },
    {
        match self.cache.get(key) {
            Some(c) => Some(c.clone()),
            None => None,
        }
    }

    /// Stores `content` under `key`, replacing what was there.
    pub fn insert(&mut self, key: String, content: String)
        ensures
            final(self)@.entries == old(self)@.entries.insert(key@, content@),
            final(self)@.generations == old(self)@.generations,
    {
        self.cache.insert(key, content);
        assert(self@.entries =~= old(self)@.entries.insert(key@, content@));
    }

    /// Number of cached documents.
    pub fn cache_size(&self) -> (r: usize)
        ensures
            r == self@.entries.len(),
    {
        proof {
            broadcast use vstd::hash_map::group_hash_map_axioms;
            assert(self@.entries.dom() =~= self.cache@.dom());
        }
        self.cache.len()
    }

    /// Number of documents generated so far.
    pub fn generation_count(&self) -> (r: u64)
        ensures
            r == self@.generations,
    {
        self.generations
    }

    /// Counts one more generated document.
    pub fn increment_counter(&mut self)
        requires
            old(self)@.generations < u64::MAX,
        ensures
            final(self)@.entries == old(self)@.entries,
            final(self)@.generations == old(self)@.generations + 1,
    {
        self.generations = self.generations + 1;
    }
}

/// Cache key of a request: prompt, data kind and length budget joined by colons.
pub open spec fn cache_key(prompt: Seq<char>, data_type: Seq<char>, max_tokens: u32) -> Seq<char> {
    prompt + ":"@ + data_type + ":"@ + decimal(max_tokens as nat)
}

/// Builds the cache key of a request.
pub fn make_cache_key(prompt: &str, data_type: &str, max_tokens: u32) -> (r: String)
    ensures
        r@ == cache_key(prompt@, data_type@, max_tokens),
{
    let mut key = String::from_str(prompt);
    key.append(":");
    key.append(data_type);
    key.append(":");
    push_decimal(&mut key, max_tokens as u64);
    key
}

/// The text document for `prompt`: the template of its category.
pub open spec fn text_document(prompt: Seq<char>) -> Seq<char> {
    category_document(prompt_category(prompt), prompt)
}

/// Classifies `prompt` and renders the template of its category.
pub fn generate_intelligent_text(prompt: &str, _max_tokens: u32, temperature_bits: u32) -> (r: String)
    ensures
        r@ == text_document(prompt@),
{
    let category = classify(prompt);
    render_category(category, prompt, temperature_bits)
}

/// Code generation; for now the text path at the default temperature.
pub fn generate_intelligent_code(prompt: &str, max_tokens: u32) -> (r: String)
    ensures
        r@ == text_document(prompt@),
{
    generate_intelligent_text(prompt, max_tokens, DEFAULT_TEMPERATURE_BITS)
}

/// Tabular generation; for now the text path at the default temperature.
pub fn generate_intelligent_tabular(prompt: &str, max_tokens: u32) -> (r: String)
    ensures
        r@ == text_document(prompt@),
{
    generate_intelligent_text(prompt, max_tokens, DEFAULT_TEMPERATURE_BITS)
}

/// JSON generation; for now the text path at the default temperature.
pub fn generate_intelligent_json(prompt: &str, max_tokens: u32) -> (r: String)
    ensures
        r@ == text_document(prompt@),
{
    generate_intelligent_text(prompt, max_tokens, DEFAULT_TEMPERATURE_BITS)
}

/// CSV generation; for now the text path at the default temperature.
pub fn generate_intelligent_csv(prompt: &str, max_tokens: u32) -> (r: String)
    ensures
        r@ == text_document(prompt@),
{
    generate_intelligent_text(prompt, max_tokens, DEFAULT_TEMPERATURE_BITS)
}

/// Generates the document for a data kind. Unrecognised kinds fall back to
/// the text path.
pub fn generate_for_kind(prompt: &str, data_type: &String, max_tokens: u32, temperature_bits: u32) -> (r: String)
    ensures
        r@ == text_document(prompt@),
{
    if *data_type == String::from_str("text") {
        generate_intelligent_text(prompt, max_tokens, temperature_bits)
    } else if *data_type == String::from_str("code") {
        generate_intelligent_code(prompt, max_tokens)
    } else if *data_type == String::from_str("tabular") {
        generate_intelligent_tabular(prompt, max_tokens)
    } else if *data_type == String::from_str("json") {
        generate_intelligent_json(prompt, max_tokens)
    } else if *data_type == String::from_str("csv") {
        generate_intelligent_csv(prompt, max_tokens)
    } else {
        generate_intelligent_text(prompt, max_tokens, temperature_bits)
    }
}

/// One cached generation request on a store in state `pre`, leaving it in
/// state `post` and answering `content`: a cached document is returned with
/// the store unchanged; otherwise the counter goes up by one and the text
/// document is generated and cached.
pub open spec fn generation_step(
    pre: StoreView,
    prompt: Seq<char>,
    data_type: Seq<char>,
    max_tokens: u32,
    post: StoreView,
    content: Seq<char>,
) -> bool {
    let key = cache_key(prompt, data_type, max_tokens);
    if pre.entries.contains_key(key) {
        &&& content == pre.entries[key]
        &&& post == pre
    } else {
        &&& content == text_document(prompt)
        &&& post.entries == pre.entries.insert(key, content)
        &&& post.generations == pre.generations + 1
    }
}

/// Primary entry point: answers from the cache when the request's key is
/// present, and otherwise generates, counts and caches the document.
pub fn generate_synthetic_data(
    store: &mut GenerationStore,
    prompt: String,
    config: GenerationConfig,
) -> (r: GenerationResult)
    requires
        old(store)@.generations < u64::MAX,
    ensures
        r.success,
        r.error is None,
        generation_step(old(store)@, prompt@, config.data_type@, config.max_tokens, final(store)@, r.content@),
{
    let key = make_cache_key(prompt.as_str(), config.data_type.as_str(), config.max_tokens);
    if let Some(cached) = store.lookup(key.as_str()) {
        return GenerationResult { success: true, content: cached, error: None };
    }
    store.increment_counter();
    let content = generate_for_kind(
        prompt.as_str(),
        &config.data_type,
        config.max_tokens,
        config.temperature_bits,
    );
    store.insert(key, content.clone());
    GenerationResult { success: true, content, error: None }
}

/// Uncached text generation with the default length budget and temperature.
pub fn generate_text(prompt: String) -> (r: String)
    ensures
        r@ == text_document(prompt@),
{
    generate_intelligent_text(prompt.as_str(), DEFAULT_MAX_TOKENS, DEFAULT_TEMPERATURE_BITS)
}

/// Uncached code generation with the default length budget.
pub fn generate_code(prompt: String) -> (r: String)
    ensures
        r@ == text_document(prompt@),
{
    generate_intelligent_code(prompt.as_str(), DEFAULT_MAX_TOKENS)
}

/// Uncached tabular generation with the default length budget.
pub fn generate_tabular(prompt: String) -> (r: String)
    ensures
        r@ == text_document(prompt@),
{
    generate_intelligent_tabular(prompt.as_str(), DEFAULT_MAX_TOKENS)
}

/// Status line for a store with `size` cached documents and `generations`
/// documents generated.
pub open spec fn status_line(size: nat, generations: nat) -> Seq<char> {
    "Cache: "@ + decimal(size) + " entries, Total generations: "@ + decimal(generations)
        + ", Status: Ready"@
}

/// Reports the cache size and the generation counter.
pub fn status(store: &GenerationStore) -> (r: String)
    ensures
        r@ == status_line(store@.entries.len(), store@.generations),
{
    let size = store.cache_size();
    let mut out = String::from_str("Cache: ");
    push_decimal(&mut out, size as u64);
    out.append(" entries, Total generations: ");
    push_decimal(&mut out, store.generation_count());
    out.append(", Status: Ready");
    out
}

} // verus!
