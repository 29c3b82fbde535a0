//! Properties of sequences of generation requests, proved from the contract
//! of a single request.
use vstd::prelude::*;
use crate::engine::{cache_key, generation_step, text_document, GenerationConfig, StoreView};

verus! {

/// Repeating a request returns the same document both times, leaves the
/// store as the first call left it, and the counter rises by one across the
/// two calls exactly when the first one was not cached.
pub proof fn lemma_cache_idempotence(
    s0: StoreView,
    prompt: Seq<char>,
    data_type: Seq<char>,
    max_tokens: u32,
    s1: StoreView,
    c1: Seq<char>,
    s2: StoreView,
    c2: Seq<char>,
)
    requires
        generation_step(s0, prompt, data_type, max_tokens, s1, c1),
        generation_step(s1, prompt, data_type, max_tokens, s2, c2),
    ensures
        c2 == c1,
        s2 == s1,
        s0.entries.contains_key(cache_key(prompt, data_type, max_tokens))
            ==> s2.generations == s0.generations,
        !s0.entries.contains_key(cache_key(prompt, data_type, max_tokens))
            ==> s2.generations == s0.generations + 1,
{
    let key = cache_key(prompt, data_type, max_tokens);
    assert(s1.entries.contains_key(key));
}

/// Two requests that differ only in temperature get the same document, and
/// the second is answered from the cache without changing the store.
pub proof fn lemma_temperature_not_in_key(
    s0: StoreView,
    prompt: Seq<char>,
    first: GenerationConfig,
    s1: StoreView,
    c1: Seq<char>,
    second: GenerationConfig,
    s2: StoreView,
    c2: Seq<char>,
)
    requires
        first.data_type@ == second.data_type@,
        first.max_tokens == second.max_tokens,
        generation_step(s0, prompt, first.data_type@, first.max_tokens, s1, c1),
        generation_step(s1, prompt, second.data_type@, second.max_tokens, s2, c2),
    ensures
        c2 == c1,
        s1.entries.contains_key(cache_key(prompt, second.data_type@, second.max_tokens)),
        s2 == s1,
{
    lemma_cache_idempotence(s0, prompt, first.data_type@, first.max_tokens, s1, c1, s2, c2);
}

/// On a store that holds neither request's key, any data kind, recognised or
/// not, yields the same document as the kind "text", and counts and caches it
/// the same way.
pub proof fn lemma_kind_fallback(
    s: StoreView,
    prompt: Seq<char>,
    data_type: Seq<char>,
    max_tokens: u32,
    s1: StoreView,
    c1: Seq<char>,
    t1: StoreView,
    ct: Seq<char>,
)
    requires
        !s.entries.contains_key(cache_key(prompt, data_type, max_tokens)),
        !s.entries.contains_key(cache_key(prompt, "text"@, max_tokens)),
        generation_step(s, prompt, data_type, max_tokens, s1, c1),
        generation_step(s, prompt, "text"@, max_tokens, t1, ct),
    ensures
        c1 == ct,
        c1 == text_document(prompt),
        s1.generations == t1.generations,
{
}

/// A run of cached requests: `states[i]` is the store before request `i`
/// and `states[i + 1]` after it, and `contents[i]` is its answer.
pub open spec fn is_run(
    states: Seq<StoreView>,
    requests: Seq<(Seq<char>, Seq<char>, u32)>,
    contents: Seq<Seq<char>>,
) -> bool {
    &&& states.len() == requests.len() + 1
    &&& contents.len() == requests.len()
    &&& forall|i: int|
        0 <= i < requests.len() ==> #[trigger] generation_step(
            states[i],
            requests[i].0,
            requests[i].1,
            requests[i].2,
            states[i + 1],
            contents[i],
        )
}

/// Whether request `i` of a run found its key absent from the cache.
pub open spec fn is_miss(
    states: Seq<StoreView>,
    requests: Seq<(Seq<char>, Seq<char>, u32)>,
    i: int,
) -> bool {
    !states[i].entries.contains_key(cache_key(requests[i].0, requests[i].1, requests[i].2))
}

/// How many of the first `n` requests of a run were cache misses.
pub open spec fn miss_count(
    states: Seq<StoreView>,
    requests: Seq<(Seq<char>, Seq<char>, u32)>,
    n: nat,
) -> nat
    decreases n,
{
    if n == 0 {
        0
    } else {
        miss_count(states, requests, (n - 1) as nat) + if is_miss(states, requests, n - 1) {
            1nat
        } else {
            0nat
        }
    }
}

/// Over a run of requests the counter never decreases, and after `n`
/// requests it has risen by exactly the number of them that missed the cache.
pub proof fn lemma_counter_monotonic(
    states: Seq<StoreView>,
    requests: Seq<(Seq<char>, Seq<char>, u32)>,
    contents: Seq<Seq<char>>,
)
    requires
        is_run(states, requests, contents),
    ensures
        forall|n: nat|
            n <= requests.len() ==> #[trigger] states[n as int].generations == states[0].generations
                + miss_count(states, requests, n),
        forall|i: int, j: int|
            0 <= i <= j <= requests.len() ==> #[trigger] states[i].generations
                <= #[trigger] states[j].generations,
{
    assert forall|n: nat| n <= requests.len() implies #[trigger] states[n as int].generations
        == states[0].generations + miss_count(states, requests, n) by {
        lemma_counter_prefix(states, requests, contents, n);
    }
    assert forall|i: int, j: int| 0 <= i <= j <= requests.len() implies #[trigger] states[i].generations
        <= #[trigger] states[j].generations by {
        lemma_counter_prefix(states, requests, contents, i as nat);
        lemma_counter_prefix(states, requests, contents, j as nat);
        lemma_miss_count_monotonic(states, requests, i as nat, j as nat);
    }
}

proof fn lemma_counter_prefix(
    states: Seq<StoreView>,
    requests: Seq<(Seq<char>, Seq<char>, u32)>,
    contents: Seq<Seq<char>>,
    n: nat,
)
    requires
        is_run(states, requests, contents),
        n <= requests.len(),
    ensures
        states[n as int].generations == states[0].generations + miss_count(states, requests, n),
    decreases n,
{
    if n > 0 {
        lemma_counter_prefix(states, requests, contents, (n - 1) as nat);
        let i = n - 1;
        assert(generation_step(states[i], requests[i].0, requests[i].1, requests[i].2, states[i + 1], contents[i]));
    }
}

proof fn lemma_miss_count_monotonic(
    states: Seq<StoreView>,
    requests: Seq<(Seq<char>, Seq<char>, u32)>,
    i: nat,
    j: nat,
)
    requires
        i <= j,
    ensures
        miss_count(states, requests, i) <= miss_count(states, requests, j),
    decreases j,
{
    if i < j {
        lemma_miss_count_monotonic(states, requests, i, (j - 1) as nat);
    }
}

} // verus!
