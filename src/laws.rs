//! Laws of the filter over several calls, proved from the contracts of
//! `BloomFilterResource::new`, `add` and `clear`.
use vstd::prelude::*;

use crate::handle::BloomFilterResource;

verus! {

/// `states[i + 1]` is what `add(items[i])` left of `states[i]`, for each `i`.
pub open spec fn add_run(states: Seq<BloomFilterResource>, items: Seq<Seq<char>>) -> bool {
    &&& states.len() == items.len() + 1
    &&& forall|i: int|
        0 <= i < items.len() ==> #[trigger] BloomFilterResource::add_step(
            states[i],
            states[i + 1],
            items[i],
        )
}

/// Along a run of adds no member is lost.
pub proof fn lemma_members_grow(states: Seq<BloomFilterResource>, items: Seq<Seq<char>>, j: int)
    requires
        add_run(states, items),
        0 <= j < states.len(),
    ensures
        states[0].members().subset_of(states[j].members()),
    decreases j,
{
    if j > 0 {
        let k = j - 1;
        lemma_members_grow(states, items, k);
        assert(BloomFilterResource::add_step(states[k], states[k + 1], items[k]));
    }
}

/// No false negatives: an item added at any point of a run of adds (with no
/// reset in between) is a member at the end of it, whatever else was added.
pub proof fn lemma_no_false_negative(
    states: Seq<BloomFilterResource>,
    items: Seq<Seq<char>>,
    i: int,
)
    requires
        add_run(states, items),
        0 <= i < items.len(),
    ensures
        states.last().members().contains(items[i]),
{
    assert(BloomFilterResource::add_step(states[i], states[i + 1], items[i]));
    let rest = states.subrange(i + 1, states.len() as int);
    let rest_items = items.subrange(i + 1, items.len() as int);
    assert forall|j: int| 0 <= j < rest_items.len() implies #[trigger] BloomFilterResource::add_step(
        rest[j],
        rest[j + 1],
        rest_items[j],
    ) by {
        assert(BloomFilterResource::add_step(
            states[i + 1 + j],
            states[i + 1 + j + 1],
            items[i + 1 + j],
        ));
    }
    lemma_members_grow(rest, rest_items, rest.len() - 1);
}

/// A run of adds counts every call: the counter grows by the run's length.
pub proof fn lemma_adds_counted(states: Seq<BloomFilterResource>, items: Seq<Seq<char>>)
    requires
        add_run(states, items),
    ensures
        states.last().count() == states[0].count() + items.len(),
    decreases items.len(),
{
    if items.len() > 0 {
        let n = items.len() - 1;
        let front = states.subrange(0, n + 1);
        let front_items = items.subrange(0, n);
        assert forall|j: int| 0 <= j < front_items.len() implies #[trigger] BloomFilterResource::add_step(
            front[j],
            front[j + 1],
            front_items[j],
        ) by {
            assert(BloomFilterResource::add_step(states[j], states[j + 1], items[j]));
        }
        lemma_adds_counted(front, front_items);
        assert(BloomFilterResource::add_step(states[n], states[n + 1], items[n]));
    }
}

/// Starting from an empty filter with a zero counter (just created or just
/// cleared), `n` adds leave every added item a member and the counter at `n`.
pub proof fn lemma_run_from_empty(states: Seq<BloomFilterResource>, items: Seq<Seq<char>>)
    requires
        add_run(states, items),
        states[0].count() == 0,
    ensures
        states.last().count() == items.len(),
        forall|i: int| 0 <= i < items.len() ==> states.last().members().contains(#[trigger] items[i]),
{
    lemma_adds_counted(states, items);
    assert forall|i: int| 0 <= i < items.len() implies states.last().members().contains(
        #[trigger] items[i],
    ) by {
        lemma_no_false_negative(states, items, i);
    }
}

/// Adding an item twice leaves it a member and the store exactly as one add
/// left it; only the counter moves again.
pub proof fn lemma_add_idempotent(
    s0: BloomFilterResource,
    s1: BloomFilterResource,
    s2: BloomFilterResource,
    x: Seq<char>,
)
    requires
        BloomFilterResource::add_step(s0, s1, x),
        BloomFilterResource::add_step(s1, s2, x),
    ensures
        s2.members().contains(x),
        s2.store_state() == s1.store_state(),
        s2.members() == s1.members(),
        s2.count() == s1.count() + 1,
{
    assert(s1.members().contains(x));
}

/// After a reset no item is a member and the counter is zero.
pub proof fn lemma_clear_resets(s0: BloomFilterResource, s1: BloomFilterResource)
    requires
        BloomFilterResource::clear_step(s0, s1),
    ensures
        forall|x: Seq<char>| !s1.members().contains(x),
        s1.count() == 0,
        s1.bit_array_size() == s0.bit_array_size(),
        s1.hash_fn_count() == s0.hash_fn_count(),
{
}

/// Two filters created from the same capacity, rate and bit count have the
/// same bit array size and hash count.
pub proof fn lemma_sizing_deterministic(
    capacity: usize,
    rate_bits: u32,
    num_bits: usize,
    a: BloomFilterResource,
    b: BloomFilterResource,
)
    requires
        BloomFilterResource::created(capacity, rate_bits, num_bits, Ok(a)),
        BloomFilterResource::created(capacity, rate_bits, num_bits, Ok(b)),
    ensures
        a.bit_array_size() == b.bit_array_size(),
        a.hash_fn_count() == b.hash_fn_count(),
{
}

} // verus!
