//! The probabilistic store: a `fastbloom::BloomFilter` seen through the set of
//! items it accepts and its two sizes.
use vstd::prelude::*;

verus! {

/// A `fastbloom::BloomFilter` with its default hasher. The hasher's type lies
/// in a private module of the crate, so Verus cannot be told of the filter
/// type itself: the filter is held in a field that Verus does not see, and is
/// reached only through the functions below.
#[verifier::external_body]
pub struct Store {
    filter: fastbloom::BloomFilter,
}

/// The items on which `contains` answers true: those whose hash positions
/// are all set in the filter's bit vector under the filter's own hasher.
pub uninterp spec fn accepted(f: Store) -> Set<Seq<char>>;

/// The length of the filter's bit vector.
pub uninterp spec fn bit_count(f: Store) -> nat;

/// The number of hash positions set and checked per item.
pub uninterp spec fn hash_count(f: Store) -> nat;

/// What `fastbloom::optimal_hashes` returns for a bit count and an item count.
pub uninterp spec fn optimal_hashes_of(num_bits: nat, num_items: nat) -> nat;

/// The bit vector length that a request for `num_bits` bits gets: whole
/// 64-bit words.
pub open spec fn rounded_bits(num_bits: nat) -> nat {
    ((num_bits + 63) / 64) * 64
}

/// Relies on `BloomFilter::with_num_bits(num_bits).expected_items(n)`: the bit
/// vector is `num_bits` rounded up to whole 64-bit words, all zero (so nothing
/// is accepted), and the hash count is `optimal_hashes(bits, max(1, n))`, which
/// is never below one. Panics on zero bits, which `requires` leaves out.
#[verifier::external_body]
pub(crate) fn new_filter(num_bits: usize, expected_items: usize) -> (f: Store)
    requires
        0 < num_bits <= usize::MAX - 63,
        expected_items > 0,
    ensures
        accepted(f) == Set::<Seq<char>>::empty(),
        bit_count(f) == rounded_bits(num_bits as nat),
        hash_count(f) == optimal_hashes_of(rounded_bits(num_bits as nat), expected_items as nat),
        hash_count(f) >= 1,
{
    Store { filter: fastbloom::BloomFilter::with_num_bits(num_bits).expected_items(expected_items) }
}

/// Relies on `BloomFilter::insert`: it sets the item's hash positions and
/// returns whether they were all set before. Bits are only ever set, so what
/// was accepted stays accepted; when the item was already accepted no bit
/// changes.
#[verifier::external_body]
pub(crate) fn insert(f: &mut Store, item: &str) -> (was_accepted: bool)
    ensures
        was_accepted == accepted(*old(f)).contains(item@),
        accepted(*old(f)).insert(item@).subset_of(accepted(*final(f))),
        was_accepted ==> *final(f) == *old(f),
        bit_count(*final(f)) == bit_count(*old(f)),
        hash_count(*final(f)) == hash_count(*old(f)),
{
    f.filter.insert(item)
}

/// Relies on `BloomFilter::contains`: true exactly when all of the item's hash
/// positions are set.
#[verifier::external_body]
pub(crate) fn contains(f: &Store, item: &str) -> (r: bool)
    ensures
        r == accepted(*f).contains(item@),
{
    f.filter.contains(item)
}

/// Relies on `BloomFilter::clear`: every bit is zeroed, so nothing is
/// accepted; the sizes stay.
#[verifier::external_body]
pub(crate) fn clear(f: &mut Store)
    ensures
        accepted(*final(f)) == Set::<Seq<char>>::empty(),
        bit_count(*final(f)) == bit_count(*old(f)),
        hash_count(*final(f)) == hash_count(*old(f)),
{
    f.filter.clear()
}

/// Relies on `BloomFilter::num_bits`: the bit vector's length.
#[verifier::external_body]
pub(crate) fn num_bits(f: &Store) -> (r: usize)
    ensures
        r as nat == bit_count(*f),
{
    f.filter.num_bits()
}

/// Relies on `BloomFilter::num_hashes`: the hash count per item.
#[verifier::external_body]
pub(crate) fn num_hashes(f: &Store) -> (r: u32)
    ensures
        r as nat == hash_count(*f),
{
    f.filter.num_hashes()
}

} // verus!
