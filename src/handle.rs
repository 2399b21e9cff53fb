//! The filter handle: validated configuration, one store, and a counter of
//! insertions since creation or the last reset.
use vstd::prelude::*;

use crate::store::{
    accepted, bit_count, hash_count, optimal_hashes_of, rounded_bits, Store, new_filter,
    insert, contains, clear, num_bits, num_hashes,
};

verus! {

/// The binary32 encoding of 1.0.
pub const ONE_BITS: u32 = 0x3F80_0000;

/// Why an operation on a filter failed.
#[derive(Clone, Copy, Debug, PartialEq, Eq, Structural)]
pub enum BloomError {
    /// Capacity, false-positive rate or bit count outside its domain.
    InvalidConfiguration,
    /// The lock round a shared filter could not be taken.
    LockError,
}

/// Whether `bits`, read as an IEEE-754 binary32 value, lies in the open
/// interval (0, 1). Positive values order as their encodings do, so this is
/// a range of encodings with the sign bit clear; NaNs and negative zero fall
/// outside it.
pub open spec fn valid_rate_bits(bits: u32) -> bool {
    0 < bits && bits < ONE_BITS
}

/// Checks a capacity and a false-positive rate (as its binary32 encoding)
/// before anything is sized or allocated.
pub fn validate(capacity: usize, false_positive_rate_bits: u32) -> (r: Result<(), BloomError>)
    ensures
        r is Ok <==> capacity > 0 && valid_rate_bits(false_positive_rate_bits),
        r matches Err(e) ==> e == BloomError::InvalidConfiguration,
{
    if capacity == 0 {
        return Err(BloomError::InvalidConfiguration);
    }
    if false_positive_rate_bits == 0 || false_positive_rate_bits >= ONE_BITS {
        return Err(BloomError::InvalidConfiguration);
    }
    Ok(())
}

/// Whether a filter can be built from these parameters.
pub open spec fn valid_config(capacity: usize, rate_bits: u32, num_bits: usize) -> bool {
    &&& capacity > 0
    &&& valid_rate_bits(rate_bits)
    &&& 0 < num_bits <= usize::MAX - 63
}

pub struct BloomFilterResource {
    store: Store,
    capacity: usize,
    false_positive_rate_bits: u32,
    inserted_count: usize,
}

impl BloomFilterResource {
    /// The items on which `member` answers true.
    pub closed spec fn members(&self) -> Set<Seq<char>> {
        accepted(self.store)
    }

    /// The underlying store, as a value.
    pub closed spec fn store_state(&self) -> Store {
        self.store
    }

    pub closed spec fn bit_array_size(&self) -> nat {
        bit_count(self.store)
    }

    pub closed spec fn hash_fn_count(&self) -> nat {
        hash_count(self.store)
    }

    pub closed spec fn capacity_spec(&self) -> nat {
        self.capacity as nat
    }

    pub closed spec fn rate_bits_spec(&self) -> u32 {
        self.false_positive_rate_bits
    }

    pub closed spec fn count(&self) -> nat {
        self.inserted_count as nat
    }

    pub closed spec fn wf(&self) -> bool {
        &&& self.capacity > 0
        &&& valid_rate_bits(self.false_positive_rate_bits)
        &&& bit_count(self.store) >= 1
        &&& hash_count(self.store) >= 1
    }

    /// Capacity, rate and sizes are the same in both.
    pub open spec fn same_shape(a: Self, b: Self) -> bool {
        &&& b.wf() == a.wf()
        &&& b.capacity_spec() == a.capacity_spec()
        &&& b.rate_bits_spec() == a.rate_bits_spec()
        &&& b.bit_array_size() == a.bit_array_size()
        &&& b.hash_fn_count() == a.hash_fn_count()
    }

    /// What `new` returns for these arguments.
    pub open spec fn created(
        capacity: usize,
        rate_bits: u32,
        num_bits: usize,
        r: Result<Self, BloomError>,
    ) -> bool {
        match r {
            Ok(h) => {
                &&& valid_config(capacity, rate_bits, num_bits)
                &&& h.wf()
                &&& h.members() == Set::<Seq<char>>::empty()
                &&& h.count() == 0
                &&& h.capacity_spec() == capacity
                &&& h.rate_bits_spec() == rate_bits
                &&& h.bit_array_size() == rounded_bits(num_bits as nat)
                &&& h.hash_fn_count() == optimal_hashes_of(
                    rounded_bits(num_bits as nat),
                    capacity as nat,
                )
            },
            Err(e) => !valid_config(capacity, rate_bits, num_bits) && e
                == BloomError::InvalidConfiguration,
        }
    }

    /// What `add(item)` does: the item becomes a member, no member is lost,
    /// the counter goes up by one, and an item that was already a member
    /// leaves the store as it was.
    pub open spec fn add_step(a: Self, b: Self, item: Seq<char>) -> bool {
        &&& Self::same_shape(a, b)
        &&& a.members().insert(item).subset_of(b.members())
        &&& a.members().contains(item) ==> b.store_state() == a.store_state()
        &&& a.members().contains(item) ==> b.members() == a.members()
        &&& b.count() == a.count() + 1
    }

    /// What `clear()` does: no member is left and the counter is zero.
    pub open spec fn clear_step(a: Self, b: Self) -> bool {
        &&& Self::same_shape(a, b)
        &&& b.members() == Set::<Seq<char>>::empty()
        &&& b.count() == 0
    }

    /// Builds an empty filter of `num_bits` bits (rounded up to whole 64-bit
    /// words) for `capacity` items at the false-positive rate whose binary32
    /// encoding is `false_positive_rate_bits`; the hash count is chosen from
    /// the bit count and the capacity.
    pub fn new(capacity: usize, false_positive_rate_bits: u32, num_bits: usize) -> (r: Result<
        Self,
        BloomError,
    >)
        ensures
            Self::created(capacity, false_positive_rate_bits, num_bits, r),
            r is Ok <==> valid_config(capacity, false_positive_rate_bits, num_bits),
    {
        if let Err(e) = validate(capacity, false_positive_rate_bits) {
            return Err(e);
        }
        if num_bits == 0 || num_bits > usize::MAX - 63 {
            return Err(BloomError::InvalidConfiguration);
        }
        let store = new_filter(num_bits, capacity);
        Ok(BloomFilterResource {
            store,
            capacity,
            false_positive_rate_bits,
            inserted_count: 0,
        })
    }

    /// Inserts `item` and counts the insertion.
    pub fn add(&mut self, item: &str)
        requires
            old(self).count() < usize::MAX,
        ensures
            Self::add_step(*old(self), *final(self), item@),
    {
        insert(&mut self.store, item);
        self.inserted_count = self.inserted_count + 1;
    }

    /// Whether `item` may have been inserted: never false for an item added
    /// since the last reset.
    pub fn member(&self, item: &str) -> (r: bool)
        ensures
            r == self.members().contains(item@),
    {
        contains(&self.store, item)
    }

    /// Empties the filter and resets the counter; the sizes stay.
    pub fn clear(&mut self)
        ensures
            Self::clear_step(*old(self), *final(self)),
    {
        clear(&mut self.store);
        self.inserted_count = 0;
    }

    /// Bit array size, hash count, the rate's binary32 encoding and the
    /// number of insertions since creation or the last reset.
    pub fn stats(&self) -> (r: (usize, usize, u32, usize))
        ensures
            r.0 as nat == self.bit_array_size(),
            r.1 as nat == self.hash_fn_count(),
            r.2 == self.rate_bits_spec(),
            r.3 as nat == self.count(),
    {
        let m = num_bits(&self.store);
        let k = num_hashes(&self.store);
        (m, k as usize, self.false_positive_rate_bits, self.inserted_count)
    }

    pub fn capacity(&self) -> (r: usize)
        ensures
            r as nat == self.capacity_spec(),
    {
        self.capacity
    }

    pub fn false_positive_rate_bits(&self) -> (r: u32)
        ensures
            r == self.rate_bits_spec(),
    {
        self.false_positive_rate_bits
    }

    pub fn inserted_count(&self) -> (r: usize)
        ensures
            r as nat == self.count(),
    {
        self.inserted_count
    }
}

} // verus!
