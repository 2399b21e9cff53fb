use bloomfilternif::handle::{validate, BloomError, BloomFilterResource};

fn sized(capacity: usize, rate: f32) -> Result<BloomFilterResource, BloomError> {
    validate(capacity, rate.to_bits())?;
    let num_bits = fastbloom::optimal_size(capacity, rate as f64);
    BloomFilterResource::new(capacity, rate.to_bits(), num_bits)
}

#[test]
fn end_to_end_alice_bob() {
    let mut f = sized(1000, 0.01).unwrap();
    f.add("alice");
    f.add("bob");
    assert!(f.member("alice"));
    assert!(f.member("bob"));
    assert!(!f.member("carol"));
    let (m, k, rate_bits, count) = f.stats();
    assert_eq!(m, 9600);
    assert_eq!(k, 7);
    assert_eq!(rate_bits, 0.01f32.to_bits());
    assert_eq!(f32::from_bits(rate_bits), 0.01f32);
    assert_eq!(count, 2);
}

#[test]
fn rejects_zero_capacity() {
    assert_eq!(sized(0, 0.01).err(), Some(BloomError::InvalidConfiguration));
}

#[test]
fn rejects_rate_zero_and_one() {
    assert_eq!(sized(1000, 0.0).err(), Some(BloomError::InvalidConfiguration));
    assert_eq!(sized(1000, 1.0).err(), Some(BloomError::InvalidConfiguration));
    assert!(sized(1000, 0.5).is_ok());
}

#[test]
fn rejects_rates_outside_unit_interval() {
    for bits in [(-0.0f32).to_bits(), (-0.5f32).to_bits(), 1.5f32.to_bits(), f32::NAN.to_bits(), f32::INFINITY.to_bits()] {
        let r = BloomFilterResource::new(1000, bits, 1024);
        assert_eq!(r.err(), Some(BloomError::InvalidConfiguration));
    }
    assert!(BloomFilterResource::new(1000, f32::MIN_POSITIVE.to_bits(), 1024).is_ok());
    assert!(BloomFilterResource::new(1000, 0.99999994f32.to_bits(), 1024).is_ok());
}

#[test]
fn rejects_zero_bits() {
    let r = BloomFilterResource::new(1000, 0.01f32.to_bits(), 0);
    assert_eq!(r.err(), Some(BloomError::InvalidConfiguration));
    let r = BloomFilterResource::new(1000, 0.01f32.to_bits(), usize::MAX);
    assert_eq!(r.err(), Some(BloomError::InvalidConfiguration));
}

#[test]
fn bit_count_rounds_up_to_words() {
    let f = BloomFilterResource::new(1000, 0.01f32.to_bits(), 65).unwrap();
    assert_eq!(f.stats().0, 128);
    assert_eq!(f.stats().1, 1);
    let f = BloomFilterResource::new(1, 0.5f32.to_bits(), 1).unwrap();
    assert_eq!(f.stats().0, 64);
    assert_eq!(f.stats().1, 44);
    let f = BloomFilterResource::new(1000, 0.5f32.to_bits(), 6400).unwrap();
    assert_eq!(f.stats().0, 6400);
    assert_eq!(f.stats().1, 4);
}

#[test]
fn sizes_from_other_configs() {
    let f = sized(1000, 0.5).unwrap();
    assert_eq!((f.stats().0, f.stats().1), (1472, 1));
    let f = sized(100, 0.001).unwrap();
    assert_eq!((f.stats().0, f.stats().1), (1472, 10));
}

#[test]
fn add_twice_keeps_member_and_counts_both() {
    let mut f = sized(1000, 0.01).unwrap();
    f.add("alice");
    f.add("alice");
    assert!(f.member("alice"));
    assert_eq!(f.inserted_count(), 2);
}

#[test]
fn clear_resets_members_and_count() {
    let mut f = sized(1000, 0.01).unwrap();
    let before = f.stats();
    f.add("alice");
    f.add("bob");
    f.clear();
    assert!(!f.member("alice"));
    assert!(!f.member("bob"));
    let after = f.stats();
    assert_eq!(after.3, 0);
    assert_eq!((after.0, after.1, after.2), (before.0, before.1, before.2));
    f.add("bob");
    assert!(f.member("bob"));
    assert_eq!(f.inserted_count(), 1);
}

#[test]
fn same_config_same_sizes() {
    let a = sized(1000, 0.01).unwrap();
    let b = sized(1000, 0.01).unwrap();
    assert_eq!((a.stats().0, a.stats().1), (b.stats().0, b.stats().1));
}

#[test]
fn many_distinct_adds_all_members_and_counted() {
    let mut f = sized(1000, 0.01).unwrap();
    for i in 0..500 {
        f.add(&format!("item-{}", i));
    }
    for i in 0..500 {
        assert!(f.member(&format!("item-{}", i)));
    }
    assert_eq!(f.stats().3, 500);
}

#[test]
fn getters_report_configuration() {
    let f = sized(1000, 0.01).unwrap();
    assert_eq!(f.capacity(), 1000);
    assert_eq!(f.false_positive_rate_bits(), 0.01f32.to_bits());
    assert_eq!(f.inserted_count(), 0);
    assert!(!f.member(""));
}

#[test]
fn validate_checks_capacity_and_rate() {
    assert_eq!(validate(1000, 0.01f32.to_bits()), Ok(()));
    assert_eq!(validate(0, 0.01f32.to_bits()), Err(BloomError::InvalidConfiguration));
    assert_eq!(validate(1000, 0.0f32.to_bits()), Err(BloomError::InvalidConfiguration));
    assert_eq!(validate(1000, 1.0f32.to_bits()), Err(BloomError::InvalidConfiguration));
    assert_eq!(validate(1, 0.5f32.to_bits()), Ok(()));
}
