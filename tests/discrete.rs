use gymnasium::{DiscreteSpace, GymnasiumResult, Space};
use std::fmt::Debug;

const NUM_SAMPLES: usize = 10;

#[test]
fn discrete_trait_impls() {
    fn trait_impls_noop<T: Sized + Send + Sync + Unpin + Clone + Debug>() {}

    trait_impls_noop::<DiscreteSpace<usize>>();
    trait_impls_noop::<DiscreteSpace<isize>>();
}

#[test]
fn discrete_invalid_bounds_u8() {
    assert!(DiscreteSpace::new(1, u8::max_value(), None).is_err());
}

#[test]
fn discrete_invalid_bounds_isize() {
    assert!(DiscreteSpace::new(101, isize::max_value() - 100, None).is_err());
}

#[test]
fn discrete_contains_u32() -> GymnasiumResult<()> {
    let space = DiscreteSpace::new(8, 2_u32, None)?;

    assert!(space.contains(&2));
    assert!(space.contains(&3));
    assert!(space.contains(&5));
    assert!(space.contains(&6));
    assert!(space.contains(&8));
    assert!(space.contains(&9));
    assert!(!space.contains(&0));
    assert!(!space.contains(&1));
    assert!(!space.contains(&10));
    assert!(!space.contains(&11));
    assert!(!space.contains(&u32::MAX));

    Ok(())
}

#[test]
fn discrete_contains_i16() -> GymnasiumResult<()> {
    let space = DiscreteSpace::new(7, -3_i16, None)?;

    assert!(space.contains(&-3));
    assert!(space.contains(&-2));
    assert!(space.contains(&-1));
    assert!(space.contains(&0));
    assert!(space.contains(&1));
    assert!(space.contains(&2));
    assert!(space.contains(&3));
    assert!(!space.contains(&-5));
    assert!(!space.contains(&-4));
    assert!(!space.contains(&4));
    assert!(!space.contains(&5));
    assert!(!space.contains(&i16::MIN));
    assert!(!space.contains(&i16::MAX));

    Ok(())
}

#[test]
fn discrete_sample_u16() -> GymnasiumResult<()> {
    let mut space = DiscreteSpace::new(256, 127_u16, None)?;

    let mut all_samples = Vec::new();
    for _ in 0..NUM_SAMPLES {
        let sample = space.sample();
        assert!(space.contains(&sample));
        all_samples.push(sample);
    }

    let mut is_different = false;
    'outer: for i in 0..NUM_SAMPLES {
        for j in 0..NUM_SAMPLES {
            if i != j {
                is_different = true;
                break 'outer;
            }
        }
    }
    assert!(is_different, "All samples are the same ({:?})", all_samples[0]);

    Ok(())
}

#[test]
fn discrete_sample_i64() -> GymnasiumResult<()> {
    let mut space = DiscreteSpace::new(512, i64::MIN, None)?;

    let mut all_samples = Vec::new();
    for _ in 0..NUM_SAMPLES {
        let sample = space.sample();
        assert!(space.contains(&sample));
        all_samples.push(sample);
    }

    let mut is_different = false;
    'outer: for i in 0..NUM_SAMPLES {
        for j in 0..NUM_SAMPLES {
            if i != j {
                is_different = true;
                break 'outer;
            }
        }
    }
    assert!(is_different, "All samples are the same ({:?})", all_samples[0]);

    Ok(())
}

#[test]
fn discrete_exclusive_end() {
    let space = DiscreteSpace::new(8, 2_i32, None).unwrap();
    assert!(space.contains(&2));
    assert!(space.contains(&9));
    assert!(!space.contains(&10));
    assert!(!space.contains(&1));
    assert_eq!(space.n(), 8);
    assert_eq!(space.start(), 2);
    assert_eq!(space.end(), 10);
    assert!(space.shape().is_empty());
}

#[test]
fn discrete_overflow_rejected() {
    let err = DiscreteSpace::new(1, u8::MAX, None).unwrap_err();
    assert!(err.is_invalid_space());
    assert!(!err.message().is_empty());
}

#[test]
fn discrete_empty_rejected() {
    assert!(DiscreteSpace::new(0, 0_u64, None).unwrap_err().is_invalid_space());
}

#[test]
fn discrete_largest_domain() {
    // start + n reaches MAX exactly: still representable.
    let space = DiscreteSpace::new(255, 0_u8, None).unwrap();
    assert_eq!(space.end(), u8::MAX);
    assert!(space.contains(&254));
    assert!(!space.contains(&255));
    // a signed start with a count wider than the type is accepted when the end fits
    let wide = DiscreteSpace::new(200, -128_i8, None).unwrap();
    assert_eq!(wide.end(), 72);
}

#[test]
fn discrete_sample_within_bounds_many() {
    let mut space = DiscreteSpace::new(3, 6_u8, Some(7)).unwrap();
    for _ in 0..10_000 {
        let v = space.sample();
        assert!((6..9).contains(&v));
        assert!(space.contains(&v));
    }
}

#[test]
fn discrete_seed_keeps_bounds() {
    let mut space = DiscreteSpace::new(4, 10_i64, Some(1)).unwrap();
    space.seed(99);
    assert_eq!(space.start(), 10);
    assert_eq!(space.end(), 14);
    assert_eq!(space.n(), 4);
}

#[test]
fn discrete_error_messages() {
    let empty = DiscreteSpace::new(0, u8::MAX, None).unwrap_err();
    assert_eq!(empty.message(), "The space must have at least one element");
    let overflow = DiscreteSpace::new(1, u8::MAX, None).unwrap_err();
    assert_eq!(
        overflow.message(),
        "The space overflows the maximum value of the data type (start: 255 + n: 1 > MAX: 255)"
    );
    let signed = DiscreteSpace::new(10, 120_i8, None).unwrap_err();
    assert_eq!(
        signed.message(),
        "The space overflows the maximum value of the data type (start: 120 + n: 10 > MAX: 127)"
    );
}
