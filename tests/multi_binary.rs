use gymnasium::{MultiBinarySpace, NdArray, Space};
use std::fmt::Debug;

const NUM_SAMPLES: usize = 10;

#[test]
fn multi_binary_trait_impls() {
    fn trait_impls_noop<T: Sized + Send + Sync + Unpin + Clone + Debug>() {}

    trait_impls_noop::<MultiBinarySpace>();
}

#[test]
fn multi_binary_contains() {
    let space = MultiBinarySpace::new(vec![2], None);

    assert!(space.contains(&NdArray::from_vec(vec![true; 2])));
    assert!(space.contains(&NdArray::from_vec(vec![true, false])));
    assert!(space.contains(&NdArray::from_vec(vec![false, true])));
    assert!(space.contains(&NdArray::from_vec(vec![false; 2])));
}

#[test]
fn multi_binary_sample() {
    let mut space = MultiBinarySpace::new(vec![3, 3, 3], None);

    let mut all_samples = Vec::new();
    for _ in 0..NUM_SAMPLES {
        let sample = space.sample();
        assert!(space.contains(&sample));
        all_samples.push(sample);
    }

    let mut is_different = false;
    'outer: for i in 0..NUM_SAMPLES {
        for j in 0..NUM_SAMPLES {
            if i != j {
                is_different = true;
                break 'outer;
            }
        }
    }
    assert!(is_different, "All samples are the same ({:?})", all_samples[0]);
}

#[test]
fn multi_binary_every_pattern() {
    let space = MultiBinarySpace::new(vec![2, 2], None);
    for bits in 0..16_u32 {
        let data: Vec<bool> = (0..4).map(|k| bits & (1 << k) != 0).collect();
        let value = NdArray::new(vec![2, 2], data).unwrap();
        assert!(space.contains(&value));
    }
    assert!(!space.contains(&NdArray::from_vec(vec![true; 4])));
    assert_eq!(space.shape(), &vec![2, 2]);
}
