use gymnasium::{BoxBound, BoxSpace, BoxSpaceIdentical, BoxSpaceIndependent, GymnasiumResult, NdArray, Space};
use std::fmt::Debug;

const NUM_SAMPLES: usize = 10;

fn array<T>(shape: Vec<usize>, data: Vec<T>) -> NdArray<T> {
    NdArray::new(shape, data).expect("data agrees with shape")
}

#[test]
fn box_enum_trait_impls() {
    fn trait_impls_noop<T: Sized + Send + Sync + Unpin + Clone + Debug>() {}

    trait_impls_noop::<BoxSpace<i32>>();
}

#[test]
fn contains_u8_independent() -> GymnasiumResult<()> {
    let space: BoxSpace<u8> = BoxSpaceIndependent::new(
        array(vec![2, 3], vec![0, 1, 2, 3, 4, 5]),
        array(vec![2, 3], vec![10, 9, 8, 7, 6, 5]),
        None,
    )?
    .into();

    assert!(space.contains(&array(vec![2, 3], vec![0, 1, 2, 3, 4, 5])));
    assert!(space.contains(&array(vec![2, 3], vec![5, 5, 5, 5, 5, 5])));
    assert!(space.contains(&array(vec![2, 3], vec![10, 9, 8, 7, 6, 5])));
    assert!(!space.contains(&array(vec![2, 3], vec![0, 0, 0, 0, 0, 0])));
    assert!(!space.contains(&array(vec![2, 3], vec![10, 10, 10, 10, 10, 10])));
    assert!(!space.contains(&array(vec![2, 3], vec![100, 5, 5, 5, 5, 5])));
    assert!(!space.contains(&array(vec![2, 3], vec![5, 5, 5, 5, 5, 0])));
    assert!(!space.contains(&array(vec![2, 3], vec![5, 5, 5, 5, 5, 10])));

    Ok(())
}

#[test]
fn sample_isize_identical() -> GymnasiumResult<()> {
    let mut space: BoxSpace<isize> =
        BoxSpaceIdentical::new(-5000_isize, 10000, vec![3], None)?.into();

    let mut all_samples = Vec::new();
    for _ in 0..NUM_SAMPLES {
        let sample = space.sample();
        assert!(space.contains(&sample));
        all_samples.push(sample);
    }

    let mut is_different = false;
    'outer: for i in 0..NUM_SAMPLES {
        for j in 0..NUM_SAMPLES {
            if i != j {
                is_different = true;
                break 'outer;
            }
        }
    }
    assert!(is_different, "All samples are the same ({:?})", all_samples[0]);

    Ok(())
}

#[test]
fn box_enum_bounds_by_variant() {
    let identical = BoxSpaceIdentical::new(-2_i64, 2, vec![2], None).unwrap().into_enum();
    assert!(matches!(identical.low(), BoxBound::Identical(-2)));
    assert!(matches!(identical.high(), BoxBound::Identical(2)));
    assert_eq!(identical.shape(), &vec![2]);

    let mut independent = BoxSpaceIndependent::new(
        NdArray::from_vec(vec![0_u16, 1]),
        NdArray::from_vec(vec![4_u16, 5]),
        None,
    )
    .unwrap()
    .into_enum();
    match independent.low() {
        BoxBound::Independent(a) => assert_eq!(a.as_vec(), &vec![0, 1]),
        BoxBound::Identical(_) => panic!("expected per-element bounds"),
    }
    match independent.high() {
        BoxBound::Independent(a) => assert_eq!(a.as_vec(), &vec![4, 5]),
        BoxBound::Identical(_) => panic!("expected per-element bounds"),
    }
    independent.seed(17);
    assert!(independent.contains(&NdArray::from_vec(vec![4, 1])));
    assert!(!independent.contains(&NdArray::from_vec(vec![5, 1])));
}
