use gymnasium::{BoxSpaceIndependent, GymnasiumResult, NdArray, Space};
use std::fmt::Debug;

const NUM_SAMPLES: usize = 10;

fn array<T>(shape: Vec<usize>, data: Vec<T>) -> NdArray<T> {
    NdArray::new(shape, data).expect("data agrees with shape")
}

#[test]
fn independent_trait_impls() {
    fn trait_impls_noop<T: Sized + Send + Sync + Unpin + Clone + Debug>() {}

    trait_impls_noop::<BoxSpaceIndependent<isize>>();
}

#[test]
fn invalid_bounds_usize() {
    assert!(BoxSpaceIndependent::new(
        NdArray::from_vec(vec![0, usize::MAX]),
        NdArray::from_vec(vec![usize::MIN, 10]),
        None
    )
    .is_err());
}

#[test]
fn sample_u32() -> GymnasiumResult<()> {
    let mut space: BoxSpaceIndependent<u32> = BoxSpaceIndependent::new(
        array(vec![2, 3], vec![0, 100, 200, 3, 40, 50]),
        array(vec![2, 3], vec![10000, 900, 8000, 7, 6000, 5000]),
        None,
    )?;

    let mut all_samples = Vec::new();
    for _ in 0..NUM_SAMPLES {
        let sample = space.sample();
        assert!(space.contains(&sample));
        all_samples.push(sample);
    }

    let mut is_different = false;
    'outer: for i in 0..NUM_SAMPLES {
        for j in 0..NUM_SAMPLES {
            if i != j {
                is_different = true;
                break 'outer;
            }
        }
    }
    assert!(is_different, "All samples are the same ({:?})", all_samples[0]);

    Ok(())
}

#[test]
fn independent_contains_i32() {
    let space = BoxSpaceIndependent::new(
        array(vec![2, 3], vec![-1, -2, -3, -4, -5, -6]),
        array(vec![2, 3], vec![6, 5, 4, 3, 2, 1]),
        None,
    )
    .unwrap();

    assert!(space.contains(&array(vec![2, 3], vec![-1, -2, -3, -4, -5, -6])));
    assert!(space.contains(&array(vec![2, 3], vec![0, 0, 0, 0, 0, 0])));
    assert!(space.contains(&array(vec![2, 3], vec![6, 5, 4, 3, 2, 1])));
    assert!(!space.contains(&array(vec![2, 3], vec![-2, 0, 0, 0, 0, 0])));
    assert!(!space.contains(&array(vec![2, 3], vec![0, -3, 0, 0, 0, 0])));
    assert!(!space.contains(&array(vec![2, 3], vec![0, 0, 0, 0, 0, 2])));
    assert!(!space.contains(&array(vec![3, 2], vec![0, 0, 0, 0, 0, 0])));
}

#[test]
fn independent_reports_first_index() {
    let err = BoxSpaceIndependent::new(
        NdArray::from_vec(vec![0_i16, 5, 9]),
        NdArray::from_vec(vec![1_i16, 4, 8]),
        None,
    )
    .unwrap_err();
    assert!(err.is_invalid_space());
    assert!(err.message().contains("index 1"));
}

#[test]
fn independent_bounds_kept() {
    let mut space = BoxSpaceIndependent::new(
        NdArray::from_vec(vec![1_u8, 2]),
        NdArray::from_vec(vec![3_u8, 2]),
        Some(5),
    )
    .unwrap();
    space.seed(8);
    assert_eq!(space.low().as_vec(), &vec![1, 2]);
    assert_eq!(space.high().as_vec(), &vec![3, 2]);
    assert_eq!(space.shape(), &vec![2]);
    for _ in 0..1000 {
        let s = space.sample();
        assert!(space.contains(&s));
        assert_eq!(s.as_vec()[1], 2);
    }
}

#[test]
fn independent_error_message() {
    let err = BoxSpaceIndependent::new(
        NdArray::from_vec(vec![0, usize::MAX]),
        NdArray::from_vec(vec![usize::MIN, 10]),
        None,
    )
    .unwrap_err();
    assert_eq!(
        err.message(),
        &format!(
            "The lower bound cannot be greater than the upper bound (low: {} > high: 10 at index 1)",
            usize::MAX
        )
    );
}
