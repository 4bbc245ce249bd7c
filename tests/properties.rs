use gymnasium::{
    BoxSpaceIdentical, BoxSpaceIndependent, DiscreteSpace, HashMapSpace, MultiBinarySpace,
    MultiDiscreteSpace, NdArray, RenderMode, Space, TextSpace, VecSpace,
};

#[test]
fn same_seed_same_samples() {
    let mut a = DiscreteSpace::new(1000, 0_u32, Some(42)).unwrap();
    let mut b = DiscreteSpace::new(1000, 0_u32, Some(42)).unwrap();
    for _ in 0..100 {
        assert_eq!(a.sample(), b.sample());
    }

    let mut t1 = TextSpace::new(1, 64, Some(7)).unwrap();
    let mut t2 = TextSpace::new(1, 64, Some(7)).unwrap();
    for _ in 0..100 {
        assert_eq!(t1.sample_string(), t2.sample_string());
    }

    let mut m1 = MultiBinarySpace::new(vec![8, 8], Some(3));
    let mut m2 = MultiBinarySpace::new(vec![8, 8], Some(3));
    assert_eq!(m1.sample().as_vec(), m2.sample().as_vec());
}

#[test]
fn different_seeds_differ() {
    let mut a = BoxSpaceIdentical::new(0_u64, u64::MAX, vec![4], Some(1)).unwrap();
    let mut b = BoxSpaceIdentical::new(0_u64, u64::MAX, vec![4], Some(2)).unwrap();
    assert_ne!(a.sample().as_vec(), b.sample().as_vec());
}

#[test]
fn reseeding_restarts_stream() {
    let mut space = MultiDiscreteSpace::new(
        NdArray::from_vec(vec![100_i32, 50, 7]),
        NdArray::from_vec(vec![-50_i32, 0, 3]),
        Some(9),
    )
    .unwrap();
    let first: Vec<Vec<i32>> = (0..20).map(|_| space.sample().into_vec()).collect();
    space.seed(9);
    let again: Vec<Vec<i32>> = (0..20).map(|_| space.sample().into_vec()).collect();
    assert_eq!(first, again);
}

#[test]
fn clone_continues_same_stream() {
    let mut a = BoxSpaceIndependent::new(
        NdArray::from_vec(vec![0_i64, -10]),
        NdArray::from_vec(vec![1000_i64, 10]),
        Some(4),
    )
    .unwrap();
    let mut b = a.clone();
    assert_eq!(a.sample().as_vec(), b.sample().as_vec());
}

#[test]
fn samples_always_contained() {
    let mut d = DiscreteSpace::new(5, -2_i8, None).unwrap();
    let mut bi = BoxSpaceIdentical::new(-3_i16, 3, vec![2, 3], None).unwrap();
    let mut bd = BoxSpaceIndependent::new(
        NdArray::from_vec(vec![0_u32, 10, 20]),
        NdArray::from_vec(vec![0_u32, 15, 1000]),
        None,
    )
    .unwrap();
    let mut md = MultiDiscreteSpace::new(
        NdArray::from_vec(vec![1_usize, 2, 3]),
        NdArray::from_vec(vec![0_usize, 5, usize::MAX - 3]),
        None,
    )
    .unwrap();
    let mut mb = MultiBinarySpace::new(vec![4], None);
    let mut t = TextSpace::new(2, 9, None).unwrap();
    for _ in 0..10_000 {
        let v = d.sample();
        assert!(d.contains(&v));
        let v = bi.sample();
        assert!(bi.contains(&v));
        let v = bd.sample();
        assert!(bd.contains(&v));
        let v = md.sample();
        assert!(md.contains(&v));
        let v = mb.sample();
        assert!(mb.contains(&v));
        let v = t.sample();
        assert!(t.contains(&v));
    }
}

#[test]
fn ndarray_construction() {
    assert!(NdArray::new(vec![2, 3], vec![0_u8; 6]).is_some());
    assert!(NdArray::new(vec![2, 3], vec![0_u8; 5]).is_none());
    assert!(NdArray::new(vec![], vec![1_u8]).is_some());
    assert!(NdArray::new(vec![usize::MAX, 2], Vec::<u8>::new()).is_none());
    assert!(NdArray::new(vec![usize::MAX, 2, 0], Vec::<u8>::new()).is_some());
    let a = NdArray::from_vec(vec![1, 2, 3]);
    assert_eq!(a.shape(), &vec![3]);
    assert_eq!(a.len(), 3);
    assert!(a.has_shape(&vec![3]));
    assert!(!a.has_shape(&vec![1, 3]));
    let c = a.copy();
    assert_eq!(c.as_vec(), a.as_vec());
}

#[test]
fn composite_and_render_mode() {
    let _v: VecSpace<TextSpace> = VecSpace::new();
    let _h: HashMapSpace<DiscreteSpace<u8>> = HashMapSpace::new();
    assert_ne!(RenderMode::Disabled, RenderMode::Human);
    assert_eq!(RenderMode::Text, RenderMode::Text);
    assert_ne!(RenderMode::Image, RenderMode::Text);
}
