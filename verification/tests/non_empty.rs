use threadstat::non_empty::{MaybeNonEmpty, NonEmpty};

#[test]
fn single_holds_its_value() {
    let ne = NonEmpty::new_single(7u32);
    assert_eq!(*ne.first(), 7);
    assert_eq!(ne.len(), 1);
    assert_eq!(ne.as_slice(), &[7]);
}

#[test]
fn never_empty() {
    assert!(!NonEmpty::<u8>::is_empty());
}

#[test]
fn first_mut_writes_the_first_element() {
    let mut ne = NonEmpty::new_single(String::from("a"));
    *ne.first_mut() = String::from("b");
    assert_eq!(ne.first(), "b");
}

#[test]
fn iter_walks_in_order() {
    let ne = MaybeNonEmpty::from_vec(vec![1, 2, 3]).into_option().unwrap();
    let seen: Vec<i32> = ne.iter().copied().collect();
    assert_eq!(seen, vec![1, 2, 3]);
    assert_eq!(*ne.get(2), 3);
}

#[test]
fn iter_mut_writes_in_place() {
    let mut ne = MaybeNonEmpty::from_vec(vec![1, 2, 3]).into_option().unwrap();
    for x in ne.iter_mut() {
        *x *= 10;
    }
    assert_eq!(ne.into_vec(), vec![10, 20, 30]);
}

#[test]
fn empty_collection_gives_none() {
    let m: MaybeNonEmpty<u8> = MaybeNonEmpty::from_vec(Vec::new());
    assert!(m.as_option().is_none());
    assert!(m.into_option().is_none());
}

#[test]
fn non_empty_collection_keeps_everything() {
    let m = MaybeNonEmpty::from_vec(vec!['x', 'y']);
    let ne = m.into_option().expect("two elements");
    assert_eq!(ne.len(), 2);
    assert_eq!(*ne.first(), 'x');
}

#[test]
fn std_conversions() {
    let ne = MaybeNonEmpty::from_vec(vec![4, 5]).into_option().unwrap();
    assert_eq!(ne.len(), 2);
    assert_eq!(&*ne, &[4, 5]);
    let r: &[i32] = ne.as_ref();
    assert_eq!(r, &[4, 5]);
    let borrowed: Vec<i32> = (&ne).into_iter().copied().collect();
    assert_eq!(borrowed, vec![4, 5]);
    let v: Vec<i32> = Vec::from(ne);
    assert_eq!(v, vec![4, 5]);
    let owned: Vec<char> = NonEmpty::new_single('q').into_iter().collect();
    assert_eq!(owned, vec!['q']);
    let m = MaybeNonEmpty::from_vec(vec![1u8]);
    assert!(m.is_some());
    let o: Option<NonEmpty<u8>> = m.into();
    assert_eq!(o.map(|n| n.len()), Some(1));
}

#[test]
fn clones_compare_and_index_like_the_elements() {
    let a = MaybeNonEmpty::from_vec(vec![3, 1, 2]).into_option().unwrap();
    let b = a.clone();
    assert_eq!(a, b);
    assert_eq!(b[0], 3);
    assert_eq!(b[2], 2);
    let c = MaybeNonEmpty::from_vec(vec![3, 1, 5]).into_option().unwrap();
    assert!(a < c);
    let mut d = c.clone();
    d.as_mut()[2] = 2;
    assert_eq!(d, a);
    let m = MaybeNonEmpty::from_vec(vec![1u8]);
    assert_eq!(m.clone(), m);
}
