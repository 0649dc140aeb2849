use enum_from_discriminant::discriminant::{biggest_discriminant, effective_discriminants};

#[test]
fn implicit_discriminants_count_from_zero() {
    assert_eq!(effective_discriminants(&vec![None, None, None, None]), Some(vec![0, 1, 2, 3]));
}

#[test]
fn explicit_discriminants_are_kept() {
    assert_eq!(
        effective_discriminants(&vec![Some(0), Some(1), Some(2), Some(3)]),
        Some(vec![0, 1, 2, 3])
    );
    assert_eq!(effective_discriminants(&vec![Some(9), Some(4), Some(7)]), Some(vec![9, 4, 7]));
}

#[test]
fn implicit_discriminant_follows_its_predecessor() {
    assert_eq!(
        effective_discriminants(&vec![None, Some(1), Some(2003), Some(153), None]),
        Some(vec![0, 1, 2003, 153, 154])
    );
    assert_eq!(
        effective_discriminants(&vec![Some(10), None, None, Some(5), None]),
        Some(vec![10, 11, 12, 5, 6])
    );
    assert_eq!(
        effective_discriminants(&vec![None, None, Some(16_381)]),
        Some(vec![0, 1, 16_381])
    );
}

#[test]
fn no_variants_no_discriminants() {
    assert_eq!(effective_discriminants(&vec![]), Some(vec![]));
    assert_eq!(biggest_discriminant(&vec![]), None);
}

#[test]
fn largest_explicit_discriminant_is_reached() {
    assert_eq!(effective_discriminants(&vec![Some(u64::MAX)]), Some(vec![u64::MAX]));
    assert_eq!(
        effective_discriminants(&vec![Some(u64::MAX - 1), None]),
        Some(vec![u64::MAX - 1, u64::MAX])
    );
}

#[test]
fn implicit_discriminant_after_the_largest_does_not_fit() {
    assert_eq!(effective_discriminants(&vec![Some(u64::MAX), None]), None);
    assert_eq!(effective_discriminants(&vec![Some(u64::MAX - 1), None, None]), None);
    assert_eq!(effective_discriminants(&vec![None, Some(u64::MAX), None, Some(3)]), None);
}

#[test]
fn explicit_discriminant_after_the_largest_fits() {
    assert_eq!(
        effective_discriminants(&vec![Some(u64::MAX), Some(0), None]),
        Some(vec![u64::MAX, 0, 1])
    );
}

#[test]
fn biggest_discriminant_is_the_maximum() {
    assert_eq!(biggest_discriminant(&vec![0, 1, 2, 3]), Some(3));
    assert_eq!(biggest_discriminant(&vec![0, 1, 2003, 153, 154]), Some(2003));
    assert_eq!(biggest_discriminant(&vec![7]), Some(7));
    assert_eq!(biggest_discriminant(&vec![0]), Some(0));
    assert_eq!(biggest_discriminant(&vec![5, 5, 5]), Some(5));
    assert_eq!(biggest_discriminant(&vec![u64::MAX, 0]), Some(u64::MAX));
    assert_eq!(biggest_discriminant(&vec![3, 2, 1]), Some(3));
}
