use azul::FfiOption;

#[test]
fn into_option_round_trips_both_variants() {
    assert_eq!(FfiOption::Present(5i32).into_option(), Some(5));
    assert_eq!(FfiOption::<i32>::Absent.into_option(), None);
    assert_eq!(FfiOption::from_opt(Some(5i32)), FfiOption::Present(5));
    assert_eq!(FfiOption::<i32>::from_opt(None), FfiOption::Absent);
}

#[test]
fn map_applies_the_function_to_the_payload() {
    assert_eq!(FfiOption::Present(5i32).map(|x| x + 1), Some(6));
    assert_eq!(FfiOption::<i32>::Absent.map(|x| x + 1), None);
}

#[test]
fn map_with_identity_changes_nothing() {
    assert_eq!(FfiOption::Present(5i32).map(|x| x), Some(5));
    assert_eq!(FfiOption::<i32>::Absent.map(|x| x), None);
}

#[test]
fn and_then_chains_fallible_continuations() {
    let half = |x: i32| if x % 2 == 0 { Some(x / 2) } else { None };
    assert_eq!(FfiOption::Present(8i32).and_then(half), Some(4));
    assert_eq!(FfiOption::Present(7i32).and_then(half), None);
    assert_eq!(FfiOption::<i32>::Absent.and_then(half), None);
}

#[test]
fn replace_swaps_and_returns_the_previous_state() {
    let mut o = FfiOption::<i32>::Absent;
    assert_eq!(o.replace(3), FfiOption::Absent);
    assert_eq!(o.replace(4), FfiOption::Present(3));
    assert_eq!(o, FfiOption::Present(4));
}

#[test]
fn queries_and_references() {
    let o = FfiOption::Present(2i32);
    assert!(o.is_some());
    assert!(!o.is_none());
    assert_eq!(o.as_ref(), Some(&2));
    assert_eq!(o.as_option(), Some(&2));
    let n = FfiOption::<i32>::Absent;
    assert!(n.is_none());
    assert_eq!(n.as_ref(), None);
    assert_eq!(FfiOption::<i32>::default(), FfiOption::Absent);
}
