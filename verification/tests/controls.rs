use buttons::controls::contains;
use buttons::controls::remove_matching;

#[test]
fn contains_finds_equal_entries() {
    let items: Vec<u32> = vec![4, 8, 15];
    assert!(contains(&items, &4));
    assert!(contains(&items, &15));
    assert!(!contains(&items, &16));
    let none: Vec<u32> = Vec::new();
    assert!(!contains(&none, &4));
}

#[test]
fn remove_matching_keeps_the_others_in_order() {
    let mut items: Vec<u32> = vec![4, 8, 4, 15, 4, 16];
    remove_matching(&mut items, &4);
    assert_eq!(items, vec![8, 15, 16]);
    remove_matching(&mut items, &4);
    assert_eq!(items, vec![8, 15, 16]);
    remove_matching(&mut items, &16);
    assert_eq!(items, vec![8, 15]);
}

#[test]
fn remove_matching_can_empty_the_list() {
    let mut items: Vec<u32> = vec![4, 4];
    remove_matching(&mut items, &4);
    assert!(items.is_empty());
    remove_matching(&mut items, &4);
    assert!(items.is_empty());
}

#[test]
fn a_value_unequal_to_itself_is_never_found() {
    let items: Vec<f64> = vec![f64::NAN, 1.0];
    assert!(!contains(&items, &f64::NAN));
    assert!(contains(&items, &1.0));
}
