use templatex::filter::{Filter, FilterFn};

#[test]
fn filter_test() {
    let filter = Filter::<String>::with_filter(vec!["a".to_string(), "b".to_string()])
        .add_filter("c".to_string());
    assert!(filter.filter("ajdkfjldsafhjka"));
    assert!(filter.filter("b"));
    assert!(filter.filter("c"));
    assert!(!filter.filter("d"));
}

#[test]
fn filter_pattern_set_matching() {
    let f = Filter::<String>::with_filter(vec!["a".to_string(), "b".to_string()]);
    assert!(f.filter("xaxbc"));
    assert!(!f.filter("c"));
    assert!(!f.filter(""));
}

#[test]
fn empty_filter_matches_nothing() {
    let f = Filter::<String>::new();
    assert!(!f.filter(""));
    assert!(!f.filter("anything"));
}

#[test]
fn empty_pattern_matches_everything() {
    let f = Filter::<String>::with_filter(vec!["".to_string()]);
    assert!(f.filter(""));
    assert!(f.filter("anything"));
}

#[test]
fn nested_filters_flatten_to_any_of() {
    let inner_a = Filter::<String>::with_filter(vec!["alpha".to_string()]);
    let inner_b = Filter::<String>::with_filter(vec!["beta".to_string()]);
    let nested = Filter::<Filter<String>>::with_filter(vec![inner_a, inner_b]);
    assert!(nested.filter("xx alpha xx"));
    assert!(nested.filter("beta"));
    assert!(!nested.filter("gamma"));
}

#[test]
fn replace_and_get_filter() {
    let mut f = Filter::<String>::with_filter(vec!["old".to_string()]);
    f.replace_filter(vec!["new".to_string()]);
    assert_eq!(f.get_filter(), &vec!["new".to_string()]);
    assert!(f.filter("renewal"));
    assert!(!f.filter("old"));
}
