use componentize_go::features::FeatureSet;
use componentize_go::paths::wit_source_paths;

fn sorted(set: &FeatureSet) -> Vec<String> {
    let mut v = set.names.clone();
    v.sort();
    v
}

#[test]
fn features_split_on_commas_and_spaces() {
    let set = FeatureSet::parse(&vec!["a, b  c".to_string()], false);
    assert_eq!(sorted(&set), vec!["a", "b", "c"]);
    assert!(!set.all_features);
}

#[test]
fn features_of_separators_only_are_empty() {
    let inputs = vec![", ,".to_string(), " \t\n".to_string(), String::new(), ",\u{3000},".to_string()];
    let set = FeatureSet::parse(&inputs, true);
    assert!(set.names.is_empty());
    assert!(set.all_features);
}

#[test]
fn features_keep_case_and_drop_repeats() {
    let inputs = vec!["x,X".to_string(), "x y,x".to_string()];
    let set = FeatureSet::parse(&inputs, false);
    assert_eq!(set.names, vec!["x", "X", "y"]);
}

#[test]
fn no_sources_means_wit_directory() {
    assert_eq!(wit_source_paths(&vec![]), vec!["wit".to_string()]);
    let given = vec!["a".to_string(), "b/c.wit".to_string()];
    assert_eq!(wit_source_paths(&given), given);
}
