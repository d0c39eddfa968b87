use rusty::config::yaml_tree::{copy_tree, merge_yaml_values, same_tree, YamlTree};

fn text(s: &str) -> YamlTree {
    YamlTree::Text(s.to_string())
}

fn num(s: &str) -> YamlTree {
    YamlTree::Number(s.to_string())
}

fn map(entries: Vec<(&str, YamlTree)>) -> YamlTree {
    YamlTree::Mapping(entries.into_iter().map(|(k, v)| (text(k), v)).collect())
}

#[test]
fn override_mapping_keys_are_merged_in_place_and_new_keys_appended() {
    let mut target = map(vec![
        ("threads", num("4")),
        ("chunk", map(vec![("size", num("1000")), ("mode", text("fixed"))])),
        ("name", text("base")),
    ]);
    let over = map(vec![
        ("chunk", map(vec![("size", num("50")), ("extra", YamlTree::Bool(true))])),
        ("output", text("out")),
    ]);
    merge_yaml_values(&mut target, &over);
    let expected = map(vec![
        ("threads", num("4")),
        ("chunk", map(vec![("size", num("50")), ("mode", text("fixed")), ("extra", YamlTree::Bool(true))])),
        ("name", text("base")),
        ("output", text("out")),
    ]);
    assert!(same_tree(&target, &expected), "{:?}", target);
}

#[test]
fn sequences_and_scalars_replace_the_target() {
    let mut target = map(vec![("list", YamlTree::Sequence(vec![num("1"), num("2"), num("3")]))]);
    let over = map(vec![("list", YamlTree::Sequence(vec![num("9")]))]);
    merge_yaml_values(&mut target, &over);
    assert!(same_tree(&target, &map(vec![("list", YamlTree::Sequence(vec![num("9")]))])));

    let mut scalar = num("7");
    merge_yaml_values(&mut scalar, &over);
    assert!(same_tree(&scalar, &over));

    let mut mapping = map(vec![("a", num("1"))]);
    merge_yaml_values(&mut mapping, &YamlTree::Null);
    assert!(same_tree(&mapping, &YamlTree::Null));
}

#[test]
fn merging_twice_is_merging_once() {
    let base = map(vec![("a", num("1")), ("b", map(vec![("c", text("x"))]))]);
    let over = map(vec![("b", map(vec![("d", text("y"))])), ("e", YamlTree::Null)]);
    let mut once = copy_tree(&base);
    merge_yaml_values(&mut once, &over);
    let mut twice = copy_tree(&once);
    merge_yaml_values(&mut twice, &over);
    assert!(same_tree(&once, &twice));
    let mut itself = copy_tree(&over);
    merge_yaml_values(&mut itself, &over);
    assert!(same_tree(&itself, &over));
}

#[test]
fn trees_compare_by_content() {
    let a = YamlTree::Tagged("!x".to_string(), Box::new(map(vec![("k", num("1"))])));
    let b = YamlTree::Tagged("!x".to_string(), Box::new(map(vec![("k", num("1"))])));
    let c = YamlTree::Tagged("!y".to_string(), Box::new(map(vec![("k", num("1"))])));
    assert!(same_tree(&a, &b));
    assert!(!same_tree(&a, &c));
    assert!(!same_tree(&num("1"), &text("1")));
    assert!(!same_tree(&YamlTree::Sequence(vec![num("1")]), &YamlTree::Sequence(vec![])));
    assert!(same_tree(&copy_tree(&a), &a));
}

#[test]
fn the_last_override_layer_wins() {
    let mut config = map(vec![("threads", num("4")), ("dir", text("base"))]);
    let defaults = map(vec![("threads", num("8")), ("dir", text("defaults"))]);
    let env = map(vec![("threads", num("16"))]);
    let local = map(vec![("threads", num("2"))]);
    merge_yaml_values(&mut config, &defaults);
    merge_yaml_values(&mut config, &env);
    merge_yaml_values(&mut config, &local);
    assert!(same_tree(&config, &map(vec![("threads", num("2")), ("dir", text("defaults"))])));
}
