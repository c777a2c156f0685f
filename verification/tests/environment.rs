use agent_master::environment::Environment;

fn pair(name: &str, value: &str) -> (String, String) {
    (name.to_string(), value.to_string())
}

#[test]
fn the_last_of_a_name_wins_and_names_come_in_order() {
    let pairs = vec![pair("B", "1"), pair("A", "2"), pair("B", "3"), pair("", "4")];
    let env = Environment::from_pairs(&pairs);
    assert_eq!(env.pairs(), &vec![pair("", "4"), pair("A", "2"), pair("B", "3")]);
}

#[test]
fn names_are_ordered_as_texts_are() {
    let names = ["PATH", "PAT", "é", "z", "Z", "PATH_", "𐀀", "\u{ffff}"];
    let pairs: Vec<(String, String)> = names.iter().map(|name| pair(name, "x")).collect();
    let env = Environment::from_pairs(&pairs);
    let mut expected = pairs.clone();
    expected.sort();
    assert_eq!(env.pairs(), &expected);
}

#[test]
fn a_name_is_set_again() {
    let mut env = Environment::new();
    assert!(env.pairs().is_empty());
    env.set("TERM".to_string(), "dumb".to_string());
    env.set("HOME".to_string(), "/".to_string());
    env.set("TERM".to_string(), "xterm-256color".to_string());
    assert_eq!(env.pairs(), &vec![pair("HOME", "/"), pair("TERM", "xterm-256color")]);
}

#[test]
fn a_copy_has_the_same_variables_and_a_life_of_its_own() {
    let env = Environment::from_pairs(&vec![pair("B", "1"), pair("A", "2")]);
    let mut copy = env.clone();
    assert_eq!(copy, env);
    copy.set("C".to_string(), "3".to_string());
    assert_eq!(copy.pairs(), &vec![pair("A", "2"), pair("B", "1"), pair("C", "3")]);
    assert_eq!(env.pairs(), &vec![pair("A", "2"), pair("B", "1")]);
}
