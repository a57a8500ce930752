use kar::config::Simlayer;
use kar::simlayers::Simlayers;

fn layer(key: &str, threshold: Option<u32>) -> Simlayer {
    Simlayer { key: key.to_string(), threshold }
}

fn name(text: &str) -> String {
    text.to_string()
}

#[test]
fn new_table_holds_nothing() {
    let table = Simlayers::new();
    assert_eq!(table.get(&name("nav")), None);
    assert_eq!(table.get(&name("")), None);
    assert!(table.entries().is_empty());
}

#[test]
fn inserted_layer_is_found_by_its_name() {
    let mut table = Simlayers::new();
    assert_eq!(table.insert(name("nav"), layer("f", None)), None);
    assert_eq!(table.insert(name("sym"), layer("d", Some(120))), None);
    assert_eq!(table.get(&name("nav")), Some(&layer("f", None)));
    assert_eq!(table.get(&name("sym")), Some(&layer("d", Some(120))));
    assert_eq!(table.get(&name("Nav")), None);
    assert_eq!(table.get(&name("na")), None);
}

#[test]
fn inserting_a_bound_name_replaces_its_layer_and_returns_the_old_one() {
    let mut table = Simlayers::new();
    table.insert(name("nav"), layer("f", None));
    table.insert(name("sym"), layer("d", Some(120)));
    table.insert(name("num"), layer("s", None));
    assert_eq!(table.insert(name("sym"), layer("x", Some(7))), Some(layer("d", Some(120))));
    assert_eq!(table.get(&name("sym")), Some(&layer("x", Some(7))));
    assert_eq!(table.get(&name("nav")), Some(&layer("f", None)));
    assert_eq!(table.get(&name("num")), Some(&layer("s", None)));
    assert_eq!(table.entries().len(), 3);
}

#[test]
fn entries_name_each_layer_once() {
    let mut table = Simlayers::new();
    table.insert(name("nav"), layer("f", None));
    table.insert(name("sym"), layer("d", None));
    table.insert(name("nav"), layer("g", None));
    let mut names: Vec<&str> = table.entries().iter().map(|(n, _)| n.as_str()).collect();
    names.sort();
    assert_eq!(names, vec!["nav", "sym"]);
    for (n, l) in table.entries() {
        assert_eq!(table.get(n), Some(l));
    }
}

#[test]
fn cloned_table_holds_the_same_layers() {
    let mut table = Simlayers::new();
    table.insert(name("nav"), layer("f", Some(90)));
    table.insert(name("sym"), layer("d", None));
    let mut copy = table.clone();
    assert_eq!(copy.get(&name("nav")), Some(&layer("f", Some(90))));
    assert_eq!(copy.get(&name("sym")), Some(&layer("d", None)));
    assert_eq!(copy.entries().len(), 2);
    copy.insert(name("nav"), layer("z", None));
    assert_eq!(table.get(&name("nav")), Some(&layer("f", Some(90))));
}
