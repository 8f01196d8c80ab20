use reactive_effects::world::is_leaf;

#[test]
fn names_with_the_word_are_leaves() {
    assert!(is_leaf("leaf"));
    assert!(is_leaf("leaf.001"));
    assert!(is_leaf("tree_leaf"));
    assert!(is_leaf("big leaf cluster"));
    assert!(is_leaf("leleaf"));
    assert!(is_leaf("lealeaf"));
    assert!(is_leaf("blätterleaf"));
}

#[test]
fn other_names_are_not() {
    assert!(!is_leaf(""));
    assert!(!is_leaf("lea"));
    assert!(!is_leaf("trunk"));
    assert!(!is_leaf("Leaf"));
    assert!(!is_leaf("lea f"));
    assert!(!is_leaf("fael"));
    assert!(!is_leaf("le\u{e4}f"));
}

#[test]
fn agrees_with_the_search_of_the_standard_library() {
    let parts = ["", "l", "le", "lea", "leaf", "f", "af", "x", "\u{fc}", " "];
    for first in parts {
        for second in parts {
            for third in parts {
                let name = format!("{first}{second}{third}");
                assert_eq!(is_leaf(&name), name.contains("leaf"));
            }
        }
    }
}
