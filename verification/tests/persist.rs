use litsdf::persist::{contains_str, is_scene_file_name, list_scene_names, load_error_message, sort_names};

#[test]
fn list_scenes_finds_yaml() {
    let entries = vec!["scene1.yaml".to_string(), "scene2.yml".to_string(), "readme.txt".to_string()];
    let names = list_scene_names(entries);
    assert_eq!(names.len(), 2);
    assert!(names.contains(&"scene1.yaml".to_string()));
    assert!(names.contains(&"scene2.yml".to_string()));
}

#[test]
fn scene_names_are_sorted() {
    let entries = vec!["b.yaml".to_string(), "a.yml".to_string(), "ab.yaml".to_string(), "A.yaml".to_string()];
    assert_eq!(list_scene_names(entries), vec!["A.yaml", "a.yml", "ab.yaml", "b.yaml"]);
    assert_eq!(sort_names(vec!["zz".to_string(), "z".to_string(), "".to_string()]), vec!["", "z", "zz"]);
}

#[test]
fn extension_rules() {
    assert!(is_scene_file_name("x.yaml"));
    assert!(is_scene_file_name("a.b.yml"));
    assert!(is_scene_file_name("..yaml"));
    assert!(!is_scene_file_name(".yaml"));
    assert!(!is_scene_file_name("yaml"));
    assert!(!is_scene_file_name("x.YAML"));
    assert!(!is_scene_file_name("x.yaml.bak"));
    assert!(!is_scene_file_name(".."));
}

#[test]
fn legacy_fields_get_a_note() {
    let plain = load_error_message("missing field `name`");
    assert_eq!(plain, "missing field `name`");
    let legacy = load_error_message("unknown field `anim_scale`, expected one of");
    assert!(legacy.starts_with("Scene file uses legacy animation fields (anim_tx, anim_ty, etc.) which have been removed."));
    assert!(legacy.contains("\nTo migrate: remove all anim_* fields"));
    assert!(legacy.ends_with("Original error: unknown field `anim_scale`, expected one of"));
}

#[test]
fn substring_search() {
    assert!(contains_str("abcabd", "abd"));
    assert!(!contains_str("abcab", "abd"));
    assert!(contains_str("x", ""));
    assert!(!contains_str("", "x"));
}
