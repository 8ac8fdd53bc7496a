use readme_gen::document::Readme;

#[test]
fn fresh_document_takes_the_given_name() {
    let d = Readme::new("leaf".to_string());
    assert_eq!(d.name, "leaf");
    assert_eq!(d.description, "");
    assert_eq!(d.image.text, "screenshot");
    assert_eq!(d.image.url, "");
    assert!(d.commands.is_empty());
    assert_eq!(d.usage, "");
}

#[test]
fn commands_empty_only_when_all_are_empty() {
    let mut d = Readme::new("p".to_string());
    assert!(d.commands.is_empty());
    d.commands.deps = "a".to_string();
    assert!(!d.commands.is_empty());
    d.commands.deps = String::new();
    d.commands.build = "b".to_string();
    assert!(!d.commands.is_empty());
    d.commands.build = String::new();
    d.commands.test = "c".to_string();
    assert!(!d.commands.is_empty());
    d.commands.test = String::new();
    d.commands.install = "d".to_string();
    assert!(!d.commands.is_empty());
    d.commands.install = String::new();
    assert!(d.commands.is_empty());
}

#[test]
fn commands_by_position() {
    let mut d = Readme::new("p".to_string());
    d.commands.set(0, "a".to_string());
    d.commands.set(1, "b".to_string());
    d.commands.set(2, "c".to_string());
    d.commands.set(3, "d".to_string());
    assert_eq!(d.commands.deps, "a");
    assert_eq!(d.commands.build, "b");
    assert_eq!(d.commands.test, "c");
    assert_eq!(d.commands.install, "d");
    assert_eq!(d.commands.get(2), "c");
}
