use raise::{Client, MatchCondition, MatchField, Matcher};

fn build_client(
    class: &str,
    initial_class: Option<&str>,
    title: Option<&str>,
    initial_title: Option<&str>,
    tag: Option<&str>,
    xdg_tag: Option<&str>,
) -> Client {
    Client {
        class: class.to_owned(),
        address: "0x123".to_owned(),
        initial_class: initial_class.map(str::to_owned),
        title: title.map(str::to_owned),
        initial_title: initial_title.map(str::to_owned),
        tag: tag.map(str::to_owned),
        xdg_tag: xdg_tag.map(str::to_owned),
    }
}

fn matches(condition: &MatchCondition, client: &Client) -> bool {
    condition.matches(client)
}

#[test]
fn matches_class_field() {
    let client = build_client("Firefox", None, None, None, None, None);
    let condition = MatchCondition::new(MatchField::Class, Matcher::Equals("Firefox".to_string()));
    assert!(matches(&condition, &client));

    let failing = MatchCondition::new(MatchField::Class, Matcher::Equals("Chromium".to_string()));
    assert!(!matches(&failing, &client));
}

#[test]
fn matches_title_field() {
    let client = build_client("Firefox", None, Some("Docs - Firefox"), None, None, None);
    let condition = MatchCondition::new(MatchField::Title, Matcher::Contains("Docs".to_string()));
    assert!(matches(&condition, &client));

    let failing = MatchCondition::new(MatchField::Title, Matcher::Contains("Other".to_string()));
    assert!(!matches(&failing, &client));
}

#[test]
fn matches_initial_class_field() {
    let client = build_client("Firefox", Some("firefox"), None, None, None, None);
    let condition = MatchCondition::new(
        MatchField::InitialClass,
        Matcher::Equals("firefox".to_string()),
    );
    assert!(matches(&condition, &client));

    let failing = MatchCondition::new(
        MatchField::InitialClass,
        Matcher::Equals("kitty".to_string()),
    );
    assert!(!matches(&failing, &client));
}

#[test]
fn matches_initial_title_field() {
    let client = build_client(
        "Firefox",
        None,
        Some("Docs - Firefox"),
        Some("Welcome"),
        None,
        None,
    );
    let condition = MatchCondition::new(
        MatchField::InitialTitle,
        Matcher::Equals("Welcome".to_string()),
    );
    assert!(matches(&condition, &client));

    let failing = MatchCondition::new(
        MatchField::InitialTitle,
        Matcher::Equals("Other".to_string()),
    );
    assert!(!matches(&failing, &client));
}

#[test]
fn matches_tag_field() {
    let client = build_client("Firefox", None, None, None, Some("work"), None);
    let condition = MatchCondition::new(MatchField::Tag, Matcher::Equals("work".to_string()));
    assert!(matches(&condition, &client));

    let failing = MatchCondition::new(MatchField::Tag, Matcher::Equals("play".to_string()));
    assert!(!matches(&failing, &client));
}

#[test]
fn matches_xdgtag_field() {
    let client = build_client("Firefox", None, None, None, None, Some("browser"));
    let condition =
        MatchCondition::new(MatchField::XdgTag, Matcher::Equals("browser".to_string()));
    assert!(matches(&condition, &client));

    let failing = MatchCondition::new(MatchField::XdgTag, Matcher::Equals("video".to_string()));
    assert!(!matches(&failing, &client));
}

#[test]
fn equals_is_exact() {
    let m = Matcher::Equals("Fire".to_string());
    assert!(m.matches("Fire"));
    assert!(!m.matches("Firefox"));
    assert!(!m.matches("fire"));
    assert!(!m.matches("Fire "));
}

#[test]
fn contains_prefix_suffix_relations() {
    let contains = Matcher::Contains("ref".to_string());
    assert!(contains.matches("Firefox"));
    assert!(!contains.matches("Fire"));
    assert!(!contains.matches("re"));

    let prefix = Matcher::Prefix("Fire".to_string());
    assert!(prefix.matches("Firefox"));
    assert!(prefix.matches("Fire"));
    assert!(!prefix.matches("xFire"));
    assert!(!prefix.matches("Fir"));

    let suffix = Matcher::Suffix("fox".to_string());
    assert!(suffix.matches("Firefox"));
    assert!(suffix.matches("fox"));
    assert!(!suffix.matches("foxy"));
    assert!(!suffix.matches("ox"));
}

#[test]
fn non_ascii_text_compares_by_character() {
    let contains = Matcher::Contains("é – F".to_string());
    assert!(contains.matches("Café – Firefox"));
    let suffix = Matcher::Suffix("ü".to_string());
    assert!(suffix.matches("Menü"));
    assert!(!suffix.matches("Menu"));
}

#[test]
fn regex_searches_anywhere() {
    let m = Matcher::from_tokens(Some("re"), "fox$").ok().unwrap();
    assert!(m.matches("Firefox"));
    assert!(!m.matches("Firefox ESR"));
    let anchored = Matcher::from_tokens(Some("regex"), "^fox").ok().unwrap();
    assert!(!anchored.matches("Firefox"));
    assert!(anchored.matches("foxglove"));
    let inner = Matcher::from_tokens(Some("regex"), "e.o").ok().unwrap();
    assert!(inner.matches("Firefox"));
    assert!(!inner.matches("Firefax"));
}

#[test]
fn absent_field_never_matches() {
    let client = build_client("Firefox", None, None, None, None, None);
    let empty_regex = Matcher::from_tokens(Some("regex"), ".*").ok().unwrap();
    assert!(!MatchCondition::new(MatchField::Title, empty_regex).matches(&client));
    let fields = [
        MatchField::InitialClass,
        MatchField::Title,
        MatchField::InitialTitle,
        MatchField::Tag,
        MatchField::XdgTag,
    ];
    for field in fields {
        assert!(!MatchCondition::new(field, Matcher::Contains("F".to_string())).matches(&client));
        assert!(!MatchCondition::new(field, Matcher::Prefix("F".to_string())).matches(&client));
        assert!(!MatchCondition::new(field, Matcher::Suffix("x".to_string())).matches(&client));
        assert!(!MatchCondition::new(field, Matcher::Equals("Firefox".to_string())).matches(&client));
    }
}

#[test]
fn field_aliases_resolve() {
    assert!(matches!(MatchField::parse("class"), Some(MatchField::Class)));
    assert!(matches!(MatchField::parse("c"), Some(MatchField::Class)));
    assert!(matches!(MatchField::parse("initial-class"), Some(MatchField::InitialClass)));
    assert!(matches!(MatchField::parse("initialClass"), Some(MatchField::InitialClass)));
    assert!(matches!(MatchField::parse("title"), Some(MatchField::Title)));
    assert!(matches!(MatchField::parse("initial-title"), Some(MatchField::InitialTitle)));
    assert!(matches!(MatchField::parse("initialTitle"), Some(MatchField::InitialTitle)));
    assert!(matches!(MatchField::parse("tag"), Some(MatchField::Tag)));
    assert!(matches!(MatchField::parse("xdgtag"), Some(MatchField::XdgTag)));
    assert!(matches!(MatchField::parse("xdg-tag"), Some(MatchField::XdgTag)));
    assert!(matches!(MatchField::parse("xdgTag"), Some(MatchField::XdgTag)));
    assert!(MatchField::parse("Class").is_none());
    assert!(MatchField::parse(" class").is_none());
    assert!(MatchField::parse("").is_none());
}

#[test]
fn field_value_reads_the_selected_attribute() {
    let client = build_client("Firefox", Some("firefox"), Some("Docs"), None, Some("work"), None);
    assert_eq!(MatchField::Class.value(&client), Some("Firefox"));
    assert_eq!(MatchField::InitialClass.value(&client), Some("firefox"));
    assert_eq!(MatchField::Title.value(&client), Some("Docs"));
    assert_eq!(MatchField::InitialTitle.value(&client), None);
    assert_eq!(MatchField::Tag.value(&client), Some("work"));
    assert_eq!(MatchField::XdgTag.value(&client), None);
}
