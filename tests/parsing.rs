use raise::{parse_match_condition, Args, ConditionError, MatchCondition, MatchField, Matcher};

fn pattern_of(m: &Matcher) -> String {
    match m {
        Matcher::Equals(p) | Matcher::Contains(p) | Matcher::Prefix(p) | Matcher::Suffix(p) => {
            p.clone()
        }
        Matcher::Regex(re) => re.as_str().to_string(),
    }
}

#[test]
fn parses_field_and_default_method() {
    let c = parse_match_condition("title=Docs").ok().unwrap();
    assert_eq!(c.field, MatchField::Title);
    assert!(matches!(c.matcher, Matcher::Equals(ref p) if p == "Docs"));
}

#[test]
fn explicit_equals_is_the_default() {
    for raw in ["c:equals=Fire=fox", "c:eq=Fire=fox", "c=Fire=fox"] {
        let c = parse_match_condition(raw).ok().unwrap();
        assert_eq!(c.field, MatchField::Class);
        assert!(matches!(c.matcher, Matcher::Equals(ref p) if p == "Fire=fox"));
    }
}

#[test]
fn parses_each_method_alias() {
    let cases = [
        ("title:contains=Do", 'c'),
        ("title:substr=Do", 'c'),
        ("title:prefix=Do", 'p'),
        ("title:starts-with=Do", 'p'),
        ("title:startswith=Do", 'p'),
        ("title:suffix=Do", 's'),
        ("title:ends-with=Do", 's'),
        ("title:endswith=Do", 's'),
        ("title:regex=Do", 'r'),
        ("title:re=Do", 'r'),
    ];
    for (raw, kind) in cases {
        let c = parse_match_condition(raw).ok().unwrap();
        let got = match c.matcher {
            Matcher::Contains(_) => 'c',
            Matcher::Prefix(_) => 'p',
            Matcher::Suffix(_) => 's',
            Matcher::Regex(_) => 'r',
            Matcher::Equals(_) => 'e',
        };
        assert_eq!(got, kind, "{raw}");
        assert_eq!(pattern_of(&c.matcher), "Do");
    }
}

#[test]
fn method_split_at_first_colon() {
    let c = parse_match_condition("title:re=a:b").ok().unwrap();
    assert!(matches!(c.matcher, Matcher::Regex(_)));
    assert_eq!(pattern_of(&c.matcher), "a:b");
}

#[test]
fn missing_separator_is_rejected() {
    let e = parse_match_condition("class").err().unwrap();
    assert!(matches!(e, ConditionError::MissingSeparator));
    assert_eq!(e.message(), "Expected matcher in the form field[:method]=pattern");
}

#[test]
fn empty_pattern_is_rejected() {
    for raw in ["class=", "bogus=", "class:nope=", "nope:re=", "="] {
        let e = parse_match_condition(raw).err().unwrap();
        assert!(matches!(e, ConditionError::EmptyPattern), "{raw}");
        assert_eq!(e.message(), "Matcher pattern cannot be empty");
    }
    assert!(matches!(Matcher::from_tokens(None, ""), Err(ConditionError::EmptyPattern)));
    assert!(matches!(Matcher::from_tokens(Some("bogus"), ""), Err(ConditionError::EmptyPattern)));
}

#[test]
fn unknown_field_is_rejected() {
    for raw in ["bogus=x", "bogus=(", "bogus:nope=x", "Class=x"] {
        let e = parse_match_condition(raw).err().unwrap();
        let alias = raw.split(|c| c == ':' || c == '=').next().unwrap();
        assert!(matches!(e, ConditionError::UnsupportedField(ref a) if a == alias), "{raw}");
        assert_eq!(e.message(), format!("Unsupported match field `{alias}`"));
    }
}

#[test]
fn unknown_method_is_rejected() {
    for raw in ["class:nope=x", "class:nope=(", "title:EQ=x"] {
        let e = parse_match_condition(raw).err().unwrap();
        let alias = raw.split(|c| c == ':' || c == '=').nth(1).unwrap();
        assert!(matches!(e, ConditionError::UnsupportedMethod(ref a) if a == alias), "{raw}");
        assert_eq!(e.message(), format!("Unsupported match method `{alias}`"));
    }
}

#[test]
fn invalid_regex_is_rejected_at_parse_time() {
    let e = parse_match_condition("title:re=(unclosed").err().unwrap();
    match &e {
        ConditionError::InvalidRegex(p, d) => {
            assert_eq!(p, "(unclosed");
            assert!(!d.is_empty());
        }
        _ => panic!("expected an invalid regex"),
    }
    assert!(e.message().starts_with("Invalid regex `(unclosed`: "));
}

#[test]
fn no_matchers_is_rejected() {
    let args = Args { class: None, launch: "firefox".to_string(), matches: Vec::new() };
    let e = args.build_matchers().err().unwrap();
    assert!(matches!(e, ConditionError::NoMatchers));
    assert_eq!(e.message(), "Provide at least one matcher via --class or --match");
}

#[test]
fn class_shorthand_comes_first() {
    let explicit = parse_match_condition("title:contains=Docs").ok().unwrap();
    let args = Args {
        class: Some("Firefox".to_string()),
        launch: "firefox".to_string(),
        matches: vec![explicit],
    };
    let set = args.build_matchers().ok().unwrap();
    assert_eq!(set.len(), 2);
    assert_eq!(set[0].field, MatchField::Class);
    assert!(matches!(set[0].matcher, Matcher::Equals(ref p) if p == "Firefox"));
    assert_eq!(set[1].field, MatchField::Title);
    assert!(matches!(set[1].matcher, Matcher::Contains(ref p) if p == "Docs"));
}

#[test]
fn explicit_matchers_alone_suffice() {
    let c: MatchCondition = parse_match_condition("c=kitty").ok().unwrap();
    let args = Args { class: None, launch: "kitty".to_string(), matches: vec![c] };
    let set = args.build_matchers().ok().unwrap();
    assert_eq!(set.len(), 1);
}
