use infiltrator::profile_yaml::profile_with_rule;

#[test]
fn rule_goes_first_in_the_profile() {
    let content = "mode: rule\nrules:\n  - MATCH,DIRECT\n";
    let out = profile_with_rule(content, "DOMAIN,google.com,Proxy").unwrap();
    let doc: serde_yml::Value = serde_yml::from_str(&out).unwrap();
    let rules = doc.get("rules").and_then(|r| r.as_sequence()).unwrap();
    assert_eq!(rules.len(), 2);
    assert_eq!(rules[0].as_str(), Some("DOMAIN,google.com,Proxy"));
    assert_eq!(rules[1].as_str(), Some("MATCH,DIRECT"));
    assert_eq!(doc.get("mode").and_then(|m| m.as_str()), Some("rule"));
}

#[test]
fn profile_without_rules_is_refused() {
    assert_eq!(
        profile_with_rule("mode: rule\n", "DOMAIN,a,DIRECT").unwrap_err(),
        "No rules found in profile"
    );
    assert_eq!(
        profile_with_rule("rules: not-a-list\n", "DOMAIN,a,DIRECT").unwrap_err(),
        "No rules found in profile"
    );
}

#[test]
fn text_that_is_not_yaml_is_refused() {
    let text = "rules: [a, b\n";
    let expected = serde_yml::from_str::<serde_yml::Value>(text).unwrap_err().to_string();
    assert_eq!(profile_with_rule(text, "DOMAIN,a,DIRECT").unwrap_err(), expected);
}
