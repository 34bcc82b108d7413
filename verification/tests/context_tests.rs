use speech::context::StringTag;
use speech::{AnalysisContext, ContextualStringsTag, UserDataTag};

fn tags_of(context: &AnalysisContext) -> Vec<String> {
    context
        .contextual_strings()
        .entries()
        .iter()
        .map(|(tag, _)| tag.raw_value().to_string())
        .collect()
}

#[test]
fn tags_keep_their_text() {
    assert_eq!(ContextualStringsTag::general().raw_value(), "general");
    assert_eq!(ContextualStringsTag::new("names".to_string()).raw_value(), "names");
    assert_eq!(UserDataTag::new("session".to_string()).raw_value(), "session");
    assert_eq!(UserDataTag::new("x".to_string()).text(), "x");
}

#[test]
fn new_context_is_empty() {
    let context = AnalysisContext::new();
    assert!(context.contextual_strings().is_empty());
    assert!(context.user_data().is_empty());
    assert_eq!(context.contextual_strings().len(), 0);
    assert_eq!(AnalysisContext::default(), context);
}

#[test]
fn contextual_strings_read_back_after_write() {
    let mut context = AnalysisContext::new();
    context.set_contextual_strings(
        ContextualStringsTag::general(),
        vec!["alpha".to_string(), "beta".to_string()],
    );
    assert_eq!(
        context.contextual_strings().get("general"),
        Some(&vec!["alpha".to_string(), "beta".to_string()])
    );
    assert!(context.contextual_strings().contains_key("general"));
    assert_eq!(context.contextual_strings().get("other"), None);
    assert!(context.user_data().is_empty());
}

#[test]
fn writing_a_tag_again_replaces_its_value() {
    let mut context = AnalysisContext::new()
        .with_contextual_strings(ContextualStringsTag::general(), vec!["one".to_string()])
        .with_contextual_strings(ContextualStringsTag::new("names".to_string()), vec![]);
    context.set_contextual_strings(ContextualStringsTag::general(), vec!["two".to_string()]);
    assert_eq!(context.contextual_strings().len(), 2);
    assert_eq!(
        context.contextual_strings().get("general"),
        Some(&vec!["two".to_string()])
    );
    assert_eq!(context.contextual_strings().get("names"), Some(&vec![]));
}

#[test]
fn entries_ascend_by_tag() {
    let mut context = AnalysisContext::new();
    for tag in ["zeta", "alpha", "mid", "Beta", "alpha", "\u{e9}t\u{e9}", "al"] {
        context.set_contextual_strings(ContextualStringsTag::new(tag.to_string()), vec![tag.to_string()]);
    }
    assert_eq!(
        tags_of(&context),
        vec!["Beta", "al", "alpha", "mid", "zeta", "\u{e9}t\u{e9}"]
    );
    let mut sorted = tags_of(&context);
    sorted.sort();
    assert_eq!(sorted, tags_of(&context));
}

#[test]
fn tag_map_insert_reports_previous_value() {
    let mut context = AnalysisContext::new();
    context.set_user_data(UserDataTag::new("k".to_string()), "v1".to_string());
    let mut table = context.user_data().clone();
    let previous = table.insert(UserDataTag::new("k".to_string()), "v2".to_string());
    assert_eq!(previous, Some("v1".to_string()));
    let none = table.insert(UserDataTag::new("j".to_string()), "v3".to_string());
    assert_eq!(none, None);
    assert_eq!(table.len(), 2);
    assert_eq!(table.get("k"), Some(&"v2".to_string()));
    assert_eq!(context.user_data().get("k"), Some(&"v1".to_string()));
}

#[test]
fn user_data_and_contextual_strings_are_independent() {
    let context = AnalysisContext::new()
        .with_user_data(UserDataTag::new("general".to_string()), "data".to_string())
        .with_contextual_strings(ContextualStringsTag::general(), vec!["strings".to_string()]);
    assert_eq!(context.user_data().get("general"), Some(&"data".to_string()));
    assert_eq!(
        context.contextual_strings().get("general"),
        Some(&vec!["strings".to_string()])
    );
    let mut other = context.clone();
    other.set_user_data(UserDataTag::new("general".to_string()), "changed".to_string());
    assert_eq!(other.user_data().get("general"), Some(&"changed".to_string()));
    assert_eq!(other.contextual_strings(), context.contextual_strings());
    assert_ne!(other, context);
}

#[test]
fn writes_to_different_tags_commute() {
    let a = AnalysisContext::new()
        .with_user_data(UserDataTag::new("a".to_string()), "1".to_string())
        .with_user_data(UserDataTag::new("b".to_string()), "2".to_string());
    let b = AnalysisContext::new()
        .with_user_data(UserDataTag::new("b".to_string()), "2".to_string())
        .with_user_data(UserDataTag::new("a".to_string()), "1".to_string());
    assert_eq!(a, b);
}
