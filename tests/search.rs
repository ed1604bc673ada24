use syntax_cache::json::JsonValue;
use syntax_cache::query::{item_matches_lowered, search, search_lowered};
use syntax_cache::text::contains;

fn s(t: &str) -> JsonValue {
    JsonValue::Str(t.to_string())
}

fn obj(entries: Vec<(&str, JsonValue)>) -> JsonValue {
    JsonValue::Object(entries.into_iter().map(|(k, v)| (k.to_string(), v)).collect())
}

fn item(title: &str, syntax: &str, category: &str) -> JsonValue {
    obj(vec![("title", s(title)), ("syntax", s(syntax)), ("category", s(category))])
}

fn doc(items: Vec<JsonValue>) -> JsonValue {
    obj(vec![("results", JsonValue::Array(items))])
}

fn sample() -> JsonValue {
    doc(vec![item("Push Event", "on push", "Events"), item("Loop", "loop %integer%", "Control")])
}

#[test]
fn scenario_push_matches_one() {
    let d = sample();
    let o = search(&d, "push");
    assert_eq!(o.count, 1);
    assert_eq!(o.results.len(), 1);
    assert_eq!(o.results[0], &item("Push Event", "on push", "Events"));
}

#[test]
fn scenario_upper_case_query_matches_same_item() {
    let d = sample();
    let o = search(&d, "EVENT");
    assert_eq!(o.count, 1);
    assert_eq!(o.results[0], &item("Push Event", "on push", "Events"));
}

#[test]
fn scenario_unknown_query_matches_nothing() {
    let d = sample();
    let o = search(&d, "zzz");
    assert_eq!(o.count, 0);
    assert!(o.results.is_empty());
}

#[test]
fn count_equals_number_of_results() {
    let d = sample();
    for q in ["", "o", "loop", "control", "%", "nothing"] {
        let o = search(&d, q);
        assert_eq!(o.count, o.results.len());
    }
    assert_eq!(search(&d, "o").count, 2);
}

#[test]
fn empty_query_keeps_items_with_a_string_field() {
    let numeric = obj(vec![("title", JsonValue::Number("7".to_string()))]);
    let only_category = obj(vec![("category", s(""))]);
    let bare = obj(vec![("name", s("x"))]);
    let not_object = s("title");
    let d = doc(vec![
        item("A", "b", "c"),
        numeric,
        only_category,
        bare,
        not_object,
    ]);
    let o = search(&d, "");
    assert_eq!(o.count, 2);
    assert_eq!(o.results[0], &item("A", "b", "c"));
    assert_eq!(o.results[1], &obj(vec![("category", s(""))]));
}

#[test]
fn every_kept_item_matches_and_every_dropped_item_does_not() {
    let d = doc(vec![
        item("Alpha", "x", "y"),
        item("Beta", "alpha rule", "z"),
        item("Gamma", "g", "ALPHA kind"),
        item("Delta", "d", "e"),
        obj(vec![("title", JsonValue::Bool(true)), ("syntax", s("alphabet"))]),
    ]);
    let o = search(&d, "Alpha");
    assert_eq!(o.count, 4);
    let titles: Vec<Option<&JsonValue>> = o.results.iter().map(|v| v.get("title")).collect();
    assert_eq!(titles[0], Some(&s("Alpha")));
    assert_eq!(titles[1], Some(&s("Beta")));
    assert_eq!(titles[2], Some(&s("Gamma")));
    assert_eq!(titles[3], Some(&JsonValue::Bool(true)));
    for r in &o.results {
        assert!(item_matches_lowered(r, "alpha"));
    }
    assert!(!item_matches_lowered(&item("Delta", "d", "e"), "alpha"));
}

#[test]
fn missing_or_malformed_results_give_nothing() {
    let none = obj(vec![("other", JsonValue::Array(vec![item("a", "a", "a")]))]);
    assert_eq!(search(&none, "a").count, 0);
    let wrong = obj(vec![("results", s("a"))]);
    assert_eq!(search(&wrong, "a").count, 0);
    let array_doc = JsonValue::Array(vec![item("a", "a", "a")]);
    assert_eq!(search(&array_doc, "a").count, 0);
    assert_eq!(search(&JsonValue::Null, "").count, 0);
}

#[test]
fn non_string_fields_do_not_match() {
    let d = doc(vec![obj(vec![
        ("title", JsonValue::Number("12".to_string())),
        ("syntax", JsonValue::Null),
        ("category", JsonValue::Array(vec![s("12")])),
    ])]);
    assert_eq!(search(&d, "12").count, 0);
}

#[test]
fn order_of_results_is_kept() {
    let d = doc(vec![item("b2", "", ""), item("a1", "", ""), item("c3", "", "")]);
    let o = search(&d, "");
    assert_eq!(o.count, 3);
    assert_eq!(o.results[0].get("title"), Some(&s("b2")));
    assert_eq!(o.results[1].get("title"), Some(&s("a1")));
    assert_eq!(o.results[2].get("title"), Some(&s("c3")));
}

#[test]
fn lowered_search_does_not_fold_the_query() {
    let d = sample();
    assert_eq!(search_lowered(&d, "EVENT").count, 0);
    assert_eq!(search_lowered(&d, "event").count, 1);
}

#[test]
fn non_ascii_text_is_folded() {
    let d = doc(vec![item("ÄRGER", "", "")]);
    assert_eq!(search(&d, "ärger").count, 1);
    assert_eq!(search(&d, "Ärg").count, 1);
}

#[test]
fn substring_check() {
    assert!(contains("abc", ""));
    assert!(contains("", ""));
    assert!(contains("abc", "bc"));
    assert!(contains("abc", "abc"));
    assert!(!contains("abc", "ac"));
    assert!(!contains("ab", "abc"));
    assert!(!contains("", "a"));
    assert!(contains("loop %integer%", "%i"));
}
