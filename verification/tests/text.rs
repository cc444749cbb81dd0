use std::borrow::Cow;
use std::collections::BTreeMap;

use dbgui::scheme::ArticlesRow;
use dbgui::text::{format_article, format_from_articles, option_to_string, option_to_string_with};

#[test]
fn absent_value_renders_as_empty_text() {
    assert_eq!(option_to_string::<i32>(None), "");
}

#[test]
fn present_value_renders_through_display() {
    assert_eq!(option_to_string(Some(&42)), "42");
    assert_eq!(option_to_string(Some(&String::from("rent"))), "rent");
}

#[test]
fn absent_value_takes_the_default_text() {
    assert_eq!(option_to_string_with::<i32>(None, "[null]"), "[null]");
    assert_eq!(option_to_string_with(Some(&7), "[null]"), "7");
}

#[test]
fn present_value_is_owned_and_default_is_borrowed() {
    assert!(matches!(option_to_string_with(Some(&7), "[null]"), Cow::Owned(_)));
    assert!(matches!(option_to_string_with::<i32>(None, "[null]"), Cow::Borrowed("[null]")));
    assert_eq!(option_to_string_with(Some(&String::new()), "[null]"), "");
}

#[test]
fn article_label_is_identity_and_name() {
    let rent = ArticlesRow { name: Some(String::from("rent")) };
    assert_eq!(format_article(3, &rent), "3 (rent)");
    assert_eq!(format_article(-12, &ArticlesRow { name: None }), "-12 ()");
    assert_eq!(format_article(0, &ArticlesRow { name: Some(String::new()) }), "0 ()");
}

#[test]
fn label_of_a_known_article_is_looked_up() {
    let mut articles = BTreeMap::new();
    articles.insert(1, ArticlesRow { name: Some(String::from("rent")) });
    articles.insert(2, ArticlesRow { name: None });
    assert_eq!(format_from_articles(Some(1), &articles), "1 (rent)");
    assert_eq!(format_from_articles(Some(2), &articles), "2 ()");
}

#[test]
fn label_is_empty_without_identity_or_article() {
    let mut articles = BTreeMap::new();
    articles.insert(1, ArticlesRow { name: Some(String::from("rent")) });
    assert_eq!(format_from_articles(None, &articles), "");
    assert_eq!(format_from_articles(Some(5), &articles), "");
    assert_eq!(format_from_articles(Some(1), &BTreeMap::new()), "");
}
