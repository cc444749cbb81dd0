//! Rendering of optional cell values.

use crate::scheme::ArticlesRow;
use std::borrow::Cow;
use std::collections::BTreeMap;
use std::fmt::Display;
use vstd::prelude::*;
use vstd::string::{to_string_from_display_ensures, StringExecFns};

verus! {

/// The text of an optional value: what `Display` gives for a present value,
/// the empty string for an absent one.
pub fn option_to_string<T: Display>(option: Option<&T>) -> (res: String)
    ensures
        match option {
            Some(value) => to_string_from_display_ensures::<T>(value, res),
            None => res@ == Seq::<char>::empty(),
        },
{
    match option {
        Some(value) => value.to_string(),
        None => String::new(),
    }
}

/// The text of an optional value, with `default` standing for an absent one.
/// A present value is rendered into an owned string, an absent one borrows
/// `default`.
pub fn option_to_string_with<'a, T: Display>(option: Option<&T>, default: &'a str) -> (res: Cow<
    'a,
    str,
>)
    ensures
        match option {
            Some(value) => res matches Cow::Owned(text) && to_string_from_display_ensures::<T>(
                value,
                text,
            ),
            None => res == Cow::<'a, str>::Borrowed(default),
        },
{
    match option {
        Some(value) => Cow::Owned(value.to_string()),
        None => Cow::Borrowed(default),
    }
}

/// `text` is the label of an article: its identity, then its name in round
/// brackets, each as `Display` gives it, and nothing for a missing name.
pub open spec fn is_article_label(id: i32, article: ArticlesRow, text: Seq<char>) -> bool {
    exists|id_text: String, name_text: String|
        {
            &&& to_string_from_display_ensures::<i32>(&id, id_text)
            &&& match article.name {
                Some(name) => to_string_from_display_ensures::<String>(&name, name_text),
                None => name_text@ == Seq::<char>::empty(),
            }
            &&& text == id_text@ + " ("@ + name_text@ + ")"@
        }
}

/// The label under which an article is offered for choice.
pub fn format_article(id: i32, article: &ArticlesRow) -> (text: String)
    ensures
        is_article_label(id, *article, text@),
{
    let id_text = id.to_string();
    let name_text = option_to_string(article.name.as_ref());
    id_text.concat(" (").concat(name_text.as_str()).concat(")")
}

/// The label of the article with the identity given, or the empty string
/// where there is no identity or no such article.
pub fn format_from_articles(id: Option<i32>, articles: &BTreeMap<i32, ArticlesRow>) -> (text:
    String)
    ensures
        match id {
            Some(id) if articles@.contains_key(id) => is_article_label(id, articles@[id], text@),
            _ => text@ == Seq::<char>::empty(),
        },
{
    broadcast use vstd::std_specs::btree::group_btree_axioms;
    broadcast use vstd::laws_cmp::group_laws_cmp;

    match id {
        Some(id) => match articles.get(&id) {
            Some(article) => format_article(id, article),
            None => String::new(),
        },
        None => String::new(),
    }
}

} // verus!
