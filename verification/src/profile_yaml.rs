use crate::text::owned;
use vstd::prelude::*;

verus! {

/// A YAML document as serde_yml holds it.
#[verifier::external_type_specification]
#[verifier::external_body]
pub struct ExYamlValue(serde_yml::Value);

/// What `serde_yml::from_str` gives for `text`: the YAML document it reads,
/// or the message of the error it gives.
pub uninterp spec fn yaml_reading(text: Seq<char>) -> Result<serde_yml::Value, Seq<char>>;

/// The value that `Value::get_mut(key)` reaches in `doc`: the entry under
/// `key` where `doc` is a mapping (looking through a tag).
pub uninterp spec fn yaml_field(doc: serde_yml::Value, key: Seq<char>) -> Option<serde_yml::Value>;

/// The document `doc` with the value that `Value::get_mut(key)` reaches
/// replaced by `v`: what writing through that reference leaves behind.
pub uninterp spec fn yaml_with_field(
    doc: serde_yml::Value,
    key: Seq<char>,
    v: serde_yml::Value,
) -> serde_yml::Value;

/// The items of `v` where it is a YAML sequence (`Value::as_sequence_mut`).
pub uninterp spec fn yaml_items(v: serde_yml::Value) -> Option<Seq<serde_yml::Value>>;

/// The YAML sequence with these items (`Value::Sequence`).
pub uninterp spec fn yaml_sequence(items: Seq<serde_yml::Value>) -> serde_yml::Value;

/// The YAML string scalar with this text (`Value::String`).
pub uninterp spec fn yaml_string_value(s: Seq<char>) -> serde_yml::Value;

/// What `serde_yml::to_string` gives for `doc`: its text, or the message of
/// the error it gives.
pub uninterp spec fn yaml_writing(doc: serde_yml::Value) -> Result<Seq<char>, Seq<char>>;

/// A text result seen as characters.
pub open spec fn text_result(r: Result<String, String>) -> Result<Seq<char>, Seq<char>> {
    match r {
        Ok(t) => Ok(t@),
        Err(e) => Err(e@),
    }
}

/// `serde_yml::from_str`: the document in `text`, or the parser's message;
/// both are what `yaml_reading` names.
#[verifier::external_body]
fn parse_yaml(text: &str) -> (r: Result<serde_yml::Value, String>)
    ensures
        match r {
            Ok(d) => yaml_reading(text@) == Ok::<serde_yml::Value, Seq<char>>(d),
            Err(e) => yaml_reading(text@) == Err::<serde_yml::Value, Seq<char>>(e@),
        },
{
    match serde_yml::from_str(text) {
        Ok(v) => Ok(v),
        Err(e) => Err(e.to_string()),
    }
}

/// `Value::get_mut(key)`: a reference to the value under `key`, where there
/// is one (`yaml_field`); what is written through it ends up in the document
/// (`yaml_with_field`).  Without one, the document is left as it was.
#[verifier::external_body]
fn field_mut<'a>(doc: &'a mut serde_yml::Value, key: &str) -> (r: Option<&'a mut serde_yml::Value>)
    ensures
        r is Some <==> yaml_field(*old(doc), key@) is Some,
        r is Some ==> Some(*r.unwrap()) == yaml_field(*old(doc), key@) && *final(doc)
            == yaml_with_field(*old(doc), key@, *final(r.unwrap())),
        r is None ==> *final(doc) == *old(doc),
{
    doc.get_mut(key)
}

/// `Value::as_sequence_mut`: the items, where the value is a sequence
/// (`yaml_items`); the value afterwards is the sequence of the items as they
/// are left (`yaml_sequence`).  Otherwise the value is left as it was.
#[verifier::external_body]
fn sequence_mut<'a>(v: &'a mut serde_yml::Value) -> (r: Option<&'a mut Vec<serde_yml::Value>>)
    ensures
        r is Some <==> yaml_items(*old(v)) is Some,
        r is Some ==> Some(r.unwrap()@) == yaml_items(*old(v)) && *final(v) == yaml_sequence(
            final(r.unwrap())@,
        ),
        r is None ==> *final(v) == *old(v),
{
    v.as_sequence_mut()
}

/// `Value::String`: the string scalar with the text of `s`.
#[verifier::external_body]
fn yaml_string(s: String) -> (r: serde_yml::Value)
    ensures
        r == yaml_string_value(s@),
{
    serde_yml::Value::String(s)
}

/// `serde_yml::to_string`: the document's text, or the writer's message;
/// both are what `yaml_writing` names.
#[verifier::external_body]
fn render_yaml(doc: &serde_yml::Value) -> (r: Result<String, String>)
    ensures
        text_result(r) == yaml_writing(*doc),
{
    match serde_yml::to_string(doc) {
        Ok(t) => Ok(t),
        Err(e) => Err(e.to_string()),
    }
}

/// Puts a string first in a list.
fn insert_first(items: &mut Vec<serde_yml::Value>, item: serde_yml::Value)
    ensures
        final(items)@ == seq![item] + old(items)@,
{
    items.insert(0, item);
    assert(items@ =~= seq![item] + old(items)@);
}

/// The message given when a profile has no list of rules.
pub open spec fn no_rules_message() -> Seq<char> {
    "No rules found in profile"@
}

/// The rules of a profile document: the items of the sequence under `rules`,
/// where there is one.
pub open spec fn profile_rules(doc: serde_yml::Value) -> Option<Seq<serde_yml::Value>> {
    match yaml_field(doc, "rules"@) {
        Some(v) => yaml_items(v),
        None => None,
    }
}

/// The document with its rules list replaced by the string `line` followed
/// by `items`; every other key stays as it was.
pub open spec fn with_first_rule(
    doc: serde_yml::Value,
    items: Seq<serde_yml::Value>,
    line: Seq<char>,
) -> serde_yml::Value {
    yaml_with_field(doc, "rules"@, yaml_sequence(seq![yaml_string_value(line)] + items))
}

/// What adding `line` to the profile text `content` gives: the parser's
/// message where the text is not YAML; `no_rules_message` where the document
/// has no `rules` list; otherwise what the writer gives for the document with
/// `line` first in its rules.
pub open spec fn profile_with_rule_result(content: Seq<char>, line: Seq<char>) -> Result<
    Seq<char>,
    Seq<char>,
> {
    match yaml_reading(content) {
        Err(message) => Err(message),
        Ok(doc) => match profile_rules(doc) {
            None => Err(no_rules_message()),
            Some(items) => yaml_writing(with_first_rule(doc, items, line)),
        },
    }
}

/// The text of a profile with `line` put first in its `rules` list (see
/// `profile_with_rule_result`).
pub fn profile_with_rule(content: &str, line: &str) -> (r: Result<String, String>)
    ensures
        text_result(r) == profile_with_rule_result(content@, line@),
{
    let mut doc = match parse_yaml(content) {
        Ok(d) => d,
        Err(e) => return Err(e),
    };
    let added = match field_mut(&mut doc, "rules") {
        Some(v) => match sequence_mut(v) {
            Some(rules) => {
                insert_first(rules, yaml_string(owned(line)));
                true
            },
            None => false,
        },
        None => false,
    };
    if !added {
        return Err(owned("No rules found in profile"));
    }
    render_yaml(&doc)
}

} // verus!
