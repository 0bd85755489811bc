//! What the tools build their commands and results from.

use crate::text::{decimal, decimal_text, lemma_texts_push, lines, lines_of, push_text, texts};
use crate::value::{optional_text_value, text_values, Value, ValueView};
use vstd::prelude::*;

verus! {

/// The argument for an optional text: the text itself, as it is given, where
/// one is given, nothing else.
pub open spec fn optional(text: Option<Seq<char>>) -> Seq<Seq<char>> {
    match text {
        Some(t) => seq![t],
        None => Seq::empty(),
    }
}

/// The argument for an optional text that goes behind a prefix, as in
/// `--until=yesterday`.
pub open spec fn prefixed(prefix: Seq<char>, text: Option<Seq<char>>) -> Seq<Seq<char>> {
    match text {
        Some(t) => seq![prefix + t],
        None => Seq::empty(),
    }
}

/// The arguments for an optional path: the path behind `--`.
pub open spec fn after_separator(path: Option<Seq<char>>) -> Seq<Seq<char>> {
    match path {
        Some(p) => seq!["--"@, p],
        None => Seq::empty(),
    }
}

/// The argument for a flag: its name where it is on, nothing else.
pub open spec fn switch(on: bool, name: Seq<char>) -> Seq<Seq<char>> {
    if on {
        seq![name]
    } else {
        Seq::empty()
    }
}

/// The arguments that limit a history to `max_count` commits.
pub open spec fn limit(max_count: Option<u32>) -> Seq<Seq<char>> {
    match max_count {
        Some(n) => seq!["-n"@, decimal(n as nat)],
        None => Seq::empty(),
    }
}

/// The remote that pull and push go to: `origin` where none is given.
pub open spec fn remote_name(remote: Option<Seq<char>>) -> Seq<char> {
    match remote {
        Some(r) => r,
        None => "origin"@,
    }
}

/// The command that lists the changes of the working tree, one per line.
pub open spec fn status_command() -> Seq<Seq<char>> {
    seq!["status"@, "--porcelain"@]
}

/// The lines of a status listing as an array of texts.
pub open spec fn status_lines(listing: Seq<char>) -> ValueView {
    ValueView::Array(text_values(lines_of(listing)))
}

/// The message of a tool that changes the repository: what git printed, or
/// `otherwise` where it printed nothing.
pub open spec fn message_or(printed: Seq<char>, otherwise: Seq<char>) -> ValueView {
    if printed.len() == 0 {
        ValueView::Text(otherwise)
    } else {
        ValueView::Text(printed)
    }
}

/// The output of the command at position `i`; the empty text where there is
/// no such output.
pub open spec fn output(outputs: Seq<Seq<char>>, i: int) -> Seq<char> {
    if 0 <= i < outputs.len() {
        outputs[i]
    } else {
        Seq::empty()
    }
}

/// A list of arguments that starts with the given literal.
pub fn arguments_of(first: &str) -> (list: Vec<String>)
    ensures
        texts(list@) == seq![first@],
{
    let mut list: Vec<String> = Vec::new();
    assert(texts(list@) =~= Seq::<Seq<char>>::empty());
    push_text(&mut list, first);
    assert(texts(list@) =~= seq![first@]);
    list
}

/// See `optional`.
pub fn push_optional(list: &mut Vec<String>, text: &Option<String>)
    ensures
        texts(final(list)@) == texts(old(list)@) + optional(text.deep_view()),
{
    match text {
        Some(t) => {
            push_text(list, t.as_str());
            assert(texts(list@) =~= texts(old(list)@) + seq![t@]);
        },
        None => {
            assert(texts(list@) =~= texts(old(list)@) + Seq::<Seq<char>>::empty());
        },
    }
}

/// See `prefixed`.
pub fn push_prefixed(list: &mut Vec<String>, prefix: &str, text: &Option<String>)
    ensures
        texts(final(list)@) == texts(old(list)@) + prefixed(prefix@, text.deep_view()),
{
    match text {
        Some(t) => {
            let whole = String::from_str(prefix).concat(t.as_str());
            proof {
                lemma_texts_push(list@, whole);
            }
            list.push(whole);
            assert(texts(list@) =~= texts(old(list)@) + seq![prefix@ + t@]);
        },
        None => {
            assert(texts(list@) =~= texts(old(list)@) + Seq::<Seq<char>>::empty());
        },
    }
}

/// See `after_separator`.
pub fn push_after_separator(list: &mut Vec<String>, path: &Option<String>)
    ensures
        texts(final(list)@) == texts(old(list)@) + after_separator(path.deep_view()),
{
    match path {
        Some(p) => {
            push_text(list, "--");
            push_text(list, p.as_str());
            assert(texts(list@) =~= texts(old(list)@) + seq!["--"@, p@]);
        },
        None => {
            assert(texts(list@) =~= texts(old(list)@) + Seq::<Seq<char>>::empty());
        },
    }
}

/// See `switch`.
pub fn push_switch(list: &mut Vec<String>, on: bool, name: &str)
    ensures
        texts(final(list)@) == texts(old(list)@) + switch(on, name@),
{
    if on {
        push_text(list, name);
        assert(texts(list@) =~= texts(old(list)@) + seq![name@]);
    } else {
        assert(texts(list@) =~= texts(old(list)@) + Seq::<Seq<char>>::empty());
    }
}

/// See `limit`.
pub fn push_limit(list: &mut Vec<String>, max_count: Option<u32>)
    ensures
        texts(final(list)@) == texts(old(list)@) + limit(max_count),
{
    match max_count {
        Some(n) => {
            push_text(list, "-n");
            let count = decimal_text(n);
            proof {
                lemma_texts_push(list@, count);
            }
            list.push(count);
            assert(texts(list@) =~= texts(old(list)@) + seq!["-n"@, decimal(n as nat)]);
        },
        None => {
            assert(texts(list@) =~= texts(old(list)@) + Seq::<Seq<char>>::empty());
        },
    }
}

/// See `remote_name`.
pub fn remote_or_origin(remote: &Option<String>) -> (name: String)
    ensures
        name@ == remote_name(remote.deep_view()),
{
    match remote {
        Some(r) => r.clone(),
        None => String::from_str("origin"),
    }
}

/// See `status_command`.
pub fn status_arguments() -> (list: Vec<String>)
    ensures
        texts(list@) == status_command(),
{
    let mut list = arguments_of("status");
    push_text(&mut list, "--porcelain");
    list
}

/// See `status_lines`.
pub fn status_listing(listing: &str) -> (v: Value)
    ensures
        v@ == status_lines(listing@),
{
    Value::text_array(lines(listing))
}

/// See `message_or`.
pub fn message(printed: &str, otherwise: &str) -> (v: Value)
    ensures
        v@ == message_or(printed@, otherwise@),
{
    if printed.is_empty() {
        Value::literal(otherwise)
    } else {
        Value::literal(printed)
    }
}

/// See `output`.
pub fn output_at(outputs: &Vec<String>, i: usize) -> (text: String)
    ensures
        text@ == output(texts(outputs@), i as int),
{
    if i < outputs.len() {
        outputs[i].clone()
    } else {
        String::new()
    }
}

/// A named value, for an object.
pub fn entry(name: &str, value: Value) -> (pair: (String, Value))
    ensures
        pair.0@ == name@,
        pair.1@ == value@,
{
    (String::from_str(name), value)
}

/// A text that may be absent as a value: `Null` stands for the absent one.
pub fn optional_value(text: &Option<String>) -> (v: Value)
    ensures
        v@ == optional_text_value(text.deep_view()),
{
    Value::optional_text(text.clone())
}

} // verus!
