//! Untyped structured values: what a call brings as its arguments and what a
//! tool hands back as its result.

use crate::text::{equal, texts};
use vstd::prelude::*;

verus! {

/// A number of a structured value. A fraction is held by the bits of its
/// binary representation.
#[derive(Clone, Copy, Debug, PartialEq, Eq)]
pub enum Number {
    Unsigned(u64),
    Negative(i64),
    Fraction(u64),
}

/// An untyped structured value. An object holds its fields in the order in
/// which they were written; where a name occurs twice, the later field counts.
#[derive(Debug, PartialEq, Eq)]
pub enum Value {
    Null,
    Bool(bool),
    Number(Number),
    Text(String),
    Array(Vec<Value>),
    Object(Vec<(String, Value)>),
}

/// What a `Value` holds.
pub enum ValueView {
    Null,
    Bool(bool),
    Number(Number),
    Text(Seq<char>),
    Array(Seq<ValueView>),
    Object(Seq<(Seq<char>, ValueView)>),
}

/// What `value` holds.
pub open spec fn model(value: Value) -> ValueView
    decreases value,
{
    match value {
        Value::Null => ValueView::Null,
        Value::Bool(b) => ValueView::Bool(b),
        Value::Number(n) => ValueView::Number(n),
        Value::Text(s) => ValueView::Text(s@),
        Value::Array(items) => ValueView::Array(
            Seq::new(
                items.len() as nat,
                |i: int|
                    if 0 <= i < items.len() {
                        model(items[i])
                    } else {
                        ValueView::Null
                    },
            ),
        ),
        Value::Object(fields) => ValueView::Object(
            Seq::new(
                fields.len() as nat,
                |i: int|
                    if 0 <= i < fields.len() {
                        (fields[i].0@, model(fields[i].1))
                    } else {
                        (Seq::empty(), ValueView::Null)
                    },
            ),
        ),
    }
}

impl View for Value {
    type V = ValueView;

    open spec fn view(&self) -> ValueView {
        model(*self)
    }
}

/// What a list of values holds.
pub open spec fn values(list: Seq<Value>) -> Seq<ValueView> {
    Seq::new(list.len(), |i: int| list[i]@)
}

/// What a list of named values holds.
pub open spec fn entries(list: Seq<(String, Value)>) -> Seq<(Seq<char>, ValueView)> {
    Seq::new(list.len(), |i: int| (list[i].0@, list[i].1@))
}

/// Each text as a value.
pub open spec fn text_values(list: Seq<Seq<char>>) -> Seq<ValueView> {
    Seq::new(list.len(), |i: int| ValueView::Text(list[i]))
}

/// A text that may be absent as a value: `Null` stands for the absent one.
pub open spec fn optional_text_value(text: Option<Seq<char>>) -> ValueView {
    match text {
        Some(t) => ValueView::Text(t),
        None => ValueView::Null,
    }
}

/// The value of the last field named `key` among `fields`.
pub open spec fn lookup(fields: Seq<(Seq<char>, ValueView)>, key: Seq<char>) -> Option<ValueView>
    decreases fields.len(),
{
    if fields.len() == 0 {
        None
    } else if fields.last().0 == key {
        Some(fields.last().1)
    } else {
        lookup(fields.drop_last(), key)
    }
}

/// The field `key` of an object; a value that is no object has no fields.
pub open spec fn field(value: ValueView, key: Seq<char>) -> Option<ValueView> {
    match value {
        ValueView::Object(fields) => lookup(fields, key),
        _ => None,
    }
}

impl Clone for Value {
    /// A value that holds what this one holds.
    fn clone(&self) -> (copy: Value)
        ensures
            copy@ == self@,
        decreases self,
    {
        match self {
            Value::Null => Value::Null,
            Value::Bool(b) => Value::Bool(*b),
            Value::Number(n) => Value::Number(*n),
            Value::Text(s) => Value::Text(s.clone()),
            Value::Array(items) => {
                let mut list: Vec<Value> = Vec::new();
                let mut i: usize = 0;
                while i < items.len()
                    invariant
                        self is Array,
                        self->Array_0 == *items,
                        0 <= i <= items.len(),
                        list@.len() == i,
                        forall|j: int| 0 <= j < i ==> (#[trigger] list@[j])@ == items@[j]@,
                    decreases items.len() - i,
                {
                    proof {
                        vstd::std_specs::vec::axiom_vec_index_decreases(*items, i as int);
                        assert(decreases_to!(*self => self->Array_0));
                    }
                    list.push(items[i].clone());
                    i += 1;
                }
                assert(values(list@) =~= values(items@));
                assert(self@->Array_0 =~= values(items@));
                Value::array(list)
            },
            Value::Object(fields) => {
                let mut list: Vec<(String, Value)> = Vec::new();
                let mut i: usize = 0;
                while i < fields.len()
                    invariant
                        self is Object,
                        self->Object_0 == *fields,
                        0 <= i <= fields.len(),
                        list@.len() == i,
                        forall|j: int|
                            0 <= j < i ==> (#[trigger] list@[j]).0@ == fields@[j].0@ && list@[j].1@
                                == fields@[j].1@,
                    decreases fields.len() - i,
                {
                    proof {
                        vstd::std_specs::vec::axiom_vec_index_decreases(*fields, i as int);
                        assert(decreases_to!(*self => self->Object_0));
                    }
                    list.push((fields[i].0.clone(), fields[i].1.clone()));
                    i += 1;
                }
                assert(entries(list@) =~= entries(fields@));
                assert(self@->Object_0 =~= entries(fields@));
                Value::object(list)
            },
        }
    }
}

impl Value {
    /// A text value.
    pub fn text(s: String) -> (v: Value)
        ensures
            v@ == ValueView::Text(s@),
    {
        Value::Text(s)
    }

    /// The text value of a literal.
    pub fn literal(s: &str) -> (v: Value)
        ensures
            v@ == ValueView::Text(s@),
    {
        Value::Text(String::from_str(s))
    }

    /// A text value, or `Null` for an absent text.
    pub fn optional_text(s: Option<String>) -> (v: Value)
        ensures
            v@ == optional_text_value(s.deep_view()),
    {
        match s {
            Some(t) => Value::Text(t),
            None => Value::Null,
        }
    }

    /// An array of the given values.
    pub fn array(items: Vec<Value>) -> (v: Value)
        ensures
            v@ == ValueView::Array(values(items@)),
    {
        let v = Value::Array(items);
        assert(v@->Array_0 =~= values(items@));
        v
    }

    /// An array of text values.
    pub fn text_array(items: Vec<String>) -> (v: Value)
        ensures
            v@ == ValueView::Array(text_values(texts(items@))),
    {
        let mut list: Vec<Value> = Vec::new();
        let mut items = items;
        let ghost all = items@;
        let mut i: usize = 0;
        while i < items.len()
            invariant
                items@.len() == all.len(),
                0 <= i <= items.len(),
                list@.len() == i,
                forall|j: int| 0 <= j < i ==> list@[j]@ == ValueView::Text(all[j]@),
                forall|j: int| i <= j < all.len() ==> items@[j]@ == all[j]@,
            decreases items.len() - i,
        {
            let item = items[i].clone();
            list.push(Value::Text(item));
            i += 1;
        }
        assert(values(list@) =~= text_values(texts(all)));
        Value::array(list)
    }

    /// An object of the given fields.
    pub fn object(fields: Vec<(String, Value)>) -> (v: Value)
        ensures
            v@ == ValueView::Object(entries(fields@)),
    {
        let v = Value::Object(fields);
        assert(v@->Object_0 =~= entries(fields@));
        v
    }

    /// The field `key` of an object: the last one of that name. `None` where
    /// the object has no such field and where the value is no object.
    pub fn get(&self, key: &str) -> (found: Option<&Value>)
        ensures
            found.is_some() == field(self@, key@).is_some(),
            found matches Some(v) ==> field(self@, key@) == Some(v@),
    {
        match self {
            Value::Object(fields) => {
                let ghost all = entries(fields@);
                assert(self@->Object_0 =~= all);
                let mut at: Option<usize> = None;
                let mut i: usize = 0;
                assert(all.take(0) =~= Seq::empty());
                while i < fields.len()
                    invariant
                        all == entries(fields@),
                        0 <= i <= fields.len(),
                        at.is_some() == lookup(all.take(i as int), key@).is_some(),
                        at matches Some(k) ==> k < i && lookup(all.take(i as int), key@) == Some(
                            fields@[k as int].1@,
                        ),
                    decreases fields.len() - i,
                {
                    proof {
                        let next = all.take(i + 1);
                        assert(next.drop_last() =~= all.take(i as int));
                        assert(next.last() == all[i as int]);
                    }
                    if equal(fields[i].0.as_str(), key) {
                        at = Some(i);
                    }
                    i += 1;
                }
                assert(all.take(i as int) =~= all);
                match at {
                    Some(k) => Some(&fields[k].1),
                    None => None,
                }
            },
            _ => None,
        }
    }
}

} // verus!
