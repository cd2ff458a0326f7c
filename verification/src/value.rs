//! The values that a builder stores, and the record that it constructs.

use vstd::prelude::*;

verus! {

/// A value handed to a builder's method or held in one of its slots.
#[derive(Debug, PartialEq, Eq)]
pub enum Value {
    /// A single value, by its text.
    Atom(String),
    /// A collection of values, in order.
    List(Vec<Value>),
}

/// Mathematical model of a [`Value`].
pub enum ValueView {
    Atom(Seq<char>),
    List(Seq<ValueView>),
}

impl View for Value {
    type V = ValueView;

    open spec fn view(&self) -> ValueView
        decreases self,
    {
        match self {
            Value::Atom(text) => ValueView::Atom(text@),
            Value::List(items) => ValueView::List(
                Seq::new(
                    items@.len(),
                    |i: int|
                        if 0 <= i < items@.len() {
                            items@[i].view()
                        } else {
                            ValueView::List(Seq::empty())
                        },
                ),
            ),
        }
    }
}

impl DeepView for Value {
    type V = ValueView;

    open spec fn deep_view(&self) -> ValueView {
        self@
    }
}

impl Clone for Value {
    fn clone(&self) -> (res: Self)
        ensures
            res@ == self@,
        decreases self,
    {
        match self {
            Value::Atom(text) => Value::Atom(text.clone()),
            Value::List(items) => {
                let mut copied: Vec<Value> = Vec::new();
                let mut i: usize = 0;
                while i < items.len()
                    invariant
                        i <= items.len(),
                        copied.len() == i,
                        self is List,
                        self->List_0 == *items,
                        forall|j: int| 0 <= j < i ==> copied@[j]@ == items@[j]@,
                    decreases items.len() - i,
                {
                    let item = items[i].clone();
                    copied.push(item);
                    i += 1;
                }
                assert(Value::List(copied)@->List_0 =~= self@->List_0);
                Value::List(copied)
            },
        }
    }
}

/// The model of a list's items is the sequence of the items' models.
pub proof fn lemma_list_view(items: Vec<Value>)
    ensures
        Value::List(items)@ == ValueView::List(items.deep_view()),
{
    assert(Value::List(items)@->List_0 =~= items.deep_view());
}

/// One field of a constructed record.
#[derive(Debug, PartialEq, Eq)]
pub struct RecordField {
    /// The field's name.
    pub name: String,
    /// The field's value; none only for an optional field that was not set.
    pub value: Option<Value>,
}

/// Mathematical model of a [`RecordField`].
pub struct RecordFieldView {
    pub name: Seq<char>,
    pub value: Option<ValueView>,
}

impl View for RecordField {
    type V = RecordFieldView;

    open spec fn view(&self) -> RecordFieldView {
        RecordFieldView { name: self.name@, value: self.value.deep_view() }
    }
}

impl DeepView for RecordField {
    type V = RecordFieldView;

    open spec fn deep_view(&self) -> RecordFieldView {
        self@
    }
}

impl Clone for RecordField {
    fn clone(&self) -> (res: Self)
        ensures
            res@ == self@,
    {
        RecordField {
            name: self.name.clone(),
            value: match &self.value {
                Some(v) => Some(v.clone()),
                None => None,
            },
        }
    }
}

/// A constructed record: the record type's name and the fields in
/// declaration order.
#[derive(Debug, PartialEq, Eq)]
pub struct Record {
    pub name: String,
    pub fields: Vec<RecordField>,
}

/// Mathematical model of a [`Record`].
pub struct RecordView {
    pub name: Seq<char>,
    pub fields: Seq<RecordFieldView>,
}

impl View for Record {
    type V = RecordView;

    open spec fn view(&self) -> RecordView {
        RecordView { name: self.name@, fields: self.fields.deep_view() }
    }
}

impl DeepView for Record {
    type V = RecordView;

    open spec fn deep_view(&self) -> RecordView {
        self@
    }
}

impl Clone for Record {
    fn clone(&self) -> (res: Self)
        ensures
            res@ == self@,
    {
        let fields = self.fields.clone();
        Record { name: self.name.clone(), fields }
    }
}

} // verus!
