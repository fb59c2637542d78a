//! The values that are passed to a contract's function.

use crate::text::clone_bytes;
use crate::u256::U256;
use vstd::prelude::*;

verus! {

/// A value of the contract ABI.
#[derive(Debug, PartialEq, Eq)]
pub enum Value {
    Address([u8; 20]),
    Uint(U256),
    Int(U256),
    Bool(bool),
    Bytes(Vec<u8>),
    String(String),
    Array(Vec<Value>),
    Tuple(Vec<Value>),
    FixedArray(Vec<Value>),
    FixedBytes(Vec<u8>),
}

pub enum ValueView {
    Address(Seq<u8>),
    Uint(nat),
    Int(nat),
    Bool(bool),
    Bytes(Seq<u8>),
    String(Seq<char>),
    Array(Seq<ValueView>),
    Tuple(Seq<ValueView>),
    FixedArray(Seq<ValueView>),
    FixedBytes(Seq<u8>),
}

impl View for Value {
    type V = ValueView;

    open spec fn view(&self) -> ValueView
        decreases self,
    {
        match self {
            Value::Address(a) => ValueView::Address(a@),
            Value::Uint(n) => ValueView::Uint(n@),
            Value::Int(n) => ValueView::Int(n@),
            Value::Bool(b) => ValueView::Bool(*b),
            Value::Bytes(b) => ValueView::Bytes(b@),
            Value::String(s) => ValueView::String(s@),
            Value::Array(items) => ValueView::Array(
                Seq::new(
                    items@.len(),
                    |i: int|
                        if 0 <= i < items@.len() {
                            items@[i]@
                        } else {
                            ValueView::Bool(false)
                        },
                ),
            ),
            Value::Tuple(items) => ValueView::Tuple(
                Seq::new(
                    items@.len(),
                    |i: int|
                        if 0 <= i < items@.len() {
                            items@[i]@
                        } else {
                            ValueView::Bool(false)
                        },
                ),
            ),
            Value::FixedArray(items) => ValueView::FixedArray(
                Seq::new(
                    items@.len(),
                    |i: int|
                        if 0 <= i < items@.len() {
                            items@[i]@
                        } else {
                            ValueView::Bool(false)
                        },
                ),
            ),
            Value::FixedBytes(b) => ValueView::FixedBytes(b@),
        }
    }
}

/// The views of a sequence of values.
pub open spec fn value_views(values: Seq<Value>) -> Seq<ValueView> {
    Seq::new(values.len(), |i: int| values[i]@)
}

fn clone_values(values: &Vec<Value>) -> (copies: Vec<Value>)
    ensures
        value_views(copies@) == value_views(values@),
    decreases values, 1int,
{
    let mut copies: Vec<Value> = Vec::new();
    let mut i: usize = 0;
    while i < values.len()
        invariant
            i <= values.len(),
            copies@.len() == i,
            forall|j: int| 0 <= j < i ==> copies@[j]@ == values@[j]@,
        decreases values.len() - i,
    {
        copies.push(values[i].clone());
        i = i + 1;
    }
    copies
}

proof fn lemma_same_views(a: Seq<Value>, b: Seq<Value>)
    requires
        value_views(a) == value_views(b),
    ensures
        a.len() == b.len(),
        forall|i: int|
            #![trigger a[i]]
            #![trigger b[i]]
            0 <= i < a.len() ==> a[i]@ == b[i]@,
{
    assert(value_views(b).len() == b.len());
    assert forall|i: int| 0 <= i < a.len() implies a[i]@ == b[i]@ by {
        assert(value_views(b)[i] == b[i]@);
    }
}

impl Clone for Value {
    fn clone(&self) -> (copy: Value)
        ensures
            copy@ == self@,
        decreases self, 0int,
    {
        match self {
            Value::Address(a) => Value::Address(*a),
            Value::Uint(n) => Value::Uint(*n),
            Value::Int(n) => Value::Int(*n),
            Value::Bool(b) => Value::Bool(*b),
            Value::Bytes(b) => Value::Bytes(clone_bytes(b)),
            Value::String(s) => Value::String(s.clone()),
            Value::Array(items) => {
                let copies = clone_values(items);
                proof {
                    lemma_same_views(copies@, items@);
                }
                let copy = Value::Array(copies);
                assert(copy@->Array_0 =~= self@->Array_0);
                copy
            },
            Value::Tuple(items) => {
                let copies = clone_values(items);
                proof {
                    lemma_same_views(copies@, items@);
                }
                let copy = Value::Tuple(copies);
                assert(copy@->Tuple_0 =~= self@->Tuple_0);
                copy
            },
            Value::FixedArray(items) => {
                let copies = clone_values(items);
                proof {
                    lemma_same_views(copies@, items@);
                }
                let copy = Value::FixedArray(copies);
                assert(copy@->FixedArray_0 =~= self@->FixedArray_0);
                copy
            },
            Value::FixedBytes(b) => Value::FixedBytes(clone_bytes(b)),
        }
    }
}

} // verus!
