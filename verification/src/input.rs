//! The values that a program is given for the inputs of its main function.
use crate::integer_type::IntegerType;
use vstd::prelude::*;
use vstd::string::*;

verus! {

/// A value given for an input, tagged with what it is.
#[derive(Debug, PartialEq, Eq)]
pub enum InputValue {
    Address(String),
    Boolean(bool),
    Char(String),
    Field(String),
    Group(String),
    Integer(IntegerType, String),
    Array(Vec<InputValue>),
    Tuple(Vec<InputValue>),
}

/// How an input value is written: an integer as its number and the name of
/// its kind, an array in square and a tuple in round brackets with its items
/// separated by a comma and a blank, every other value as it was given.
pub open spec fn input_text(value: InputValue) -> Seq<char>
    decreases value,
{
    match value {
        InputValue::Address(text) => text@,
        InputValue::Boolean(b) => if b {
            "true"@
        } else {
            "false"@
        },
        InputValue::Char(text) => text@,
        InputValue::Field(text) => text@,
        InputValue::Group(text) => text@,
        InputValue::Integer(kind, number) => number@ + kind.name(),
        InputValue::Array(items) => "["@ + items_text(items@) + "]"@,
        InputValue::Tuple(items) => "("@ + items_text(items@) + ")"@,
    }
}

/// The texts of `items`, separated by a comma and a blank.
pub open spec fn items_text(items: Seq<InputValue>) -> Seq<char>
    decreases items,
{
    if items.len() == 0 {
        Seq::empty()
    } else if items.len() == 1 {
        input_text(items[0])
    } else {
        items_text(items.drop_last()) + ", "@ + input_text(items.last())
    }
}

impl Clone for InputValue {
    /// A copy: a value that is written as the value is.
    fn clone(&self) -> (r: InputValue)
        ensures
            input_text(r) == input_text(*self),
        decreases self,
    {
        match self {
            InputValue::Address(text) => InputValue::Address(text.clone()),
            InputValue::Boolean(b) => InputValue::Boolean(*b),
            InputValue::Char(text) => InputValue::Char(text.clone()),
            InputValue::Field(text) => InputValue::Field(text.clone()),
            InputValue::Group(text) => InputValue::Group(text.clone()),
            InputValue::Integer(kind, number) => InputValue::Integer(*kind, number.clone()),
            InputValue::Array(items) => InputValue::Array(InputValue::clone_items(items)),
            InputValue::Tuple(items) => InputValue::Tuple(InputValue::clone_items(items)),
        }
    }
}

impl InputValue {
    /// A copy of a list of values: as many values, each written as its value is.
    fn clone_items(items: &Vec<InputValue>) -> (r: Vec<InputValue>)
        ensures
            r.len() == items.len(),
            items_text(r@) == items_text(items@),
        decreases items,
    {
        let mut out: Vec<InputValue> = Vec::new();
        let mut i: usize = 0;
        assert(items@.take(0) =~= out@);
        while i < items.len()
            invariant
                i <= items.len(),
                out.len() == i,
                items_text(out@) == items_text(items@.take(i as int)),
            decreases items.len() - i,
        {
            let ghost before = out@;
            let item = items[i].clone();
            out.push(item);
            proof {
                let more = items@.take(i + 1);
                assert(more.drop_last() =~= items@.take(i as int));
                assert(more.last() == items[i as int]);
                assert(out@.drop_last() =~= before);
                assert(out@.last() == item);
                if i == 1 {
                    assert(before[0] == out@[0]);
                    assert(items@.take(1)[0] == items[0]);
                }
                if i == 0 {
                    assert(more[0] == items[0]);
                }
            }
            i = i + 1;
        }
        assert(items@.take(i as int) =~= items@);
        out
    }

    /// The value as it is written.
    pub fn to_string(&self) -> (r: String)
        ensures
            r@ == input_text(*self),
        decreases self,
    {
        match self {
            InputValue::Address(text) => text.clone(),
            InputValue::Boolean(b) => if *b {
                String::from_str("true")
            } else {
                String::from_str("false")
            },
            InputValue::Char(text) => text.clone(),
            InputValue::Field(text) => text.clone(),
            InputValue::Group(text) => text.clone(),
            InputValue::Integer(kind, number) => {
                let mut out = number.clone();
                out.append(kind.as_str());
                out
            },
            InputValue::Array(items) => {
                let mut out = String::from_str("[");
                let inner = InputValue::join(items);
                out.append(inner.as_str());
                out.append("]");
                out
            },
            InputValue::Tuple(items) => {
                let mut out = String::from_str("(");
                let inner = InputValue::join(items);
                out.append(inner.as_str());
                out.append(")");
                out
            },
        }
    }

    /// The texts of `items`, separated by a comma and a blank.
    fn join(items: &Vec<InputValue>) -> (r: String)
        ensures
            r@ == items_text(items@),
        decreases items,
    {
        let mut out = String::new();
        let mut i: usize = 0;
        assert(items@.take(0) =~= Seq::<InputValue>::empty());
        while i < items.len()
            invariant
                i <= items.len(),
                out@ == items_text(items@.take(i as int)),
            decreases items.len() - i,
        {
            proof {
                assert(items@.take(i + 1).drop_last() =~= items@.take(i as int));
                assert(items@.take(i + 1).last() == items[i as int]);
                if i == 0 {
                    assert(items@.take(1)[0] == items[0]);
                }
            }
            if i > 0 {
                out.append(", ");
            }
            let text = items[i].to_string();
            out.append(text.as_str());
            proof {
                if i == 0 {
                    assert(out@ =~= input_text(items[0]));
                }
            }
            i = i + 1;
        }
        assert(items@.take(i as int) =~= items@);
        out
    }
}

} // verus!
