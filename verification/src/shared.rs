//! The value that a builder broadcasts to its workers.

use vstd::prelude::*;

verus! {

/// A value handed to every worker before its task starts.
///
/// The host defines what the text means; the pool only carries it.
/// `Undefined` is the explicit "no value" that a fresh builder holds.
#[derive(Debug, Clone, PartialEq, Eq)]
pub enum SharedValue {
    Undefined,
    Text(String),
}

impl View for SharedValue {
    type V = Option<Seq<char>>;

    open spec fn view(&self) -> Option<Seq<char>> {
        match self {
            SharedValue::Undefined => None,
            SharedValue::Text(text) => Some(text@),
        }
    }
}

impl SharedValue {
    /// The "no value" sentinel.
    pub fn undefined() -> (value: SharedValue)
        ensures
            value@ == None::<Seq<char>>,
    {
        SharedValue::Undefined
    }

    /// A value that carries `text`.
    pub fn text(text: &str) -> (value: SharedValue)
        ensures
            value@ == Some(text@),
    {
        SharedValue::Text(text.to_owned())
    }

    /// Whether this is the "no value" sentinel.
    pub fn is_undefined(&self) -> (undefined: bool)
        ensures
            undefined == (self@ is None),
    {
        match self {
            SharedValue::Undefined => true,
            SharedValue::Text(_) => false,
        }
    }

    /// An independent copy, one of which goes to each worker.
    pub fn duplicate(&self) -> (copy: SharedValue)
        ensures
            copy@ == self@,
    {
        match self {
            SharedValue::Undefined => SharedValue::Undefined,
            SharedValue::Text(text) => SharedValue::Text(text.clone()),
        }
    }
}

} // verus!
