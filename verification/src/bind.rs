//! Typed SQL bind values.

use vstd::prelude::*;

verus! {

/// A typed SQL bind value, consumed positionally by the execution layer.
/// Timestamps are UTC instants carried as microseconds since the Unix epoch.
#[derive(Debug)]
pub enum Bind {
    INT(i64),
    STRING(String),
    TIMESTAMP(i64),
}

/// Mathematical model of a [`Bind`] value.
pub enum BindModel {
    Int(int),
    Text(Seq<char>),
    Timestamp(int),
}

impl View for Bind {
    type V = BindModel;

    open spec fn view(&self) -> BindModel {
        match self {
            Bind::INT(i) => BindModel::Int(*i as int),
            Bind::STRING(s) => BindModel::Text(s@),
            Bind::TIMESTAMP(t) => BindModel::Timestamp(*t as int),
        }
    }
}

impl DeepView for Bind {
    type V = BindModel;

    open spec fn deep_view(&self) -> BindModel {
        self.view()
    }
}

impl PartialEq for Bind {
    fn eq(&self, other: &Bind) -> (r: bool) {
        match (self, other) {
            (Bind::INT(a), Bind::INT(b)) => *a == *b,
            (Bind::STRING(a), Bind::STRING(b)) => *a == *b,
            (Bind::TIMESTAMP(a), Bind::TIMESTAMP(b)) => *a == *b,
            _ => false,
        }
    }
}

impl vstd::std_specs::cmp::PartialEqSpecImpl for Bind {
    open spec fn obeys_eq_spec() -> bool {
        true
    }

    open spec fn eq_spec(&self, other: &Bind) -> bool {
        self@ == other@
    }
}

} // verus!
