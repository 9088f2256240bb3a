//! The ordered store of bind values for one composed query.

use vstd::prelude::*;

use crate::bind::Bind;
use crate::bind::BindModel;

verus! {

/// An ordered, append-only sequence of typed bind values. The value appended
/// Nth (1-based) is the one a `$N` placeholder in the composed SQL text
/// refers to; nothing is ever removed or reordered.
#[derive(Debug)]
pub struct ParamStore {
    values: Vec<Bind>,
}

impl View for ParamStore {
    type V = Seq<BindModel>;

    closed spec fn view(&self) -> Seq<BindModel> {
        self.values.deep_view()
    }
}

impl ParamStore {
    /// An empty store.
    pub fn new() -> (s: ParamStore)
        ensures
            s@ =~= Seq::<BindModel>::empty(),
    {
        ParamStore { values: Vec::new() }
    }

    /// How many values have been appended so far.
    pub fn len(&self) -> (n: usize)
        ensures
            n == self@.len(),
    {
        self.values.len()
    }

    /// Appends one value and returns the 1-based positional index assigned
    /// to it: the index to embed as a `$n` placeholder at the call site.
    pub fn append(&mut self, v: Bind) -> (idx: usize)
        requires
            old(self)@.len() < usize::MAX,
        ensures
            final(self)@ =~= old(self)@.push(v@),
            idx == old(self)@.len() + 1,
    {
        self.values.push(v);
        self.values.len()
    }

    /// Hands the appended values out, in append order.
    pub fn into_values(self) -> (vs: Vec<Bind>)
        ensures
            vs.deep_view() =~= self@,
    {
        self.values
    }
}

} // verus!
