use vstd::prelude::*;

verus! {

/// An ordered list of strings, safe to hand across a runtime boundary:
/// used for required signer hashes and opaque signing-key material.
#[derive(Clone, Debug, PartialEq, Eq)]
pub struct JsVecString {
    items: Vec<String>,
}

impl View for JsVecString {
    type V = Seq<String>;

    closed spec fn view(&self) -> Seq<String> {
        self.items@
    }
}

impl JsVecString {
    /// An empty list.
    pub fn new() -> (r: Self)
        ensures
            r@ == Seq::<String>::empty(),
    {
        JsVecString { items: Vec::new() }
    }

    /// How many strings the list holds.
    pub fn len(&self) -> (r: usize)
        ensures
            r == self@.len(),
    {
        self.items.len()
    }

    /// Whether the list holds nothing.
    pub fn is_empty(&self) -> (r: bool)
        ensures
            r == (self@.len() == 0),
    {
        self.len() == 0
    }

    /// A copy of the string at the given position.
    pub fn get(&self, index: usize) -> (r: String)
        requires
            index < self@.len(),
        ensures
            r@ == self@[index as int]@,
    {
        self.items[index].clone()
    }

    /// Appends one string at the end.
    pub fn add(&mut self, elem: String)
        ensures
            final(self)@ == old(self)@.push(elem),
    {
        self.items.push(elem);
    }
}

impl Default for JsVecString {
    /// The default list is empty.
    fn default() -> (r: Self)
        ensures
            r@ == Seq::<String>::empty(),
    {
        JsVecString::new()
    }
}

} // verus!
