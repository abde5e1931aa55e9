//! The values of enum attributes.
use vstd::prelude::*;

use crate::keyed;
use crate::schema::Words;
use crate::text;

verus! {

/// Enum attributes and their values.
pub struct EnumValues {
    pub rows: Vec<(String, Vec<String>)>,
}

impl View for EnumValues {
    type V = Seq<(Seq<char>, Seq<Seq<char>>)>;

    open spec fn view(&self) -> Seq<(Seq<char>, Seq<Seq<char>>)> {
        Seq::new(self.rows@.len(), |i: int| (self.rows@[i].0@, text::strings(self.rows@[i].1@)))
    }
}

impl EnumValues {
    pub fn new() -> (r: EnumValues)
        ensures
            r@ == Seq::<(Seq<char>, Seq<Seq<char>>)>::empty(),
    {
        let r = EnumValues { rows: Vec::new() };
        assert(r@ =~= Seq::empty());
        r
    }

    pub fn add(&mut self, attribute: &str, values: Words)
        ensures
            final(self)@ == old(self)@.push((attribute@, text::strings(values.list@))),
    {
        let ghost before = self@;
        let ghost view = text::strings(values.list@);
        self.rows.push((attribute.to_owned(), values.list));
        assert(self@ =~= before.push((attribute@, view)));
    }

    /// The values of an attribute.
    pub fn get(&self, attribute: &str) -> (r: Option<&Vec<String>>)
        ensures
            match r {
                Some(v) => keyed::lookup(self@, attribute@) == Some(text::strings(v@)),
                None => keyed::lookup(self@, attribute@) is None,
            },
    {
        proof {
            assert forall|i: int| 0 <= i < self.rows@.len() implies (#[trigger] self.rows@[i]).0@ == self@[i].0 by {};
            keyed::lemma_position(self.rows@, self@, attribute@, 0);
        }
        match keyed::position(&self.rows, attribute) {
            Some(i) => Some(&self.rows[i].1),
            None => None,
        }
    }
}

} // verus!
