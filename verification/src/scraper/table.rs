use vstd::prelude::*;

verus! {

/// A record read from a table: a gift or one of its facets.
#[derive(Debug)]
pub enum Data {
    Gift(Gift),
    Facet(Facet),
}

/// A gift with the kind it was listed under and its facets.
#[derive(Debug)]
pub struct Gift {
    pub name: String,
    pub typek: String,
    pub facets: Vec<Facet>,
}

impl Gift {
    pub fn new(name: String, typek: String) -> (r: Self)
        ensures
            r.name == name,
            r.typek == typek,
            r.facets@.len() == 0,
    {
        Self { name, typek, facets: Vec::new() }
    }
}

/// A facet, named, with the text of its second cell.
#[derive(Debug)]
pub struct Facet {
    pub name: String,
    pub f: String,
}

impl Facet {
    pub fn new(name: String, f: String) -> (r: Self)
        ensures
            r == (Facet { name, f }),
    {
        Self { name, f }
    }
}

} // verus!
