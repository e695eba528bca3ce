use vstd::prelude::*;

verus! {

/// Property provides a convenient way to store window properties
pub struct Property {
    /// atom id of the property
    pub id: u32,
    /// atom name of the property
    pub name: String,
    /// value of the property
    pub value: String,
}

impl Property {
    /// Create a new property with an empty value
    pub fn new(id: u32, name: &str) -> (p: Self)
        ensures
            p.id == id,
            p.name@ == name@,
            p.value@ == Seq::<char>::empty(),
    {
        Self { id, name: name.to_owned(), value: String::new() }
    }
}

} // verus!
