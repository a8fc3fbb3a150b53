//! A record with a single attribute, its name.

use vstd::prelude::*;

verus! {

/// A named record. Its only attribute is a text label, fixed when the record
/// is made.
#[derive(Debug)]
pub struct DemoObj {
    name: String,
}

impl View for DemoObj {
    type V = Seq<char>;

    /// A record is its label.
    closed spec fn view(&self) -> Seq<char> {
        self.name@
    }
}

impl Clone for DemoObj {
    /// An independent record with the same label. The two share no storage.
    fn clone(&self) -> (copy: Self)
        ensures
            copy@ == self@,
    {
        DemoObj { name: self.name.clone() }
    }
}

impl DemoObj {
    /// Makes a record labelled `obj_name`.
    pub fn new(obj_name: &str) -> (obj: DemoObj)
        ensures
            obj@ == obj_name@,
    {
        DemoObj { name: obj_name.to_owned() }
    }

    /// The label of the record.
    pub fn name(&self) -> (label: &str)
        ensures
            label@ == self@,
    {
        self.name.as_str()
    }
}

} // verus!
