use vstd::prelude::*;
use crate::elements::Element;

verus! {

/// A saved diagram: the format's version, the elements and the next id.
pub struct DiagramFile {
    pub version: String,
    pub elements: Vec<Element>,
    pub next_id: usize,
}

impl DiagramFile {
    /// A diagram of the current format version.
    pub fn new(elements: Vec<Element>, next_id: usize) -> (d: Self)
        ensures
            d.version@ == "0.1.0"@,
            d.elements@ == elements@,
            d.next_id == next_id,
    {
        DiagramFile { version: String::from_str("0.1.0"), elements, next_id }
    }
}

} // verus!
