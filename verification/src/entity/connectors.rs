use vstd::prelude::*;

verus! {

/// The tag of a source site. One variant per connector.
#[derive(Copy, Clone, Debug, Hash, PartialEq, Eq, Structural)]
pub enum Connectors {
    Manganel,
}

impl Connectors {
    /// The display label of the source.
    pub open spec fn label_spec(self) -> Seq<char> {
        match self {
            Connectors::Manganel => "Manganato"@,
        }
    }

    /// The display label of the source, as the user interface shows it.
    pub fn label(&self) -> (r: &'static str)
        ensures
            r@ == self.label_spec(),
    {
        match self {
            Connectors::Manganel => "Manganato",
        }
    }

    /// The label as an owned string.
    pub fn to_string(&self) -> (r: String)
        ensures
            r@ == self.label_spec(),
    {
        self.label().to_owned()
    }
}

} // verus!
