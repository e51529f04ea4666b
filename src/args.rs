use vstd::prelude::*;

verus! {

/// The configuration a user can give on the command line.
pub struct Cli {
    /// The root of the collection; a directory under the home directory where
    /// absent.
    pub directory: Option<String>,
    /// Whether reversible cards may be shown back side first; allowed where
    /// absent.
    pub reversible: Option<bool>,
}

impl Cli {
    /// Whether the session may show reversible cards back side first.
    pub fn allows_reversed(&self) -> (r: bool)
        ensures
            r == match self.reversible {
                Some(b) => b,
                None => true,
            },
    {
        match self.reversible {
            Some(b) => b,
            None => true,
        }
    }
}

} // verus!
