use vstd::prelude::*;

verus! {

/// Failure of a module load step.
#[derive(Debug)]
pub enum ModuleErr {
    /// A relocation could not be applied; the text says which and why.
    RelocationFailed(String),
}

impl ModuleErr {
    /// The description carried by the error.
    pub open spec fn text(&self) -> Seq<char> {
        match self {
            ModuleErr::RelocationFailed(m) => m@,
        }
    }

    /// A relocation failure described by `text`.
    pub fn failed(text: &str) -> (r: ModuleErr)
        ensures
            r.text() == text@,
    {
        ModuleErr::RelocationFailed(text.to_owned())
    }

    /// The human-readable description carried by the error.
    pub fn message(&self) -> (r: &str)
        ensures
            r@ == self.text(),
    {
        match self {
            ModuleErr::RelocationFailed(m) => m.as_str(),
        }
    }
}

} // verus!
