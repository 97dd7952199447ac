//! Small value types shared by the documents and the results.

use vstd::prelude::*;

verus! {

/// The host name of a server, as the caller wrote it.
#[derive(Debug, PartialEq, Eq)]
pub struct Hostname(pub String);

impl Clone for Hostname {
    fn clone(&self) -> (copy: Self)
        ensures
            copy == *self,
    {
        Hostname(self.0.clone())
    }
}

impl View for Hostname {
    type V = Seq<char>;

    open spec fn view(&self) -> Seq<char> {
        self.0@
    }
}

/// A point in time as a document gave it, or nothing where the document gave
/// none or gave one that could not be read.
#[derive(Debug, PartialEq, Eq)]
pub struct MaybeRfc2822DateTime(pub Option<String>);

impl Clone for MaybeRfc2822DateTime {
    fn clone(&self) -> (copy: Self)
        ensures
            copy == *self,
    {
        match &self.0 {
            Some(text) => MaybeRfc2822DateTime(Some(text.clone())),
            None => MaybeRfc2822DateTime(None),
        }
    }
}

impl MaybeRfc2822DateTime {
    /// No point in time.
    pub fn absent() -> (time: Self)
        ensures
            time.0 is None,
    {
        MaybeRfc2822DateTime(None)
    }

    /// Whether there is a point in time.
    pub fn is_present(&self) -> (present: bool)
        ensures
            present == (self.0 is Some),
    {
        self.0.is_some()
    }
}

} // verus!
