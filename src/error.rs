use vstd::prelude::*;

verus! {

/// An error of the checklist tool, carrying a one-line description.
#[derive(Debug, Clone)]
pub struct ChecklistError {
    msg: String,
}

impl View for ChecklistError {
    type V = Seq<char>;

    /// The description.
    closed spec fn view(&self) -> Seq<char> {
        self.msg@
    }
}

impl ChecklistError {
    /// An error described by `msg`.
    pub fn from(msg: &str) -> (r: Self)
        ensures
            r@ == msg@,
    {
        ChecklistError { msg: String::from_str(msg) }
    }

    /// The error reported when the checklist directory does not exist.
    pub fn missing_directory(path: &str) -> (r: Self)
        ensures
            r@ == "Create a checklists directory at "@ + path@,
    {
        ChecklistError {
            msg: String::from_str("Create a checklists directory at ").concat(path),
        }
    }

    /// The description alone.
    pub fn message(&self) -> (r: &str)
        ensures
            r@ == self@,
    {
        self.msg.as_str()
    }

    /// The text shown to a user: the description after an `error: ` prefix.
    pub fn to_string(&self) -> (r: String)
        ensures
            r@ == "error: "@ + self@,
    {
        String::from_str("error: ").concat(self.msg.as_str())
    }
}

} // verus!
