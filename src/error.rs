use vstd::prelude::*;

verus! {

/// The cause of a failed decode, kept as the display text of the
/// underlying codec error so that no diagnostic is lost.
#[derive(Debug, Clone)]
pub struct Error {
    message: String,
}

impl View for Error {
    type V = Seq<char>;

    closed spec fn view(&self) -> Seq<char> {
        self.message@
    }
}

impl Error {
    pub fn new(message: String) -> (r: Error)
        ensures
            r@ == message@,
    {
        Error { message }
    }

    /// The display text of the wrapped cause.
    pub fn to_string(&self) -> (r: String)
        ensures
            r@ == self@,
    {
        self.message.clone()
    }
}

} // verus!
