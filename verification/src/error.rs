//! The crate's error value: a human-readable message, collected as data
//! rather than raised, so a batch can carry every stage's failures.

use vstd::prelude::*;

verus! {

/// One recorded failure. Errors are values here: every fallible stage
/// returns them and the batch coordinator decides how far they reach.
#[derive(Debug)]
pub struct AuthzError {
    pub message: String,
}

impl View for AuthzError {
    type V = Seq<char>;

    open spec fn view(&self) -> Seq<char> {
        self.message@
    }
}

impl DeepView for AuthzError {
    type V = Seq<char>;

    open spec fn deep_view(&self) -> Seq<char> {
        self.message@
    }
}

impl AuthzError {
    /// Wraps a message as an error value.
    pub fn from_message(message: String) -> (r: AuthzError)
        ensures
            r@ == message@,
    {
        AuthzError { message }
    }

    /// The message carried by this error.
    pub fn message(&self) -> (r: &str)
        ensures
            r@ == self@,
    {
        self.message.as_str()
    }
}

/// The messages of a list of errors, in order.
pub fn stringify_errors(errs: &Vec<AuthzError>) -> (r: Vec<String>)
    ensures
        r.deep_view() == errs.deep_view(),
{
    let mut out: Vec<String> = Vec::new();
    let mut i: usize = 0;
    while i < errs.len()
        invariant
            i <= errs.len(),
            out@.len() == i,
            forall|j: int| 0 <= j < i ==> out@[j]@ == errs@[j].message@,
        decreases errs.len() - i,
    {
        out.push(errs[i].message.clone());
        i += 1;
    }
    proof {
        assert(out.deep_view() =~~= errs.deep_view());
    }
    out
}

} // verus!
