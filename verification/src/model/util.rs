//! Small helpers for showing values.

use vstd::prelude::*;

verus! {

/// Text shown in place of a value that is not there.
pub open spec fn not_available() -> Seq<char> {
    "N/A"@
}

/// Shows what an option holds, or `"N/A"` where it holds nothing.
pub trait OptionNaExt<T> {
    /// The option itself.
    spec fn held(&self) -> Option<T>;

    /// The text that `f` gives for the value held, or `"N/A"`.
    fn or_na<F>(&self, f: F) -> (text: String) where F: Fn(&T) -> String
        requires
            self.held() matches Some(value) ==> call_requires(f, (&value,)),
        ensures
            match self.held() {
                Some(value) => call_ensures(f, (&value,), text),
                None => text@ == not_available(),
            },
    ;
}

impl<T> OptionNaExt<T> for Option<T> {
    open spec fn held(&self) -> Option<T> {
        *self
    }

    fn or_na<F>(&self, f: F) -> (text: String) where F: Fn(&T) -> String {
        match self {
            Some(value) => f(value),
            None => "N/A".to_owned(),
        }
    }
}

} // verus!
