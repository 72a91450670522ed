use vstd::prelude::*;

verus! {

/// An input that always carries the key.
pub trait ProtectedInput {
    /// The key that the input carries.
    spec fn protected_key(&self) -> Seq<char>;

    fn get_protected_key(&self) -> (key: &str)
        ensures
            key@ == self.protected_key(),
    ;
}

} // verus!
