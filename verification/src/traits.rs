use vstd::prelude::*;
use vstd::string::*;

use crate::storage::storage::Storage;

verus! {

/// Collection of all possible dispatch errors.
#[derive(Clone, Debug)]
pub enum DispatchError {
    /// A domain rule violation, attributed to a named module.
    Module(String, String),
    /// Everything else, including wrapped storage and backend failures.
    Other(String),
}

/// The display text of a dispatch error.
pub open spec fn spec_dispatch_error_text(e: DispatchError) -> Seq<char> {
    match e {
        DispatchError::Module(modl, err) => err@ + " error in module "@ + modl@,
        DispatchError::Other(err) => err@,
    }
}

impl DispatchError {
    /// The display text of the error.
    pub fn message(&self) -> (r: String)
        ensures
            r@ == spec_dispatch_error_text(*self),
    {
        match self {
            DispatchError::Module(modl, err) => {
                let mut s = err.clone();
                s.append(" error in module ");
                s.append(modl.as_str());
                s
            },
            DispatchError::Other(err) => err.clone(),
        }
    }
}

/// Type that models dispatch results.
pub type DispatchResult<T> = Result<T, DispatchError>;

/// Trait for dispatching calls against the persistent storage.
pub trait Dispatch {
    type Origin;

    type Response;

    fn dispatch(&self, origin: Self::Origin, storage: &mut Storage) -> DispatchResult<
        Self::Response,
    >;
}

/// Trait for dealing with origin objects.
pub trait Origin {
    fn network(&self) -> String;

    fn user_id(&self) -> String;
}

} // verus!
