//! What a reconcile decision can fail with.
use vstd::prelude::*;

verus! {

/// Why a decision could not be taken.
#[derive(Debug)]
pub enum Error {
    /// The object's spec is not acceptable.
    Validation(String),
    /// Something the object refers to is not there.
    MissingDependency(String),
    /// A state that the code rules out.
    Invariant(String),
    /// A call to the cluster's API that failed.
    Kube(String),
}

/// Why a decision could not be taken, with its text.
#[verifier::ext_equal]
pub enum ErrorView {
    Validation(Seq<char>),
    MissingDependency(Seq<char>),
    Invariant(Seq<char>),
    Kube(Seq<char>),
}

impl View for Error {
    type V = ErrorView;

    open spec fn view(&self) -> ErrorView {
        match *self {
            Error::Validation(m) => ErrorView::Validation(m@),
            Error::MissingDependency(m) => ErrorView::MissingDependency(m@),
            Error::Invariant(m) => ErrorView::Invariant(m@),
            Error::Kube(m) => ErrorView::Kube(m@),
        }
    }
}

impl Clone for Error {
    fn clone(&self) -> (copy: Self)
        ensures
            copy == *self,
    {
        match self {
            Error::Validation(m) => Error::Validation(m.clone()),
            Error::MissingDependency(m) => Error::MissingDependency(m.clone()),
            Error::Invariant(m) => Error::Invariant(m.clone()),
            Error::Kube(m) => Error::Kube(m.clone()),
        }
    }
}

impl Error {
    /// The text of the error.
    pub open spec fn text(self) -> Seq<char> {
        match self {
            Error::Validation(m) => m@,
            Error::MissingDependency(m) => m@,
            Error::Invariant(m) => m@,
            Error::Kube(m) => m@,
        }
    }

    /// The text of the error.
    pub fn message(&self) -> (m: String)
        ensures
            m@ == self.text(),
    {
        match self {
            Error::Validation(m) => m.clone(),
            Error::MissingDependency(m) => m.clone(),
            Error::Invariant(m) => m.clone(),
            Error::Kube(m) => m.clone(),
        }
    }
}

} // verus!
