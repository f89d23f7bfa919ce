//! The two ways in which a fetch fails.

use vstd::prelude::*;

verus! {

/// Why a fetch gave no records.
#[derive(Debug, PartialEq, Eq)]
pub enum FetchError {
    /// The transport failed: no connection, no name, no answer in time. The
    /// text is the transport's own account of it.
    Network(String),
    /// A body arrived that is not JSON of the expected shape.
    Deserialization,
}

/// The mathematical value of a `FetchError`.
pub ghost enum FetchFailure {
    Network(Seq<char>),
    Deserialization,
}

impl View for FetchError {
    type V = FetchFailure;

    open spec fn view(&self) -> FetchFailure {
        match self {
            FetchError::Network(detail) => FetchFailure::Network(detail@),
            FetchError::Deserialization => FetchFailure::Deserialization,
        }
    }
}

impl DeepView for FetchError {
    type V = FetchFailure;

    open spec fn deep_view(&self) -> FetchFailure {
        self@
    }
}

/// The words that describe a failure.
pub open spec fn failure_text(failure: FetchFailure) -> Seq<char> {
    match failure {
        FetchFailure::Network(detail) => detail,
        FetchFailure::Deserialization => "error decoding response body"@,
    }
}

/// The mathematical value of a fetch's result.
pub open spec fn result_view<T: DeepView>(r: Result<T, FetchError>) -> Result<T::V, FetchFailure> {
    match r {
        Ok(value) => Ok(value.deep_view()),
        Err(error) => Err(error@),
    }
}

impl FetchError {
    /// The words that describe this failure.
    pub fn description(&self) -> (text: String)
        ensures
            text@ == failure_text(self@),
    {
        match self {
            FetchError::Network(detail) => detail.clone(),
            FetchError::Deserialization => String::from_str("error decoding response body"),
        }
    }
}

} // verus!
