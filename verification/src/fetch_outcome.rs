//! What one region's store answered when asked for the parameter.

use crate::parameter_type::{ParameterType, ParameterTypeView};
use vstd::prelude::*;

verus! {

/// The parameter as the store returned it. The store may leave out the value
/// or the type.
#[derive(Debug)]
pub struct FoundParameter {
    pub value: Option<String>,
    pub type_param: Option<ParameterType>,
}

/// What a `FoundParameter` is, with the value as a sequence of characters.
pub struct FoundParameterView {
    pub value: Option<Seq<char>>,
    pub type_param: Option<ParameterTypeView>,
}

impl View for FoundParameter {
    type V = FoundParameterView;

    open spec fn view(&self) -> FoundParameterView {
        FoundParameterView {
            value: match self.value {
                Some(value) => Some(value@),
                None => None,
            },
            type_param: match self.type_param {
                Some(kind) => Some(kind@),
                None => None,
            },
        }
    }
}

/// The outcome of reading the parameter in one region: the three cases that
/// the calculation of a change tells apart. No error type of the transport
/// reaches the calculation.
#[derive(Debug)]
pub enum FetchOutcome {
    /// The store answered. `parameter` is `None` when the answer carried no
    /// parameter at all.
    Found { parameter: Option<FoundParameter> },
    /// The store holds no parameter of that name in the region.
    NotFound,
    /// The read failed for any other reason, described by the text.
    OtherError(String),
}

/// What a `FetchOutcome` is, with texts as sequences of characters.
pub enum FetchOutcomeView {
    Found { parameter: Option<FoundParameterView> },
    NotFound,
    OtherError(Seq<char>),
}

impl View for FetchOutcome {
    type V = FetchOutcomeView;

    open spec fn view(&self) -> FetchOutcomeView {
        match self {
            FetchOutcome::Found { parameter } => FetchOutcomeView::Found {
                parameter: match parameter {
                    Some(found) => Some(found@),
                    None => None,
                },
            },
            FetchOutcome::NotFound => FetchOutcomeView::NotFound,
            FetchOutcome::OtherError(detail) => FetchOutcomeView::OtherError(detail@),
        }
    }
}

} // verus!
