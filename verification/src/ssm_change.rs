//! The change that one region needs, and how it is calculated from what the
//! region's store answered.

use crate::fetch_outcome::{FetchOutcome, FetchOutcomeView};
use crate::parameter_type::{parameter_type_from_ref, ParameterType, ParameterTypeView};
use crate::ssm_change_error::{CalculateSSMChangeErrorKind, SSMChangeError};
use vstd::prelude::*;

verus! {

/// What has to be done to the parameter in a region.
#[derive(Debug, Clone, Copy, PartialEq, Eq, Structural)]
pub enum Action {
    NoAction,
    Update,
    Create,
}

impl Action {
    /// The mark that stands for this action in the first column of a row:
    /// `+` for a creation, `~` for an update, nothing where nothing changes.
    pub open spec fn marker(self) -> Seq<char> {
        match self {
            Action::Create => seq!['+'],
            Action::Update => seq!['~'],
            Action::NoAction => Seq::empty(),
        }
    }

    /// Returns the mark of this action.
    pub fn as_marker(&self) -> (mark: &'static str)
        ensures
            mark@ == self.marker(),
    {
        proof {
            reveal_strlit("+");
            reveal_strlit("~");
            reveal_strlit("");
        }
        let mark = match self {
            Action::Create => "+",
            Action::Update => "~",
            Action::NoAction => "",
        };
        assert(mark@ =~= self.marker());
        mark
    }
}

/// The change to make to the parameter in one region so that it holds the
/// desired value.
///
/// `value` is always the desired value. `type_param` is the desired type where
/// the parameter is created, and the type that the store already has where it
/// is updated or left alone: the store does not change a type in place.
#[derive(Debug)]
pub struct SSMChange {
    pub action: Action,
    pub region: String,
    pub parameter: String,
    pub value: String,
    pub type_param: ParameterType,
}

/// What an `SSMChange` is, with texts as sequences of characters.
pub struct SSMChangeView {
    pub action: Action,
    pub region: Seq<char>,
    pub parameter: Seq<char>,
    pub value: Seq<char>,
    pub type_param: ParameterTypeView,
}

impl View for SSMChange {
    type V = SSMChangeView;

    open spec fn view(&self) -> SSMChangeView {
        SSMChangeView {
            action: self.action,
            region: self.region@,
            parameter: self.parameter@,
            value: self.value@,
            type_param: self.type_param@,
        }
    }
}

impl Clone for SSMChange {
    fn clone(&self) -> (copy: SSMChange)
        ensures
            copy@ == self@,
    {
        SSMChange {
            action: self.action,
            region: self.region.clone(),
            parameter: self.parameter.clone(),
            value: self.value.clone(),
            type_param: self.type_param.clone(),
        }
    }
}

impl DeepView for SSMChange {
    type V = SSMChangeView;

    open spec fn deep_view(&self) -> SSMChangeView {
        self@
    }
}

impl SSMChangeView {
    /// The row that shows this change: the action's mark, the region, the
    /// parameter's name and the new value, each followed by a tab but the last.
    pub open spec fn row(self) -> Seq<char> {
        self.row_marked(self.action.marker())
    }

    /// The row of this change with `mark` standing in the first column.
    pub open spec fn row_marked(self, mark: Seq<char>) -> Seq<char> {
        mark + seq!['\t'] + self.region + seq!['\t'] + self.parameter + seq!['\t'] + self.value
    }
}

/// The change that a region needs, given what its store answered, or the reason
/// why none can be calculated.
///
/// The value of the change is the desired value in every case. Only a
/// difference in value makes an update; the type that the store has is kept.
pub open spec fn change_for(
    outcome: FetchOutcomeView,
    region: Seq<char>,
    parameter: Seq<char>,
    new_value: Seq<char>,
    new_type: ParameterTypeView,
) -> Result<SSMChangeView, SSMChangeError> {
    match outcome {
        FetchOutcomeView::Found { parameter: None } => Err(
            SSMChangeError { kind: CalculateSSMChangeErrorKind::NoParameterInResponse },
        ),
        FetchOutcomeView::Found { parameter: Some(found) } => match (found.value, found.type_param) {
            (Some(value), Some(kind)) => Ok(
                SSMChangeView {
                    action: if value == new_value {
                        Action::NoAction
                    } else {
                        Action::Update
                    },
                    region,
                    parameter,
                    value: new_value,
                    type_param: kind,
                },
            ),
            _ => Err(SSMChangeError { kind: CalculateSSMChangeErrorKind::NoValueInParameter }),
        },
        FetchOutcomeView::NotFound => Ok(
            SSMChangeView {
                action: Action::Create,
                region,
                parameter,
                value: new_value,
                type_param: new_type,
            },
        ),
        FetchOutcomeView::OtherError(_) => Err(
            SSMChangeError { kind: CalculateSSMChangeErrorKind::UnexpectedError },
        ),
    }
}

/// A calculated change or its error, with the change as its view.
pub open spec fn calculated(result: Result<SSMChange, SSMChangeError>) -> Result<
    SSMChangeView,
    SSMChangeError,
> {
    match result {
        Ok(change) => Ok(change@),
        Err(error) => Err(error),
    }
}

impl SSMChange {
    /// Makes a change from its five parts.
    pub fn new(
        action: Action,
        region: &str,
        parameter: &str,
        value: &str,
        type_param: ParameterType,
    ) -> (change: SSMChange)
        ensures
            change@ == (SSMChangeView {
                action,
                region: region@,
                parameter: parameter@,
                value: value@,
                type_param: type_param@,
            }),
    {
        SSMChange {
            action,
            region: region.to_owned(),
            parameter: parameter.to_owned(),
            value: value.to_owned(),
            type_param,
        }
    }

    /// Calculates the change that `region` needs from what its store answered
    /// when asked for `ssm_parameter`, so that the parameter holds `new_value`
    /// there.
    pub fn calculate_change(
        result: FetchOutcome,
        region: &str,
        ssm_parameter: &str,
        new_value: &str,
        new_type: &ParameterType,
    ) -> (change: Result<SSMChange, SSMChangeError>)
        ensures
            calculated(change) == change_for(
                result@,
                region@,
                ssm_parameter@,
                new_value@,
                new_type@,
            ),
            // The store has no such parameter: it is created, with the desired type.
            result is NotFound ==> change is Ok && change->Ok_0@ == (SSMChangeView {
                action: Action::Create,
                region: region@,
                parameter: ssm_parameter@,
                value: new_value@,
                type_param: new_type@,
            }),
            // The store has the parameter: it is left alone where the value is
            // the desired one and updated where it is not, and keeps its type.
            // An answer that lacks the value, whatever else it holds, or the
            // type, is an error.
            result@ matches FetchOutcomeView::Found { parameter: Some(found) } ==> match (
                found.value,
                found.type_param,
            ) {
                (Some(value), Some(kind)) => change is Ok && change->Ok_0@ == (SSMChangeView {
                    action: if value == new_value@ {
                        Action::NoAction
                    } else {
                        Action::Update
                    },
                    region: region@,
                    parameter: ssm_parameter@,
                    value: new_value@,
                    type_param: kind,
                }),
                _ => change is Err && change->Err_0.kind
                    == CalculateSSMChangeErrorKind::NoValueInParameter,
            },
            // The answer carries no parameter.
            result@ == (FetchOutcomeView::Found { parameter: None }) ==> change is Err
                && change->Err_0.kind == CalculateSSMChangeErrorKind::NoParameterInResponse,
            // The read failed otherwise: an error, never a change.
            result is OtherError ==> change is Err && change->Err_0.kind
                == CalculateSSMChangeErrorKind::UnexpectedError,
    {
        match result {
            FetchOutcome::Found { parameter } => {
                let found = match parameter {
                    Some(found) => found,
                    None => {
                        return Err(
                            SSMChangeError::new(CalculateSSMChangeErrorKind::NoParameterInResponse),
                        );
                    },
                };
                let value = match found.value {
                    Some(value) => value,
                    None => {
                        return Err(
                            SSMChangeError::new(CalculateSSMChangeErrorKind::NoValueInParameter),
                        );
                    },
                };
                let type_param = match found.type_param {
                    Some(type_param) => type_param,
                    None => {
                        return Err(
                            SSMChangeError::new(CalculateSSMChangeErrorKind::NoValueInParameter),
                        );
                    },
                };
                if value != new_value.to_owned() {
                    return Ok(
                        SSMChange::new(Action::Update, region, ssm_parameter, new_value, type_param),
                    );
                }
                Ok(SSMChange::new(Action::NoAction, region, ssm_parameter, new_value, type_param))
            },
            FetchOutcome::NotFound => Ok(
                SSMChange::new(
                    Action::Create,
                    region,
                    ssm_parameter,
                    new_value,
                    parameter_type_from_ref(new_type),
                ),
            ),
            FetchOutcome::OtherError(_) => Err(
                SSMChangeError::new(CalculateSSMChangeErrorKind::UnexpectedError),
            ),
        }
    }

    /// Renders the change as one row: mark, region, parameter and new value,
    /// separated by tabs.
    pub fn render(&self) -> (row: String)
        ensures
            row@ == self@.row(),
    {
        self.render_marked(self.action.as_marker())
    }

    /// Renders the change as one row with `mark` in the first column.
    pub fn render_marked(&self, mark: &str) -> (row: String)
        ensures
            row@ == self@.row_marked(mark@),
    {
        proof {
            reveal_strlit("\t");
        }
        let mut row = mark.to_owned();
        row.append("\t");
        row.append(self.region.as_str());
        row.append("\t");
        row.append(self.parameter.as_str());
        row.append("\t");
        row.append(self.value.as_str());
        assert("\t"@ =~= seq!['\t']);
        row
    }
}

impl PartialEq for SSMChange {
    /// Two changes are equal when all five parts are.
    fn eq(&self, other: &SSMChange) -> (equal: bool) {
        self.action == other.action && self.region == other.region && self.parameter
            == other.parameter && self.value == other.value && self.type_param == other.type_param
    }
}

impl vstd::std_specs::cmp::PartialEqSpecImpl for SSMChange {
    open spec fn obeys_eq_spec() -> bool {
        true
    }

    open spec fn eq_spec(&self, other: &SSMChange) -> bool {
        self@ == other@
    }
}

impl Eq for SSMChange {

}

} // verus!
