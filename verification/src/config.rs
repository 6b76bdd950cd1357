//! What a run is asked to do.

use crate::parameter_type::{ParameterType, ParameterTypeView};
use vstd::prelude::*;

verus! {

/// The arguments of a run.
#[derive(Debug)]
pub struct CommandLineArgs {
    /// The name of the parameter to bring to one value everywhere.
    pub parameter: String,
    /// The value to set it to; asked for at the terminal when absent.
    pub value: Option<String>,
    /// The regions to work on; asked of the directory of regions when absent.
    pub regions: Option<Vec<String>>,
    /// The type with which the parameter is created where it does not exist.
    pub type_param: ParameterType,
    /// Whether to show what would change and change nothing.
    pub dry_run: bool,
}

/// What `CommandLineArgs` are, with texts as sequences of characters.
pub struct CommandLineArgsView {
    pub parameter: Seq<char>,
    pub value: Option<Seq<char>>,
    pub regions: Option<Seq<Seq<char>>>,
    pub type_param: ParameterTypeView,
    pub dry_run: bool,
}

impl View for CommandLineArgs {
    type V = CommandLineArgsView;

    open spec fn view(&self) -> CommandLineArgsView {
        CommandLineArgsView {
            parameter: self.parameter@,
            value: self.value.deep_view(),
            regions: self.regions.deep_view(),
            type_param: self.type_param@,
            dry_run: self.dry_run,
        }
    }
}

} // verus!
