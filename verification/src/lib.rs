//! Keeps one named parameter of a regional parameter store at the same value
//! in every region: what has to change in each region is calculated from what
//! the store answered, shown to the user, and only then written.
//!
//! The library decides and formats; it reads and writes nothing itself. A
//! [`Session`] names each step of a run and takes in what came of it.

pub mod apply;
pub mod config;
pub mod fetch_outcome;
pub mod paint;
pub mod parameter_type;
pub mod regions;
pub mod session;
pub mod session_laws;
pub mod ssm_change;
pub mod ssm_change_error;
pub mod table;
pub mod text;

pub use apply::{process_ssm_changes, WriteRequest};
pub use config::CommandLineArgs;
pub use fetch_outcome::{FetchOutcome, FoundParameter};
pub use parameter_type::{parameter_type_from_ref, ParameterType};
pub use regions::region_names;
pub use session::{Event, Failure, Phase, Session, Step};
pub use ssm_change::{Action, SSMChange};
pub use ssm_change_error::{CalculateSSMChangeErrorKind, SSMChangeError};
pub use table::{change_table_header, change_table_keys, ssm_changes_table};
pub use text::{entered_value, is_confirmation};
