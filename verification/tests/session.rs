use ssmync::{
    CalculateSSMChangeErrorKind, CommandLineArgs, Event, Failure, FetchOutcome, FoundParameter,
    ParameterType, Phase, SSMChangeError, Session, Step,
};

const WARNING: &str = "WARN: Value provided via CLI. If this is a secret, please ensure you remove this command from your shells history, or ensure a ' ' space was prepended to the command";
const VALUE_PROMPT: &str = "Enter parameter value: ";
const CONFIRMATION_PROMPT: &str = "\nPlease confirm you want to make these changes (y/N): ";
const SUCCESS: &str = "Successfully synced parameters across regions";

fn args(value: Option<&str>, regions: Option<Vec<&str>>, dry_run: bool) -> CommandLineArgs {
    CommandLineArgs {
        parameter: String::from("/app/key"),
        value: value.map(String::from),
        regions: regions.map(|rs| rs.into_iter().map(String::from).collect()),
        type_param: ParameterType::SecureString,
        dry_run,
    }
}

fn holds(value: &str, type_param: ParameterType) -> FetchOutcome {
    FetchOutcome::Found {
        parameter: Some(FoundParameter {
            value: Some(String::from(value)),
            type_param: Some(type_param),
        }),
    }
}

/// What the store answers in each region of the scenarios below.
fn answer(region: &str) -> FetchOutcome {
    match region {
        "us-east-1" => holds("old", ParameterType::String),
        "eu-west-1" => FetchOutcome::NotFound,
        "ap-southeast-2" => holds("new", ParameterType::StringList),
        "broken" => FetchOutcome::Found { parameter: None },
        _ => FetchOutcome::OtherError(String::from("unreachable region")),
    }
}

/// Drives a session to its end and returns what it asked for, as one line for
/// each step. `lines` are handed back to `Ask` in turn, and the write to
/// `failing_write` fails.
fn drive(
    args: CommandLineArgs,
    listed: Vec<&str>,
    lines: Vec<&str>,
    failing_write: Option<&str>,
) -> Vec<String> {
    let mut lines = lines.into_iter();
    let mut log = Vec::new();
    let (mut session, mut step) = Session::start(args);
    loop {
        let event = match &step {
            Step::ListRegions => {
                log.push(String::from("list"));
                Event::Regions(listed.iter().map(|r| String::from(*r)).collect())
            }
            Step::Say(line) => {
                log.push(format!("say {}", line));
                Event::Done
            }
            Step::Ask(prompt) => {
                log.push(format!("ask {}", prompt));
                Event::Line(String::from(lines.next().unwrap()))
            }
            Step::Fetch { parameter, region } => {
                log.push(format!("fetch {} {}", parameter, region));
                Event::Fetched(answer(region))
            }
            Step::ShowChanges => {
                let shown: Vec<String> = session
                    .changes()
                    .iter()
                    .map(|c| format!("{:?}:{}", c.action, c.region))
                    .collect();
                log.push(format!("show {}", shown.join(",")));
                Event::Done
            }
            Step::Write(request) => {
                let type_param = match &request.type_param {
                    Some(kind) => kind.as_str(),
                    None => "-",
                };
                log.push(format!(
                    "write {} {} {} {}",
                    request.name, request.region, request.value, type_param
                ));
                if failing_write == Some(request.region.as_str()) {
                    Event::Failed
                } else {
                    Event::Done
                }
            }
            Step::Finish => {
                log.push(String::from("finish"));
                assert!(session.is_closed());
                return log;
            }
            Step::Abort(failure) => {
                log.push(format!("abort {:?}", failure));
                assert!(session.is_closed());
                return log;
            }
        };
        step = session.advance(event);
    }
}

#[test]
fn confirmed_run_writes_what_the_change_set_asks_in_order() {
    let log = drive(
        args(Some("new"), Some(vec!["us-east-1", "ap-southeast-2", "eu-west-1"]), false),
        vec![],
        vec!["y\n"],
        None,
    );
    assert_eq!(
        log,
        vec![
            format!("say {}", WARNING),
            String::from("fetch /app/key us-east-1"),
            String::from("fetch /app/key ap-southeast-2"),
            String::from("fetch /app/key eu-west-1"),
            String::from("show Update:us-east-1,NoAction:ap-southeast-2,Create:eu-west-1"),
            format!("ask {}", CONFIRMATION_PROMPT),
            String::from("write /app/key us-east-1 new -"),
            String::from("write /app/key eu-west-1 new SecureString"),
            format!("say {}", SUCCESS),
            String::from("finish"),
        ]
    );
}

#[test]
fn regions_are_listed_and_the_value_is_asked_for_when_not_given() {
    let log = drive(
        args(None, None, false),
        vec!["eu-west-1", "us-east-1"],
        vec!["new  \n", "Y"],
        None,
    );
    assert_eq!(
        log,
        vec![
            String::from("list"),
            format!("ask {}", VALUE_PROMPT),
            String::from("fetch /app/key eu-west-1"),
            String::from("fetch /app/key us-east-1"),
            String::from("show Create:eu-west-1,Update:us-east-1"),
            format!("ask {}", CONFIRMATION_PROMPT),
            String::from("write /app/key eu-west-1 new SecureString"),
            String::from("write /app/key us-east-1 new -"),
            format!("say {}", SUCCESS),
            String::from("finish"),
        ]
    );
}

#[test]
fn declining_writes_nothing_and_succeeds() {
    for line in ["n", "", "n\n", "\n", "yes", "N"] {
        let log = drive(
            args(Some("new"), Some(vec!["us-east-1", "eu-west-1"]), false),
            vec![],
            vec![line],
            None,
        );
        assert_eq!(
            log,
            vec![
                format!("say {}", WARNING),
                String::from("fetch /app/key us-east-1"),
                String::from("fetch /app/key eu-west-1"),
                String::from("show Update:us-east-1,Create:eu-west-1"),
                format!("ask {}", CONFIRMATION_PROMPT),
                String::from("finish"),
            ]
        );
    }
}

#[test]
fn dry_run_shows_the_change_set_and_asks_nothing() {
    let log = drive(
        args(Some("new"), Some(vec!["us-east-1", "eu-west-1"]), true),
        vec![],
        vec![],
        None,
    );
    assert_eq!(
        log,
        vec![
            format!("say {}", WARNING),
            String::from("fetch /app/key us-east-1"),
            String::from("fetch /app/key eu-west-1"),
            String::from("show Update:us-east-1,Create:eu-west-1"),
            String::from("finish"),
        ]
    );
}

#[test]
fn failed_write_ends_the_run_before_the_remaining_writes() {
    let log = drive(
        args(Some("new"), Some(vec!["us-east-1", "eu-west-1"]), false),
        vec![],
        vec!["y"],
        Some("us-east-1"),
    );
    assert_eq!(
        log,
        vec![
            format!("say {}", WARNING),
            String::from("fetch /app/key us-east-1"),
            String::from("fetch /app/key eu-west-1"),
            String::from("show Update:us-east-1,Create:eu-west-1"),
            format!("ask {}", CONFIRMATION_PROMPT),
            String::from("write /app/key us-east-1 new -"),
            String::from("abort Collaborator"),
        ]
    );
}

#[test]
fn region_without_a_change_ends_the_run_before_the_next_region() {
    let log = drive(
        args(Some("new"), Some(vec!["us-east-1", "broken", "eu-west-1"]), false),
        vec![],
        vec![],
        None,
    );
    assert_eq!(
        log,
        vec![
            format!("say {}", WARNING),
            String::from("fetch /app/key us-east-1"),
            String::from("fetch /app/key broken"),
            String::from("abort Calculation(SSMChangeError { kind: NoParameterInResponse })"),
        ]
    );
    let log = drive(
        args(Some("new"), Some(vec!["elsewhere", "eu-west-1"]), false),
        vec![],
        vec![],
        None,
    );
    assert_eq!(
        log[2],
        "abort Calculation(SSMChangeError { kind: UnexpectedError })"
    );
}

#[test]
fn run_where_nothing_changes_reports_success_without_a_write() {
    let log = drive(
        args(Some("new"), Some(vec!["ap-southeast-2"]), false),
        vec![],
        vec!["y"],
        None,
    );
    assert_eq!(
        log,
        vec![
            format!("say {}", WARNING),
            String::from("fetch /app/key ap-southeast-2"),
            String::from("show NoAction:ap-southeast-2"),
            format!("ask {}", CONFIRMATION_PROMPT),
            format!("say {}", SUCCESS),
            String::from("finish"),
        ]
    );
}

#[test]
fn run_over_no_regions_shows_an_empty_change_set() {
    let log = drive(args(Some("new"), None, true), vec![], vec![], None);
    assert_eq!(
        log,
        vec![
            String::from("list"),
            format!("say {}", WARNING),
            String::from("show "),
            String::from("finish"),
        ]
    );
}

#[test]
fn failed_listing_ends_the_run() {
    let (mut session, step) = Session::start(args(Some("new"), None, false));
    assert!(matches!(step, Step::ListRegions));
    assert_eq!(session.phase(), Phase::ListingRegions);
    let step = session.advance(Event::Failed);
    assert!(matches!(step, Step::Abort(Failure::Collaborator)));
    assert_eq!(session.phase(), Phase::Closed);
}

#[test]
fn event_out_of_turn_ends_the_run() {
    let (mut session, _) = Session::start(args(None, None, false));
    let step = session.advance(Event::Line(String::from("y")));
    assert!(matches!(step, Step::Abort(Failure::OutOfTurn)));
    assert!(session.is_closed());
    let step = session.advance(Event::Regions(vec![String::from("us-east-1")]));
    assert!(matches!(step, Step::Abort(Failure::OutOfTurn)));
    let step = session.advance(Event::Fetched(FetchOutcome::NotFound));
    assert!(matches!(step, Step::Abort(Failure::OutOfTurn)));
    assert!(session.is_closed());
}

#[test]
fn calculation_failure_carries_the_error() {
    let (mut session, step) = Session::start(args(Some("v"), Some(vec!["us-east-1"]), false));
    assert!(matches!(step, Step::Say(_)));
    assert_eq!(session.phase(), Phase::Warning);
    let step = session.advance(Event::Done);
    assert!(matches!(step, Step::Fetch { .. }));
    let step = session.advance(Event::Fetched(FetchOutcome::Found {
        parameter: Some(FoundParameter { value: None, type_param: None }),
    }));
    match step {
        Step::Abort(Failure::Calculation(error)) => assert_eq!(
            error,
            SSMChangeError::new(CalculateSSMChangeErrorKind::NoValueInParameter)
        ),
        other => panic!("{:?}", other),
    }
}
