use ssmync::{
    Action, CalculateSSMChangeErrorKind, FetchOutcome, FoundParameter, ParameterType, SSMChange,
    SSMChangeError,
};

fn found(value: Option<&str>, type_param: Option<ParameterType>) -> FetchOutcome {
    FetchOutcome::Found {
        parameter: Some(FoundParameter {
            value: value.map(String::from),
            type_param,
        }),
    }
}

#[test]
fn it_creates_new_ssm_change() {
    let test = SSMChange {
        action: Action::NoAction,
        region: String::from("ap-southeast-2"),
        parameter: String::from("/test"),
        value: String::from("test"),
        type_param: ParameterType::SecureString,
    };
    assert_eq!(
        SSMChange::new(
            Action::NoAction,
            "ap-southeast-2",
            "/test",
            "test",
            ParameterType::SecureString
        ),
        test
    );
}

#[test]
fn changes_differ_in_any_one_field() {
    let base = SSMChange::new(Action::Update, "r", "/p", "v", ParameterType::String);
    assert_eq!(base, base.clone());
    assert_ne!(
        base,
        SSMChange::new(Action::Create, "r", "/p", "v", ParameterType::String)
    );
    assert_ne!(
        base,
        SSMChange::new(Action::Update, "R", "/p", "v", ParameterType::String)
    );
    assert_ne!(
        base,
        SSMChange::new(Action::Update, "r", "/q", "v", ParameterType::String)
    );
    assert_ne!(
        base,
        SSMChange::new(Action::Update, "r", "/p", "V", ParameterType::String)
    );
    assert_ne!(
        base,
        SSMChange::new(Action::Update, "r", "/p", "v", ParameterType::StringList)
    );
}

#[test]
fn differing_value_gives_update_with_the_observed_type() {
    let change = SSMChange::calculate_change(
        found(Some("old"), Some(ParameterType::SecureString)),
        "us-east-1",
        "/app/key",
        "new",
        &ParameterType::String,
    );
    assert_eq!(
        change,
        Ok(SSMChange::new(
            Action::Update,
            "us-east-1",
            "/app/key",
            "new",
            ParameterType::SecureString
        ))
    );
}

#[test]
fn absent_parameter_gives_create_with_the_desired_type() {
    let change = SSMChange::calculate_change(
        FetchOutcome::NotFound,
        "eu-west-1",
        "/app/key",
        "v1",
        &ParameterType::String,
    );
    assert_eq!(
        change,
        Ok(SSMChange::new(
            Action::Create,
            "eu-west-1",
            "/app/key",
            "v1",
            ParameterType::String
        ))
    );
}

#[test]
fn equal_value_gives_no_action_with_the_observed_type() {
    let change = SSMChange::calculate_change(
        found(Some("same"), Some(ParameterType::StringList)),
        "eu-west-1",
        "/app/key",
        "same",
        &ParameterType::SecureString,
    );
    assert_eq!(
        change,
        Ok(SSMChange::new(
            Action::NoAction,
            "eu-west-1",
            "/app/key",
            "same",
            ParameterType::StringList
        ))
    );
}

#[test]
fn values_are_compared_exactly() {
    for remote in ["Value", "value ", " value", "valu", ""] {
        let change = SSMChange::calculate_change(
            found(Some(remote), Some(ParameterType::String)),
            "r",
            "/p",
            "value",
            &ParameterType::String,
        )
        .unwrap();
        assert_eq!(change.action, Action::Update);
        assert_eq!(change.value, "value");
    }
}

#[test]
fn unknown_observed_type_is_kept() {
    let change = SSMChange::calculate_change(
        found(Some("old"), Some(ParameterType::Unknown(String::from("Blob")))),
        "r",
        "/p",
        "new",
        &ParameterType::String,
    )
    .unwrap();
    assert_eq!(change.type_param, ParameterType::Unknown(String::from("Blob")));
}

#[test]
fn other_error_is_unexpected_error() {
    for detail in ["", "throttled", "access denied"] {
        let change = SSMChange::calculate_change(
            FetchOutcome::OtherError(String::from(detail)),
            "r",
            "/p",
            "v",
            &ParameterType::String,
        );
        assert_eq!(
            change,
            Err(SSMChangeError::new(CalculateSSMChangeErrorKind::UnexpectedError))
        );
    }
}

#[test]
fn absent_value_is_no_value_in_parameter() {
    for type_param in [None, Some(ParameterType::String), Some(ParameterType::SecureString)] {
        let change =
            SSMChange::calculate_change(found(None, type_param), "r", "/p", "v", &ParameterType::String);
        assert_eq!(
            change,
            Err(SSMChangeError::new(CalculateSSMChangeErrorKind::NoValueInParameter))
        );
    }
}

#[test]
fn absent_type_is_no_value_in_parameter() {
    let change =
        SSMChange::calculate_change(found(Some("v"), None), "r", "/p", "v", &ParameterType::String);
    assert_eq!(
        change,
        Err(SSMChangeError::new(CalculateSSMChangeErrorKind::NoValueInParameter))
    );
}

#[test]
fn absent_parameter_object_is_no_parameter_in_response() {
    let change = SSMChange::calculate_change(
        FetchOutcome::Found { parameter: None },
        "r",
        "/p",
        "v",
        &ParameterType::String,
    );
    assert_eq!(
        change,
        Err(SSMChangeError::new(CalculateSSMChangeErrorKind::NoParameterInResponse))
    );
}

#[test]
fn error_kinds_have_their_descriptions() {
    assert_eq!(
        CalculateSSMChangeErrorKind::NoParameterInResponse.as_str(),
        "no parameter in response"
    );
    assert_eq!(
        CalculateSSMChangeErrorKind::NoValueInParameter.as_str(),
        "no value in parameter"
    );
    assert_eq!(CalculateSSMChangeErrorKind::UnexpectedError.as_str(), "unexpected error");
    let error = SSMChangeError::new(CalculateSSMChangeErrorKind::NoValueInParameter);
    assert_eq!(error.kind, CalculateSSMChangeErrorKind::NoValueInParameter);
    assert_eq!(error.as_str(), "no value in parameter");
}

#[test]
fn rows_are_tab_separated_with_the_mark_first() {
    let create = SSMChange::new(Action::Create, "us-east-1", "/p", "v1", ParameterType::String);
    let update = SSMChange::new(Action::Update, "us-east-1", "/p", "v1", ParameterType::String);
    let none = SSMChange::new(Action::NoAction, "us-east-1", "/p", "v1", ParameterType::String);
    assert_eq!(create.render(), "+\tus-east-1\t/p\tv1");
    assert_eq!(update.render(), "~\tus-east-1\t/p\tv1");
    assert_eq!(none.render(), "\tus-east-1\t/p\tv1");
    assert_eq!(none.render_marked("?"), "?\tus-east-1\t/p\tv1");
    assert_eq!(Action::Create.as_marker(), "+");
    assert_eq!(Action::Update.as_marker(), "~");
    assert_eq!(Action::NoAction.as_marker(), "");
}

#[test]
fn row_of_empty_fields_is_three_tabs() {
    let none = SSMChange::new(Action::NoAction, "", "", "", ParameterType::String);
    assert_eq!(none.render(), "\t\t\t");
}
