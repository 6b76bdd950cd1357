use ssmync::{parameter_type_from_ref, ParameterType};

#[test]
fn known_kinds_have_the_labels_of_the_store() {
    assert_eq!(ParameterType::String.as_str(), "String");
    assert_eq!(ParameterType::SecureString.as_str(), "SecureString");
    assert_eq!(ParameterType::StringList.as_str(), "StringList");
    assert_eq!(ParameterType::Unknown(String::from("Blob")).as_str(), "Blob");
}

#[test]
fn labels_are_read_as_their_kinds() {
    assert_eq!(ParameterType::from_label("String"), ParameterType::String);
    assert_eq!(ParameterType::from_label("SecureString"), ParameterType::SecureString);
    assert_eq!(ParameterType::from_label("StringList"), ParameterType::StringList);
    assert_eq!(
        ParameterType::from_label("string"),
        ParameterType::Unknown(String::from("string"))
    );
    assert_eq!(ParameterType::from_label(""), ParameterType::Unknown(String::new()));
}

#[test]
fn kinds_round_trip_through_their_labels() {
    for kind in [
        ParameterType::String,
        ParameterType::SecureString,
        ParameterType::StringList,
        ParameterType::Unknown(String::from("FutureKind")),
    ] {
        assert_eq!(ParameterType::from_label(kind.as_str()), kind);
    }
    for label in ["String", "SecureString", "StringList", "FutureKind", "", " String"] {
        assert_eq!(ParameterType::from_label(label).as_str(), label);
    }
}

#[test]
fn a_copy_equals_what_it_copies() {
    for kind in [
        ParameterType::String,
        ParameterType::SecureString,
        ParameterType::StringList,
        ParameterType::Unknown(String::from("FutureKind")),
    ] {
        assert_eq!(parameter_type_from_ref(&kind), kind);
        assert_eq!(kind.clone(), kind);
    }
    assert_ne!(ParameterType::String, ParameterType::SecureString);
    assert_ne!(
        ParameterType::Unknown(String::from("a")),
        ParameterType::Unknown(String::from("b"))
    );
    assert_ne!(ParameterType::Unknown(String::from("String")), ParameterType::String);
}
