//! The kinds of value that the parameter store holds.

use vstd::prelude::*;

verus! {

/// The representation of a parameter's value in the store.
///
/// `Unknown` carries the store's own label of a kind that this library does
/// not know by name, so that it is handed back to the store unchanged.
#[derive(Debug)]
pub enum ParameterType {
    String,
    SecureString,
    StringList,
    Unknown(String),
}

/// What a `ParameterType` is, with the label of an unknown kind as a sequence
/// of characters.
pub enum ParameterTypeView {
    String,
    SecureString,
    StringList,
    Unknown(Seq<char>),
}

impl View for ParameterType {
    type V = ParameterTypeView;

    open spec fn view(&self) -> ParameterTypeView {
        match self {
            ParameterType::String => ParameterTypeView::String,
            ParameterType::SecureString => ParameterTypeView::SecureString,
            ParameterType::StringList => ParameterTypeView::StringList,
            ParameterType::Unknown(label) => ParameterTypeView::Unknown(label@),
        }
    }
}

impl DeepView for ParameterType {
    type V = ParameterTypeView;

    open spec fn deep_view(&self) -> ParameterTypeView {
        self@
    }
}

/// Whether `label` is the store's name of one of the three kinds known by name.
pub open spec fn is_known_label(label: Seq<char>) -> bool {
    label == "String"@ || label == "SecureString"@ || label == "StringList"@
}

impl ParameterTypeView {
    /// The name under which the store knows this kind.
    pub open spec fn label(self) -> Seq<char> {
        match self {
            ParameterTypeView::String => "String"@,
            ParameterTypeView::SecureString => "SecureString"@,
            ParameterTypeView::StringList => "StringList"@,
            ParameterTypeView::Unknown(label) => label,
        }
    }

    /// The kind that the store means by `label`.
    pub open spec fn from_label(label: Seq<char>) -> ParameterTypeView {
        if label == "String"@ {
            ParameterTypeView::String
        } else if label == "SecureString"@ {
            ParameterTypeView::SecureString
        } else if label == "StringList"@ {
            ParameterTypeView::StringList
        } else {
            ParameterTypeView::Unknown(label)
        }
    }

    /// An unknown kind never carries the label of a known one: such a value
    /// could not have come from the store.
    pub open spec fn well_formed(self) -> bool {
        self matches ParameterTypeView::Unknown(label) ==> !is_known_label(label)
    }
}

/// The three known labels are three different texts.
pub proof fn lemma_known_labels_differ()
    ensures
        "String"@ != "SecureString"@,
        "String"@ != "StringList"@,
        "SecureString"@ != "StringList"@,
{
    reveal_strlit("String");
    reveal_strlit("SecureString");
    reveal_strlit("StringList");
    assert("String"@.len() == 6);
    assert("SecureString"@.len() == 12);
    assert("StringList"@.len() == 10);
}

/// Reading a label and writing the kind out again gives the label back.
pub proof fn lemma_label_round_trip(label: Seq<char>)
    ensures
        ParameterTypeView::from_label(label).label() == label,
        ParameterTypeView::from_label(label).well_formed(),
{
}

/// Writing a kind's label and reading it again gives the kind back, the label
/// of an unknown kind included.
pub proof fn lemma_kind_round_trip(kind: ParameterTypeView)
    requires
        kind.well_formed(),
    ensures
        ParameterTypeView::from_label(kind.label()) == kind,
{
    lemma_known_labels_differ();
}

impl ParameterType {
    /// Returns the name under which the store knows this kind.
    pub fn as_str(&self) -> (label: &str)
        ensures
            label@ == self@.label(),
    {
        match self {
            ParameterType::String => "String",
            ParameterType::SecureString => "SecureString",
            ParameterType::StringList => "StringList",
            ParameterType::Unknown(label) => label.as_str(),
        }
    }

    /// Returns the kind that the store means by `label`: one of the three known
    /// by name, or else an unknown kind that keeps the label.
    pub fn from_label(label: &str) -> (kind: ParameterType)
        ensures
            kind@ == ParameterTypeView::from_label(label@),
            kind@.well_formed(),
    {
        let text = label.to_owned();
        if text == "String".to_owned() {
            ParameterType::String
        } else if text == "SecureString".to_owned() {
            ParameterType::SecureString
        } else if text == "StringList".to_owned() {
            ParameterType::StringList
        } else {
            ParameterType::Unknown(text)
        }
    }
}

impl Clone for ParameterType {
    fn clone(&self) -> (copy: ParameterType)
        ensures
            copy@ == self@,
    {
        parameter_type_from_ref(self)
    }
}

impl PartialEq for ParameterType {
    /// Two kinds are equal when they are the same known kind, or unknown kinds
    /// with the same label.
    fn eq(&self, other: &ParameterType) -> (equal: bool) {
        match (self, other) {
            (ParameterType::String, ParameterType::String) => true,
            (ParameterType::SecureString, ParameterType::SecureString) => true,
            (ParameterType::StringList, ParameterType::StringList) => true,
            (ParameterType::Unknown(mine), ParameterType::Unknown(theirs)) => *mine == *theirs,
            _ => false,
        }
    }
}

impl vstd::std_specs::cmp::PartialEqSpecImpl for ParameterType {
    open spec fn obeys_eq_spec() -> bool {
        true
    }

    open spec fn eq_spec(&self, other: &ParameterType) -> bool {
        self@ == other@
    }
}

impl Eq for ParameterType {

}

/// Returns an owned copy of a borrowed kind.
pub fn parameter_type_from_ref(p_type: &ParameterType) -> (copy: ParameterType)
    ensures
        copy@ == p_type@,
{
    match p_type {
        ParameterType::String => ParameterType::String,
        ParameterType::SecureString => ParameterType::SecureString,
        ParameterType::StringList => ParameterType::StringList,
        ParameterType::Unknown(label) => ParameterType::Unknown(label.clone()),
    }
}

} // verus!
