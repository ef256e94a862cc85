use vstd::prelude::*;
use vstd::string::StringExecFns;

verus! {

broadcast use vstd::string::group_string_axioms;

/// Why a lookup, an extraction or a validation failed.
#[derive(Debug)]
pub enum ConfigError {
    /// The named setting is not in the pool.
    Missing(String),
    /// A value of one kind was asked for as another kind.
    TypeMismatch { expected: String, present: String },
    /// The value has the right kind but is not acceptable; the text says why.
    IncorrectValue(String),
}

/// What a [`ConfigError`] says, with every text as a sequence of characters.
pub enum ConfigErrorView {
    Missing(Seq<char>),
    TypeMismatch { expected: Seq<char>, present: Seq<char> },
    IncorrectValue(Seq<char>),
}

impl View for ConfigError {
    type V = ConfigErrorView;

    open spec fn view(&self) -> ConfigErrorView {
        match self {
            ConfigError::Missing(name) => ConfigErrorView::Missing(name@),
            ConfigError::TypeMismatch { expected, present } => ConfigErrorView::TypeMismatch {
                expected: expected@,
                present: present@,
            },
            ConfigError::IncorrectValue(message) => ConfigErrorView::IncorrectValue(message@),
        }
    }
}

/// The diagnostic that an error is rendered as.
pub open spec fn diagnostic(error: ConfigErrorView) -> Seq<char> {
    match error {
        ConfigErrorView::Missing(name) => "CONFIGURATION ERROR: Field '"@ + name
            + "' is missing."@,
        ConfigErrorView::TypeMismatch { expected, present } =>
            "CONFIGURATION ERROR: Type mismatch, expected '"@ + expected + "' got '"@ + present
                + "'."@,
        ConfigErrorView::IncorrectValue(message) => "CONFIGURATION ERROR: Incorrect value: "@
            + message + "."@,
    }
}

impl ConfigError {
    /// Renders the error for a human reader.
    pub fn message(&self) -> (text: String)
        ensures
            text@ == diagnostic(self@),
    {
        match self {
            ConfigError::Missing(name) => {
                let text = "CONFIGURATION ERROR: Field '".to_string();
                let text = text.concat(name.as_str());
                text.concat("' is missing.")
            },
            ConfigError::TypeMismatch { expected, present } => {
                let text = "CONFIGURATION ERROR: Type mismatch, expected '".to_string();
                let text = text.concat(expected.as_str());
                let text = text.concat("' got '");
                let text = text.concat(present.as_str());
                text.concat("'.")
            },
            ConfigError::IncorrectValue(message) => {
                let text = "CONFIGURATION ERROR: Incorrect value: ".to_string();
                let text = text.concat(message.as_str());
                text.concat(".")
            },
        }
    }
}

} // verus!
