use vstd::prelude::*;

verus! {

/// Why no configuration could be produced.
#[derive(Debug, Clone, PartialEq, Eq)]
pub enum ConfigError {
    /// The mandatory default source is absent.
    MissingSource,
    /// A source that is present does not hold well-formed text.
    Malformed { message: String },
    /// The merged settings hold nothing under a required key.
    MissingField { key: String },
    /// The merged settings hold under a required key a value that cannot be
    /// read as the type of the field.
    InvalidField { key: String, message: String },
}

/// The mathematical value of a [`ConfigError`].
pub enum ConfigErrorView {
    MissingSource,
    Malformed { message: Seq<char> },
    MissingField { key: Seq<char> },
    InvalidField { key: Seq<char>, message: Seq<char> },
}

impl View for ConfigError {
    type V = ConfigErrorView;

    open spec fn view(&self) -> ConfigErrorView {
        match *self {
            ConfigError::MissingSource => ConfigErrorView::MissingSource,
            ConfigError::Malformed { message } => ConfigErrorView::Malformed { message: message@ },
            ConfigError::MissingField { key } => ConfigErrorView::MissingField { key: key@ },
            ConfigError::InvalidField { key, message } => ConfigErrorView::InvalidField {
                key: key@,
                message: message@,
            },
        }
    }
}

/// The line of text that describes an error to a person.
pub open spec fn spec_message(error: ConfigErrorView) -> Seq<char> {
    match error {
        ConfigErrorView::MissingSource => "the default configuration source is missing"@,
        ConfigErrorView::Malformed { message } => "malformed configuration source: "@ + message,
        ConfigErrorView::MissingField { key } => "missing configuration field `"@ + key + "`"@,
        ConfigErrorView::InvalidField { key, message } => "invalid configuration field `"@ + key
            + "`: "@ + message,
    }
}

impl ConfigError {
    /// Describes the error in one line.
    pub fn message(&self) -> (text: String)
        ensures
            text@ == spec_message(self@),
    {
        match self {
            ConfigError::MissingSource => String::from_str(
                "the default configuration source is missing",
            ),
            ConfigError::Malformed { message } => String::from_str(
                "malformed configuration source: ",
            ).concat(message.as_str()),
            ConfigError::MissingField { key } => String::from_str(
                "missing configuration field `",
            ).concat(key.as_str()).concat("`"),
            ConfigError::InvalidField { key, message } => String::from_str(
                "invalid configuration field `",
            ).concat(key.as_str()).concat("`: ").concat(message.as_str()),
        }
    }

    /// Whether the error is about what the merged settings hold, not about a
    /// source.
    pub fn is_about_field(&self) -> (answer: bool)
        ensures
            answer == (self@ is MissingField || self@ is InvalidField),
    {
        match self {
            ConfigError::MissingField { .. } => true,
            ConfigError::InvalidField { .. } => true,
            _ => false,
        }
    }
}

} // verus!
