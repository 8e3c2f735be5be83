//! The four layers of a configuration and where they are found.

use vstd::prelude::*;

verus! {

/// The name of the variable that selects the deployment environment.
pub const SELECTOR_VARIABLE: &'static str = "ENV";

/// The environment that is assumed where the selector names none.
pub const DEFAULT_ENVIRONMENT: &'static str = "development";

/// The directory of the source files.
pub const DIRECTORY: &'static str = "config";

/// The extension of the source files, which are TOML documents.
pub const EXTENSION: &'static str = "toml";

/// The prefix, compared without regard to case and followed by `_`, of the
/// variables that override keys.
pub const VARIABLE_PREFIX: &'static str = "app";

/// The environment that a selector stands for: its value, or
/// [`DEFAULT_ENVIRONMENT`] where it is unset or empty.
pub open spec fn spec_environment_name(selector: Option<Seq<char>>) -> Seq<char> {
    match selector {
        Some(name) if name.len() > 0 => name,
        _ => DEFAULT_ENVIRONMENT@,
    }
}

/// The path of the source file with the given stem.
pub open spec fn spec_source_path(stem: Seq<char>) -> Seq<char> {
    DIRECTORY@ + "/"@ + stem + "."@ + EXTENSION@
}

/// The mathematical value of [`SourceFiles`].
pub struct SourceFilesView {
    pub default: Seq<char>,
    pub environment: Seq<char>,
    pub local: Seq<char>,
}

/// The files that hold the layers for a selector.
pub open spec fn spec_source_files(selector: Option<Seq<char>>) -> SourceFilesView {
    SourceFilesView {
        default: spec_source_path("default"@),
        environment: spec_source_path(spec_environment_name(selector)),
        local: spec_source_path("local"@),
    }
}

/// The environment that the value of the selector variable stands for.
pub fn environment_name(selector: Option<&str>) -> (name: String)
    ensures
        name@ == spec_environment_name(
            match selector {
                Some(given) => Some(given@),
                None => None,
            },
        ),
{
    match selector {
        Some(given) => {
            if given.is_empty() {
                String::from_str(DEFAULT_ENVIRONMENT)
            } else {
                String::from_str(given)
            }
        },
        None => String::from_str(DEFAULT_ENVIRONMENT),
    }
}

/// The path of the source file with the given stem.
pub fn source_path(stem: &str) -> (path: String)
    ensures
        path@ == spec_source_path(stem@),
{
    String::from_str(DIRECTORY).concat("/").concat(stem).concat(".").concat(EXTENSION)
}

/// The paths of the three source files, relative to the working directory.
/// The default file is mandatory, the other two are optional.
#[derive(Debug, Clone, PartialEq, Eq)]
pub struct SourceFiles {
    pub default: String,
    pub environment: String,
    pub local: String,
}

impl View for SourceFiles {
    type V = SourceFilesView;

    open spec fn view(&self) -> SourceFilesView {
        SourceFilesView {
            default: self.default@,
            environment: self.environment@,
            local: self.local@,
        }
    }
}

impl SourceFiles {
    /// The files to read for the value of the selector variable.
    pub fn for_selector(selector: Option<&str>) -> (files: SourceFiles)
        ensures
            files@ == spec_source_files(
                match selector {
                    Some(given) => Some(given@),
                    None => None,
                },
            ),
    {
        let environment = environment_name(selector);
        SourceFiles {
            default: source_path("default"),
            environment: source_path(environment.as_str()),
            local: source_path("local"),
        }
    }
}

/// An unset selector stands for the same files as the selector
/// `development`, and so does an empty one.
pub proof fn unset_selector_is_development()
    ensures
        spec_source_files(None) == spec_source_files(Some("development"@)),
        spec_source_files(Some(Seq::<char>::empty())) == spec_source_files(Some("development"@)),
        spec_environment_name(None) == "development"@,
{
    reveal_strlit("development");
}

/// What was read of the four layers. A file that is absent, or that cannot be
/// read, is `None`.
#[derive(Debug, Clone, PartialEq, Eq)]
pub struct Sources {
    /// The text of the default file.
    pub default: Option<String>,
    /// The text of the file named after the environment.
    pub environment: Option<String>,
    /// The text of the local file.
    pub local: Option<String>,
    /// The variables of the process, each with its name and value.
    pub variables: Vec<(String, String)>,
}

/// The mathematical value of [`Sources`].
pub struct SourcesView {
    pub default: Option<Seq<char>>,
    pub environment: Option<Seq<char>>,
    pub local: Option<Seq<char>>,
    pub variables: Seq<(Seq<char>, Seq<char>)>,
}

impl View for Sources {
    type V = SourcesView;

    open spec fn view(&self) -> SourcesView {
        SourcesView {
            default: self.default.deep_view(),
            environment: self.environment.deep_view(),
            local: self.local.deep_view(),
            variables: self.variables.deep_view(),
        }
    }
}

} // verus!
