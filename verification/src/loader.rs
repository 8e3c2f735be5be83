//! From the layers that were read to a typed configuration.

use crate::error::{ConfigError, ConfigErrorView};
use crate::layers::{
    contents, empty_stack, lookup_signed, lookup_text, lookup_unsigned, merge, merged, push_text,
    registered, signed_at, signed_reading, text_at, text_reading, unsigned_at, unsigned_reading,
    Entry, Lookup, Reading,
};
use crate::settings::{AppConfig, AppConfigView, Database, DatabaseView};
use crate::sources::{Sources, SourcesView, VARIABLE_PREFIX};
use vstd::prelude::*;

verus! {

/// The key of [`AppConfig::host`].
pub const HOST: &'static str = "host";

/// The key of [`AppConfig::port`].
pub const PORT: &'static str = "port";

/// The key of [`AppConfig::auth_token`].
pub const AUTH_TOKEN: &'static str = "auth_token";

/// The key of [`Database::url`].
pub const DATABASE_URL: &'static str = "database.url";

/// The key of [`Database::max_connections`].
pub const DATABASE_MAX_CONNECTIONS: &'static str = "database.max_connections";

/// The value of a required field, or the error that names its key.
pub open spec fn spec_required<T>(key: Seq<char>, reading: Reading<T>) -> Result<
    T,
    ConfigErrorView,
> {
    match reading {
        Reading::Found(value) => Ok(value),
        Reading::Missing => Err(ConfigErrorView::MissingField { key }),
        Reading::Invalid(message) => Err(ConfigErrorView::InvalidField { key, message }),
    }
}

/// The configuration that five readings make. Every field is required; of
/// several that fail, the error is about the first in the order of the
/// parameters.
pub open spec fn spec_from_readings(
    host: Reading<Seq<char>>,
    port: Reading<int>,
    auth_token: Reading<Seq<char>>,
    url: Reading<Seq<char>>,
    max_connections: Reading<int>,
) -> Result<AppConfigView, ConfigErrorView> {
    match spec_required(HOST@, host) {
        Err(error) => Err(error),
        Ok(host) => match spec_required(PORT@, port) {
            Err(error) => Err(error),
            Ok(port) => match spec_required(AUTH_TOKEN@, auth_token) {
                Err(error) => Err(error),
                Ok(auth_token) => match spec_required(DATABASE_URL@, url) {
                    Err(error) => Err(error),
                    Ok(url) => match spec_required(DATABASE_MAX_CONNECTIONS@, max_connections) {
                        Err(error) => Err(error),
                        Ok(max_connections) => Ok(
                            AppConfigView {
                                host,
                                port,
                                auth_token,
                                database: DatabaseView { url, max_connections },
                            },
                        ),
                    },
                },
            },
        },
    }
}

/// The configuration that merged settings with these contents read as.
pub open spec fn spec_decode(settings: Map<Seq<char>, Entry>) -> Result<
    AppConfigView,
    ConfigErrorView,
> {
    spec_from_readings(
        text_at(settings, HOST@),
        signed_at(settings, PORT@),
        text_at(settings, AUTH_TOKEN@),
        text_at(settings, DATABASE_URL@),
        unsigned_at(settings, DATABASE_MAX_CONNECTIONS@),
    )
}

/// An optional layer as a sequence of texts: its text, or nothing.
pub open spec fn optional_text(layer: Option<Seq<char>>) -> Seq<Seq<char>> {
    match layer {
        Some(text) => seq![text],
        None => Seq::empty(),
    }
}

/// The texts that are merged, lowest precedence first: the default layer,
/// then the environment's layer and the local layer where they are present.
pub open spec fn layer_texts(sources: SourcesView) -> Seq<Seq<char>>
    recommends
        sources.default is Some,
{
    seq![sources.default->0] + optional_text(sources.environment) + optional_text(sources.local)
}

/// What loading gives on these sources.
pub open spec fn spec_load(sources: SourcesView) -> Result<AppConfigView, ConfigErrorView> {
    if sources.default is None {
        Err(ConfigErrorView::MissingSource)
    } else {
        match merged(layer_texts(sources), VARIABLE_PREFIX@, sources.variables) {
            Err(message) => Err(ConfigErrorView::Malformed { message }),
            Ok(settings) => spec_decode(settings),
        }
    }
}

/// The mathematical value of the outcome of loading.
pub open spec fn outcome_view(outcome: Result<AppConfig, ConfigError>) -> Result<
    AppConfigView,
    ConfigErrorView,
> {
    match outcome {
        Ok(config) => Ok(config@),
        Err(error) => Err(error@),
    }
}

impl<T> Lookup<T> {
    /// The value that was found, or the error that names the key.
    pub fn required(self, key: &str) -> (outcome: Result<T, ConfigError>)
        ensures
            match self {
                Lookup::Found(value) => outcome == Ok::<T, ConfigError>(value),
                Lookup::Missing => outcome is Err && outcome->Err_0@ == (ConfigErrorView::MissingField {
                    key: key@,
                }),
                Lookup::Invalid(message) => outcome is Err && outcome->Err_0@ == (
                ConfigErrorView::InvalidField { key: key@, message: message@ }),
            },
    {
        match self {
            Lookup::Found(value) => Ok(value),
            Lookup::Missing => Err(ConfigError::MissingField { key: String::from_str(key) }),
            Lookup::Invalid(message) => Err(
                ConfigError::InvalidField { key: String::from_str(key), message },
            ),
        }
    }
}

impl AppConfig {
    /// Makes a configuration of the outcomes of the five lookups. It exists
    /// only if every lookup found a value; else the error names the first key,
    /// in the order of the parameters, whose lookup failed.
    pub fn from_lookups(
        host: Lookup<String>,
        port: Lookup<i32>,
        auth_token: Lookup<String>,
        url: Lookup<String>,
        max_connections: Lookup<u32>,
    ) -> (outcome: Result<AppConfig, ConfigError>)
        ensures
            outcome_view(outcome) == spec_from_readings(
                text_reading(host),
                signed_reading(port),
                text_reading(auth_token),
                text_reading(url),
                unsigned_reading(max_connections),
            ),
    {
        let host = host.required(HOST)?;
        let port = port.required(PORT)?;
        let auth_token = auth_token.required(AUTH_TOKEN)?;
        let url = url.required(DATABASE_URL)?;
        let max_connections = max_connections.required(DATABASE_MAX_CONNECTIONS)?;
        Ok(AppConfig { host, port, auth_token, database: Database { url, max_connections } })
    }

    /// Reads the five fields out of merged settings.
    fn from_settings(settings: &config::Config) -> (outcome: Result<AppConfig, ConfigError>)
        ensures
            outcome_view(outcome) == spec_decode(contents(*settings)),
    {
        let host = lookup_text(settings, HOST);
        let port = lookup_signed(settings, PORT);
        let auth_token = lookup_text(settings, AUTH_TOKEN);
        let url = lookup_text(settings, DATABASE_URL);
        let max_connections = lookup_unsigned(settings, DATABASE_MAX_CONNECTIONS);
        AppConfig::from_lookups(host, port, auth_token, url, max_connections)
    }

    /// Loads the configuration from the layers that were read.
    ///
    /// The layers are merged key by key in the order default, environment,
    /// local, variables, a later layer overriding an earlier one; an optional
    /// layer that is absent is skipped. Without the default layer loading
    /// fails with [`ConfigError::MissingSource`]; where a layer is not
    /// well-formed, with [`ConfigError::Malformed`]; where the merged settings
    /// lack a field or hold a value of another type for it, with
    /// [`ConfigError::MissingField`] or [`ConfigError::InvalidField`].
    pub fn new(sources: &Sources) -> (outcome: Result<AppConfig, ConfigError>)
        ensures
            outcome_view(outcome) == spec_load(sources@),
            sources.default is None ==> outcome is Err && outcome->Err_0@
                == ConfigErrorView::MissingSource,
    {
        match &sources.default {
            None => Err(ConfigError::MissingSource),
            Some(default) => {
                let mut stack = push_text(empty_stack(), default.as_str());
                if let Some(text) = &sources.environment {
                    stack = push_text(stack, text.as_str());
                }
                if let Some(text) = &sources.local {
                    stack = push_text(stack, text.as_str());
                }
                assert(registered(stack) =~= layer_texts(sources@));
                match merge(stack, VARIABLE_PREFIX, &sources.variables) {
                    Err(message) => Err(ConfigError::Malformed { message }),
                    Ok(settings) => AppConfig::from_settings(&settings),
                }
            },
        }
    }
}

/// Loading is repeatable: two outcomes of loading the same sources are equal
/// field by field.
pub proof fn loading_is_repeatable(
    sources: Sources,
    first: Result<AppConfig, ConfigError>,
    second: Result<AppConfig, ConfigError>,
)
    requires
        outcome_view(first) == spec_load(sources@),
        outcome_view(second) == spec_load(sources@),
    ensures
        outcome_view(first) == outcome_view(second),
        first is Ok ==> second is Ok && first->Ok_0@ == second->Ok_0@,
{
}

/// The order in which the layers reach the merge: the default layer comes
/// first, the environment's layer directly behind it, the local layer last of
/// the files, and an absent layer takes no place.
pub proof fn layers_keep_their_order(sources: SourcesView)
    requires
        sources.default is Some,
    ensures
        layer_texts(sources).len() == 1 + optional_text(sources.environment).len() + optional_text(
            sources.local,
        ).len(),
        layer_texts(sources).first() == sources.default->0,
        sources.environment is Some ==> layer_texts(sources)[1] == sources.environment->0,
        sources.local is Some ==> layer_texts(sources).last() == sources.local->0,
{
}

} // verus!
