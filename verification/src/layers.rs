//! The doors to the `config` crate, which parses the sources, merges them and
//! converts the values. Verus takes the contracts in this file on trust.

use vstd::prelude::*;

verus! {

/// What one key of the merged settings reads as: as text, as a signed and as
/// an unsigned 32-bit number. Each reading is the value, or the message with
/// which the conversion is refused.
pub struct Entry {
    pub text: Result<Seq<char>, Seq<char>>,
    pub signed: Result<int, Seq<char>>,
    pub unsigned: Result<int, Seq<char>>,
}

/// The outcome of one typed lookup.
#[derive(Debug, Clone, PartialEq, Eq)]
pub enum Lookup<T> {
    /// The key holds a value that reads as the type asked for.
    Found(T),
    /// Nothing is stored under the key.
    Missing,
    /// The key holds a value that does not read as the type asked for.
    Invalid(String),
}

/// The mathematical value of a [`Lookup`].
pub enum Reading<T> {
    Found(T),
    Missing,
    Invalid(Seq<char>),
}

pub open spec fn text_reading(lookup: Lookup<String>) -> Reading<Seq<char>> {
    match lookup {
        Lookup::Found(value) => Reading::Found(value@),
        Lookup::Missing => Reading::Missing,
        Lookup::Invalid(message) => Reading::Invalid(message@),
    }
}

pub open spec fn signed_reading(lookup: Lookup<i32>) -> Reading<int> {
    match lookup {
        Lookup::Found(value) => Reading::Found(value as int),
        Lookup::Missing => Reading::Missing,
        Lookup::Invalid(message) => Reading::Invalid(message@),
    }
}

pub open spec fn unsigned_reading(lookup: Lookup<u32>) -> Reading<int> {
    match lookup {
        Lookup::Found(value) => Reading::Found(value as int),
        Lookup::Missing => Reading::Missing,
        Lookup::Invalid(message) => Reading::Invalid(message@),
    }
}

/// What a lookup of `key` as text gives on settings with these contents.
pub open spec fn text_at(settings: Map<Seq<char>, Entry>, key: Seq<char>) -> Reading<Seq<char>> {
    if !settings.contains_key(key) {
        Reading::Missing
    } else {
        match settings[key].text {
            Ok(value) => Reading::Found(value),
            Err(message) => Reading::Invalid(message),
        }
    }
}

/// What a lookup of `key` as a signed number gives.
pub open spec fn signed_at(settings: Map<Seq<char>, Entry>, key: Seq<char>) -> Reading<int> {
    if !settings.contains_key(key) {
        Reading::Missing
    } else {
        match settings[key].signed {
            Ok(value) => Reading::Found(value),
            Err(message) => Reading::Invalid(message),
        }
    }
}

/// What a lookup of `key` as an unsigned number gives.
pub open spec fn unsigned_at(settings: Map<Seq<char>, Entry>, key: Seq<char>) -> Reading<int> {
    if !settings.contains_key(key) {
        Reading::Missing
    } else {
        match settings[key].unsigned {
            Ok(value) => Reading::Found(value),
            Err(message) => Reading::Invalid(message),
        }
    }
}

/// Merged settings, as `config::ConfigBuilder::build` returns them.
#[verifier::external_type_specification]
#[verifier::external_body]
pub struct ExSettings(config::Config);

/// The sources registered for a merge, in the order of their registration.
/// It holds a `config::ConfigBuilder`, whose state parameter is bound by a
/// trait of that crate.
#[verifier::external_body]
pub struct SourceStack {
    builder: config::ConfigBuilder<config::builder::DefaultState>,
}

/// The TOML texts registered in a stack, the first registered first.
pub uninterp spec fn registered(stack: SourceStack) -> Seq<Seq<char>>;

/// The result of `config::ConfigBuilder::build` on these TOML texts, followed
/// by these variables as a `config::Environment` with this prefix: the
/// contents of the merged settings, or the message of the error.
pub uninterp spec fn merged(
    texts: Seq<Seq<char>>,
    prefix: Seq<char>,
    variables: Seq<(Seq<char>, Seq<char>)>,
) -> Result<Map<Seq<char>, Entry>, Seq<char>>;

/// What merged settings hold: each key for which `config::Config::get` does
/// not answer `NotFound`, with what the lookup reads there as each of the
/// three types.
pub uninterp spec fn contents(settings: config::Config) -> Map<Seq<char>, Entry>;

/// `config::Config::builder`: a builder without sources.
#[verifier::external_body]
pub(crate) fn empty_stack() -> (stack: SourceStack)
    ensures
        registered(stack) == Seq::<Seq<char>>::empty(),
{
    SourceStack { builder: config::Config::builder() }
}

/// `config::ConfigBuilder::add_source` with `config::File::from_str` in the
/// TOML format: the text is registered behind the sources that are there.
/// Nothing is parsed yet.
#[verifier::external_body]
pub(crate) fn push_text(stack: SourceStack, text: &str) -> (extended: SourceStack)
    ensures
        registered(extended) == registered(stack).push(text@),
{
    let source = config::File::from_str(text, config::FileFormat::Toml);
    SourceStack { builder: stack.builder.add_source(source) }
}

/// `config::ConfigBuilder::build`, after the variables were registered last
/// as a `config::Environment` with the prefix, reading the given pairs in
/// place of the process environment. The sources are parsed and merged in the
/// order of registration. The outcome depends on the registered texts, the
/// prefix and the pairs alone; an error is handed on as its message.
///
/// A top-level key with a subscript, such as `list[7]`, makes the crate grow
/// an array up to that index: memory is the limit of what a source may ask
/// for in this way, and nothing here bounds it.
#[verifier::external_body]
pub(crate) fn merge(stack: SourceStack, prefix: &str, variables: &Vec<(String, String)>) -> (outcome:
    Result<config::Config, String>)
    ensures
        match outcome {
            Ok(settings) => merged(registered(stack), prefix@, variables.deep_view()) == Ok::<
                Map<Seq<char>, Entry>,
                Seq<char>,
            >(contents(settings)),
            Err(message) => merged(registered(stack), prefix@, variables.deep_view()) == Err::<
                Map<Seq<char>, Entry>,
                Seq<char>,
            >(message@),
        },
{
    let given: config::Map<String, String> = variables.iter().cloned().collect();
    let overrides = config::Environment::with_prefix(prefix).source(Some(given));
    match stack.builder.add_source(overrides).build() {
        Ok(settings) => Ok(settings),
        Err(error) => Err(error.to_string()),
    }
}

/// `config::Config::get` for a `String`: the value, `Missing` where the crate
/// answers `NotFound`, or the message of any other error.
#[verifier::external_body]
pub(crate) fn lookup_text(settings: &config::Config, key: &str) -> (outcome: Lookup<String>)
    ensures
        text_reading(outcome) == text_at(contents(*settings), key@),
{
    match settings.get::<String>(key) {
        Ok(value) => Lookup::Found(value),
        Err(config::ConfigError::NotFound(_)) => Lookup::Missing,
        Err(error) => Lookup::Invalid(error.to_string()),
    }
}

/// `config::Config::get` for an `i32`, with the same three outcomes.
#[verifier::external_body]
pub(crate) fn lookup_signed(settings: &config::Config, key: &str) -> (outcome: Lookup<i32>)
    ensures
        signed_reading(outcome) == signed_at(contents(*settings), key@),
{
    match settings.get::<i32>(key) {
        Ok(value) => Lookup::Found(value),
        Err(config::ConfigError::NotFound(_)) => Lookup::Missing,
        Err(error) => Lookup::Invalid(error.to_string()),
    }
}

/// `config::Config::get` for a `u32`, with the same three outcomes.
#[verifier::external_body]
pub(crate) fn lookup_unsigned(settings: &config::Config, key: &str) -> (outcome: Lookup<u32>)
    ensures
        unsigned_reading(outcome) == unsigned_at(contents(*settings), key@),
{
    match settings.get::<u32>(key) {
        Ok(value) => Lookup::Found(value),
        Err(config::ConfigError::NotFound(_)) => Lookup::Missing,
        Err(error) => Lookup::Invalid(error.to_string()),
    }
}

} // verus!
