//! The failures that the lifecycle and the configuration report.

use vstd::prelude::*;
use vstd::string::*;

use deadpool::managed::BuildError;
use redis::RedisError;

verus! {

/// The error type of the store's client.
#[verifier::external_type_specification]
#[verifier::external_body]
pub struct ExRedisError(RedisError);

/// The error with which the pool engine refuses to build a pool.
#[verifier::external_type_specification]
#[verifier::external_body]
#[verifier::reject_recursive_types(E)]
pub struct ExBuildError<E>(BuildError<E>);

/// Why a returned connection is not reused.
#[derive(Debug, PartialEq)]
pub enum RecycleError {
    /// The reply to the liveness probe did not have the expected shape; the
    /// text names the part that was wrong.
    Message(String),
    /// The store's client could not carry out the probe.
    Backend(RedisError),
}

/// What a [`RecycleError`] holds, as mathematical values.
pub enum RecycleErrorView {
    Message(Seq<char>),
    Backend(RedisError),
}

impl View for RecycleError {
    type V = RecycleErrorView;

    open spec fn view(&self) -> RecycleErrorView {
        match self {
            RecycleError::Message(text) => RecycleErrorView::Message(text@),
            RecycleError::Backend(cause) => RecycleErrorView::Backend(*cause),
        }
    }
}

/// Why a configuration yields no manager.
#[derive(Debug)]
pub enum ConfigError {
    /// The store's client refused the seed nodes.
    Redis(RedisError),
}

impl From<RedisError> for ConfigError {
    fn from(cause: RedisError) -> (error: ConfigError) {
        ConfigError::Redis(cause)
    }
}

impl vstd::std_specs::convert::FromSpecImpl<RedisError> for ConfigError {
    open spec fn obeys_from_spec() -> bool {
        true
    }

    open spec fn from_spec(cause: RedisError) -> ConfigError {
        ConfigError::Redis(cause)
    }
}

/// The text that `redis::RedisError`'s `Display` impl writes for an error.
/// The error is opaque here, so the contract claims nothing of the text.
#[verifier::external_body]
fn cause_text(cause: &RedisError) -> String {
    format!("{}", cause)
}

/// A refusal of the store's client in words, where `detail` is the client's
/// own text.
pub fn refusal_message(detail: &str) -> (text: String)
    ensures
        text@ == "Redis: "@ + detail@,
{
    let mut text = "Redis: ".to_owned();
    text.append(detail);
    text
}

impl ConfigError {
    /// The error in words: `Redis: `, then the client's own text.
    pub fn message(&self) -> (text: String)
        ensures
            "Redis: "@.is_prefix_of(text@),
    {
        match self {
            ConfigError::Redis(cause) => {
                let detail = cause_text(cause);
                refusal_message(detail.as_str())
            },
        }
    }
}

/// Why no pool came of a configuration.
#[derive(Debug)]
pub enum CreatePoolError {
    /// The configuration was at fault.
    Config(ConfigError),
    /// The configuration was sound, and the pool engine refused to build.
    Build(BuildError<RedisError>),
}

} // verus!
