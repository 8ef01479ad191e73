//! Process configuration: the four values the service needs — its own
//! port and worker count, and the store's host and port — read out of
//! the text of a YAML config file.

use vstd::prelude::*;

verus! {

/// Abstract value of a [`Config`].
pub ghost struct ConfigView {
    pub app_port: i64,
    pub app_workers: i64,
    pub redis_host: Seq<char>,
    pub redis_port: i64,
}

/// Why a configuration text was rejected.
#[derive(Clone, Copy, Debug, PartialEq, Eq, Structural)]
pub enum ConfigError {
    /// The text is not YAML, or lacks one of the four required
    /// entries, or holds one in the wrong type.
    Malformed,
}

/// The four configuration values that `app.port`, `app.workers`,
/// `redis.host` and `redis.port` of a well-formed configuration text
/// denote, if the text is well-formed.
pub uninterp spec fn yaml_config_of(s: Seq<char>) -> Option<(i64, i64, Seq<char>, i64)>;

/// Relies on yaml_rust::YamlLoader::load_from_str and on the Yaml
/// accessors as_i64 and as_str: parsing is a function of the text
/// alone; the values read are app.port, app.workers, redis.host and
/// redis.port of the first document, and a missing or ill-typed entry
/// yields no result, never a panic.
#[verifier::external_body]
fn parse_config_yaml(text: &str) -> (r: Option<(i64, i64, String, i64)>)
    ensures
        r is Some <==> yaml_config_of(text@) is Some,
        r matches Some(v) ==> (yaml_config_of(text@) matches Some(w) && w.0 == v.0 && w.1 == v.1
            && w.2 == v.2@ && w.3 == v.3),
{
    let docs = yaml_rust::YamlLoader::load_from_str(text).ok()?;
    let doc = docs.get(0)?;
    let app_port = doc["app"]["port"].as_i64()?;
    let app_workers = doc["app"]["workers"].as_i64()?;
    let redis_host = doc["redis"]["host"].as_str()?.to_owned();
    let redis_port = doc["redis"]["port"].as_i64()?;
    Some((app_port, app_workers, redis_host, redis_port))
}

/// The service's configuration.
#[derive(Debug, PartialEq, Eq)]
pub struct Config {
    app_port: i64,
    app_workers: i64,
    redis_host: String,
    redis_port: i64,
}

impl View for Config {
    type V = ConfigView;

    closed spec fn view(&self) -> ConfigView {
        ConfigView {
            app_port: self.app_port,
            app_workers: self.app_workers,
            redis_host: self.redis_host@,
            redis_port: self.redis_port,
        }
    }
}

impl Config {
    /// Builds the configuration from the text of a config file,
    /// rejecting text that does not carry all four values.
    pub fn new(text: &str) -> (r: Result<Config, ConfigError>)
        ensures
            r is Ok <==> yaml_config_of(text@) is Some,
            r matches Ok(c) ==> (yaml_config_of(text@) matches Some(w) && c@ == (ConfigView {
                app_port: w.0,
                app_workers: w.1,
                redis_host: w.2,
                redis_port: w.3,
            })),
            r matches Err(e) ==> e == ConfigError::Malformed,
    {
        match parse_config_yaml(text) {
            Some((app_port, app_workers, redis_host, redis_port)) => Ok(
                Config { app_port, app_workers, redis_host, redis_port },
            ),
            None => Err(ConfigError::Malformed),
        }
    }

    pub fn get_app_port(&self) -> (r: i64)
        ensures
            r == self@.app_port,
    {
        self.app_port
    }

    pub fn get_app_workers(&self) -> (r: i64)
        ensures
            r == self@.app_workers,
    {
        self.app_workers
    }

    pub fn get_redis_host(&self) -> (r: &str)
        ensures
            r@ == self@.redis_host,
    {
        self.redis_host.as_str()
    }

    pub fn get_redis_port(&self) -> (r: i64)
        ensures
            r == self@.redis_port,
    {
        self.redis_port
    }
}

} // verus!
