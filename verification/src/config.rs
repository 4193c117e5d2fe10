//! The configuration of the service, and how it is read from the variables
//! of the environment.

use vstd::prelude::*;
use vstd::string::StringExecFns;
use crate::error::{fails_with, AppError, AppResult, ErrorKind};
use crate::text::{
    lowercase_text, opt_text, parse_u16, parse_u64, str_eq, to_lowercase, u16_of_text,
    u64_of_text,
};

verus! {

/// The configuration of the service.
#[derive(Debug, Clone)]
pub struct Config {
    pub database: DatabaseConfig,
    pub server: ServerConfig,
    pub storage: StorageConfig,
}

/// Where the database is reached.
#[derive(Debug, Clone)]
pub struct DatabaseConfig {
    pub url: String,
}

/// Where the service listens.
#[derive(Debug, Clone)]
pub struct ServerConfig {
    pub host: String,
    pub port: u16,
}

/// Where images are kept, and how large one may be.
#[derive(Debug, Clone)]
pub struct StorageConfig {
    pub storage_type: StorageType,
    pub local: Option<LocalStorageConfig>,
    pub s3: Option<S3Config>,
    pub max_file_size_mb: u64,
}

/// The kind of store that keeps the images.
#[derive(Debug, Clone, Copy, PartialEq, Eq, Structural)]
pub enum StorageType {
    Local,
    S3,
}

/// A directory of the local file system as the store.
#[derive(Debug, Clone)]
pub struct LocalStorageConfig {
    pub path: String,
}

/// A bucket of an object store as the store.
#[derive(Debug, Clone)]
pub struct S3Config {
    pub bucket_name: String,
    pub region: String,
    pub access_key_id: Option<String>,
    pub secret_access_key: Option<String>,
}

/// The largest size of an image in megabytes where none is configured.
pub fn default_max_file_size() -> (r: u64)
    ensures
        r == 5,
{
    5
}

/// The variables of the environment that the configuration is read from,
/// each absent where the variable is not set.
#[derive(Debug, Clone)]
pub struct Environment {
    pub database_url: Option<String>,
    pub server_host: Option<String>,
    pub server_port: Option<String>,
    pub storage_type: Option<String>,
    pub storage_max_file_size_mb: Option<String>,
    pub s3_bucket_name: Option<String>,
    pub aws_region: Option<String>,
    pub aws_access_key_id: Option<String>,
    pub aws_secret_access_key: Option<String>,
    pub local_storage_path: Option<String>,
}

/// The text of a variable, or the given text where the variable is not set.
pub open spec fn value_or(value: Option<String>, fallback: Seq<char>) -> Seq<char> {
    match value {
        Some(s) => s@,
        None => fallback,
    }
}

/// The port of the server: the number in the variable, or 8080 where the
/// variable is not set or holds no port.
pub open spec fn port_of(value: Option<String>) -> u16 {
    match value {
        Some(s) => match u16_of_text(s@) {
            Some(p) => p,
            None => 8080,
        },
        None => 8080,
    }
}

/// The largest size of an image in megabytes: the number in the variable, or
/// five where the variable is not set or holds no number.
pub open spec fn max_file_size_of(value: Option<String>) -> u64 {
    match value {
        Some(s) => match u64_of_text(s@) {
            Some(n) => n,
            None => 5,
        },
        None => 5,
    }
}

/// Whether the variables ask for a bucket of an object store: the storage
/// type is set and reads `s3` once turned into lower case. Where it is not
/// set the store is local.
pub open spec fn wants_s3(value: Option<String>) -> bool {
    match value {
        Some(s) => lowercase_text(s@) == "s3"@,
        None => false,
    }
}

fn copy_or(value: &Option<String>, fallback: &str) -> (r: String)
    ensures
        r@ == value_or(*value, fallback@),
{
    match value {
        Some(s) => s.clone(),
        None => String::from_str(fallback),
    }
}

impl Config {
    /// The configuration that the variables of the environment describe.
    /// What is not set takes its default: a SQLite database beside the
    /// service, the address 127.0.0.1:8080, a local store under `./uploads`,
    /// images of at most five megabytes. A bucket needs its name and its
    /// region; where one of them is missing the configuration is refused,
    /// the name being looked at first.
    pub fn from_env(env: &Environment) -> (r: AppResult<Config>)
        ensures
            wants_s3(env.storage_type) && env.s3_bucket_name is None ==> fails_with(
                r,
                ErrorKind::ConfigError,
                "S3_BUCKET_NAME not set"@,
            ),
            wants_s3(env.storage_type) && env.s3_bucket_name is Some && env.aws_region is None
                ==> fails_with(r, ErrorKind::ConfigError, "AWS_REGION not set"@),
            !(wants_s3(env.storage_type) && (env.s3_bucket_name is None || env.aws_region is None))
                ==> r is Ok,
            r matches Ok(config) ==> {
                &&& config.database.url@ == value_or(env.database_url, "sqlite://hyperdashi.db"@)
                &&& config.server.host@ == value_or(env.server_host, "127.0.0.1"@)
                &&& config.server.port == port_of(env.server_port)
                &&& config.storage.max_file_size_mb == max_file_size_of(
                    env.storage_max_file_size_mb,
                )
                &&& if wants_s3(env.storage_type) {
                    &&& config.storage.storage_type == StorageType::S3
                    &&& config.storage.local is None
                    &&& config.storage.s3 matches Some(s3)
                    &&& Some(s3.bucket_name@) == opt_text(env.s3_bucket_name)
                    &&& Some(s3.region@) == opt_text(env.aws_region)
                    &&& opt_text(s3.access_key_id) == opt_text(env.aws_access_key_id)
                    &&& opt_text(s3.secret_access_key) == opt_text(env.aws_secret_access_key)
                } else {
                    &&& config.storage.storage_type == StorageType::Local
                    &&& config.storage.s3 is None
                    &&& config.storage.local matches Some(local)
                    &&& local.path@ == value_or(env.local_storage_path, "./uploads"@)
                }
            },
    {
        let database_url = copy_or(&env.database_url, "sqlite://hyperdashi.db");
        let server_host = copy_or(&env.server_host, "127.0.0.1");
        let server_port: u16 = match &env.server_port {
            Some(s) => match parse_u16(s.as_str()) {
                Some(p) => p,
                None => 8080,
            },
            None => 8080,
        };
        let max_file_size_mb: u64 = match &env.storage_max_file_size_mb {
            Some(s) => match parse_u64(s.as_str()) {
                Some(n) => n,
                None => 5,
            },
            None => 5,
        };
        let wants_s3 = match &env.storage_type {
            Some(s) => str_eq(to_lowercase(s.as_str()).as_str(), "s3"),
            None => false,
        };
        let storage = if wants_s3 {
            let bucket_name = match &env.s3_bucket_name {
                Some(name) => name.clone(),
                None => {
                    return Err(AppError::ConfigError(String::from_str("S3_BUCKET_NAME not set")));
                },
            };
            let region = match &env.aws_region {
                Some(region) => region.clone(),
                None => {
                    return Err(AppError::ConfigError(String::from_str("AWS_REGION not set")));
                },
            };
            let access_key_id = crate::text::copy_opt_text(&env.aws_access_key_id);
            let secret_access_key = crate::text::copy_opt_text(&env.aws_secret_access_key);
            StorageConfig {
                storage_type: StorageType::S3,
                local: None,
                s3: Some(S3Config { bucket_name, region, access_key_id, secret_access_key }),
                max_file_size_mb,
            }
        } else {
            let path = copy_or(&env.local_storage_path, "./uploads");
            StorageConfig {
                storage_type: StorageType::Local,
                local: Some(LocalStorageConfig { path }),
                s3: None,
                max_file_size_mb,
            }
        };
        Ok(
            Config {
                database: DatabaseConfig { url: database_url },
                server: ServerConfig { host: server_host, port: server_port },
                storage,
            },
        )
    }
}

} // verus!
