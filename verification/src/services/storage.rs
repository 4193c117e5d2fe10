//! The store of the images: where an upload goes and what it is called, for
//! a bucket of an object store and for a directory of the file system.

use vstd::prelude::*;
use vstd::string::StringExecFns;
use crate::config::{Config, StorageType};
use crate::error::{fails_with, AppError, AppResult, ErrorKind};
use crate::text::{decimal, has_prefix, opt_text, push_decimal, strip_prefix};

verus! {

/// Whether `c` is a hexadecimal digit in lower case.
pub open spec fn is_lower_hex(c: char) -> bool {
    ('0' <= c && c <= '9') || ('a' <= c && c <= 'f')
}

/// Whether `text` has the form of a UUID: 32 hexadecimal digits in lower
/// case, in groups of 8, 4, 4, 4 and 12 with a hyphen between them.
pub open spec fn is_uuid_text(text: Seq<char>) -> bool {
    &&& text.len() == 36
    &&& forall|i: int|
        0 <= i < 36 ==> if i == 8 || i == 13 || i == 18 || i == 23 {
            #[trigger] text[i] == '-'
        } else {
            is_lower_hex(text[i])
        }
}

/// A fresh random UUID as text. Calls `uuid::Uuid::new_v4` and takes the
/// text that its `Display` gives, which is the hyphenated form in lower
/// case. Which UUID comes back is left open.
#[verifier::external_body]
pub(crate) fn new_uuid_text() -> (r: String)
    ensures
        is_uuid_text(r@),
{
    uuid::Uuid::new_v4().to_string()
}

/// The number of bytes in a megabyte.
pub const BYTES_PER_MB: u64 = 1048576;

/// The URL under which a store with the given base serves the given key.
pub open spec fn url_of(base_url: Seq<char>, key: Seq<char>) -> Seq<char> {
    base_url + "/"@ + key
}

fn join_url(base_url: &str, key: &str) -> (r: String)
    ensures
        r@ == url_of(base_url@, key@),
{
    let mut r = String::from_str(base_url);
    r.append("/");
    r.append(key);
    r
}

/// The key of a URL of a store with the given base: what follows the base
/// and a slash, where the URL begins with them.
pub open spec fn key_of(base_url: Seq<char>, url: Seq<char>) -> Option<Seq<char>> {
    if has_prefix(url, base_url + "/"@) {
        Some(url.subrange(base_url.len() as int + 1, url.len() as int))
    } else {
        None
    }
}

fn split_url(base_url: &str, url: &str) -> (r: Option<String>)
    ensures
        opt_text(r) == key_of(base_url@, url@),
{
    let mut prefix = String::from_str(base_url);
    prefix.append("/");
    proof {
        assert("/"@.len() == 1) by {
            reveal_strlit("/");
        }
    }
    match strip_prefix(url, prefix.as_str()) {
        Some(rest) => Some(String::from_str(rest)),
        None => None,
    }
}

/// A bucket of an object store.
#[derive(Debug, Clone)]
pub struct S3Storage {
    bucket_name: String,
    base_url: String,
    max_file_size_bytes: usize,
    force_path_style: bool,
}

/// The base of the URLs of a bucket: under a custom endpoint the endpoint
/// and the bucket, else the address of the bucket in its region.
pub open spec fn s3_base_url(
    endpoint: Option<Seq<char>>,
    bucket_name: Seq<char>,
    region: Seq<char>,
) -> Seq<char> {
    match endpoint {
        Some(e) => e + "/"@ + bucket_name,
        None => "https://"@ + bucket_name + ".s3."@ + region + ".amazonaws.com"@,
    }
}

/// Where an upload into a bucket goes: the key of the object and the URL
/// under which it is served.
#[derive(Debug, Clone)]
pub struct S3Upload {
    pub key: String,
    pub url: String,
}

impl S3Storage {
    /// The name of the bucket.
    pub closed spec fn spec_bucket_name(&self) -> Seq<char> {
        self.bucket_name@
    }

    /// The base of the URLs of the bucket.
    pub closed spec fn spec_base_url(&self) -> Seq<char> {
        self.base_url@
    }

    /// The largest size of an upload in bytes.
    pub closed spec fn spec_max_file_size_bytes(&self) -> usize {
        self.max_file_size_bytes
    }

    /// Whether the bucket is addressed by path, as a custom endpoint needs.
    pub closed spec fn spec_force_path_style(&self) -> bool {
        self.force_path_style
    }

    /// The bucket that the configuration describes, reached through the
    /// custom endpoint where one is given. A configuration without bucket is
    /// refused.
    pub fn new(config: &Config, endpoint: Option<&str>) -> (r: AppResult<S3Storage>)
        requires
            config.storage.max_file_size_mb * BYTES_PER_MB <= usize::MAX,
        ensures
            match config.storage.s3 {
                None => fails_with(r, ErrorKind::ConfigError, "S3 configuration not found"@),
                Some(s3) => r matches Ok(storage) && storage.spec_bucket_name() == s3.bucket_name@
                    && storage.spec_base_url() == s3_base_url(
                    match endpoint {
                        Some(e) => Some(e@),
                        None => None,
                    },
                    s3.bucket_name@,
                    s3.region@,
                ) && storage.spec_max_file_size_bytes() == config.storage.max_file_size_mb
                    * BYTES_PER_MB && storage.spec_force_path_style() == (endpoint is Some),
            },
    {
        let s3_config = match &config.storage.s3 {
            Some(s3) => s3,
            None => {
                return Err(AppError::ConfigError(String::from_str("S3 configuration not found")));
            },
        };
        let base_url = match endpoint {
            Some(e) => {
                let mut url = String::from_str(e);
                url.append("/");
                url.append(s3_config.bucket_name.as_str());
                url
            },
            None => {
                let mut url = String::from_str("https://");
                url.append(s3_config.bucket_name.as_str());
                url.append(".s3.");
                url.append(s3_config.region.as_str());
                url.append(".amazonaws.com");
                url
            },
        };
        Ok(
            S3Storage {
                bucket_name: s3_config.bucket_name.clone(),
                base_url,
                max_file_size_bytes: (config.storage.max_file_size_mb * BYTES_PER_MB) as usize,
                force_path_style: endpoint.is_some(),
            },
        )
    }

    /// The name of the bucket.
    pub fn bucket_name(&self) -> (r: &String)
        ensures
            r@ == self.spec_bucket_name(),
    {
        &self.bucket_name
    }

    /// Whether the bucket is addressed by path.
    pub fn force_path_style(&self) -> (r: bool)
        ensures
            r == self.spec_force_path_style(),
    {
        self.force_path_style
    }

    /// The key of an upload under the given UUID: `images`, the UUID and the
    /// name of the file, with slashes between them.
    pub open spec fn key_for(uuid: Seq<char>, filename: Seq<char>) -> Seq<char> {
        "images/"@ + uuid + "/"@ + filename
    }

    /// Where the upload of a file goes, under the given UUID.
    pub fn upload_as(&self, uuid: &str, filename: &str) -> (r: S3Upload)
        ensures
            r.key@ == Self::key_for(uuid@, filename@),
            r.url@ == url_of(self.spec_base_url(), r.key@),
    {
        let mut key = String::from_str("images/");
        key.append(uuid);
        key.append("/");
        key.append(filename);
        let url = self.get_url(key.as_str());
        S3Upload { key, url }
    }

    /// Where the upload of a file goes: under a fresh random UUID.
    pub fn upload(&self, filename: &str) -> (r: S3Upload)
        ensures
            exists|uuid: Seq<char>|
                is_uuid_text(uuid) && #[trigger] Self::key_for(uuid, filename@) == r.key@,
            r.url@ == url_of(self.spec_base_url(), r.key@),
    {
        let uuid = new_uuid_text();
        self.upload_as(uuid.as_str(), filename)
    }

    /// The key of the object that a URL of this bucket names. A URL that
    /// does not lie under the base of the bucket is refused.
    pub fn delete(&self, url: &str) -> (r: AppResult<String>)
        ensures
            match key_of(self.spec_base_url(), url@) {
                Some(key) => r matches Ok(k) && k@ == key,
                None => fails_with(r, ErrorKind::StorageError, "Invalid S3 URL"@),
            },
    {
        match split_url(self.base_url.as_str(), url) {
            Some(key) => Ok(key),
            None => Err(AppError::StorageError(String::from_str("Invalid S3 URL"))),
        }
    }

    /// The URL under which the bucket serves the given key.
    pub fn get_url(&self, key: &str) -> (r: String)
        ensures
            r@ == url_of(self.spec_base_url(), key@),
    {
        join_url(self.base_url.as_str(), key)
    }
}

/// A directory of the local file system, served by the service itself.
#[derive(Debug, Clone)]
pub struct LocalStorage {
    base_path: String,
    base_url: String,
    max_file_size_bytes: usize,
}

/// The base of the URLs of the local store.
pub open spec fn local_base_url(host: Seq<char>, port: u16) -> Seq<char> {
    "http://"@ + host + ":"@ + decimal(port as nat) + "/uploads"@
}

/// Where an upload into the local store goes: the directory to make under
/// the base directory, the path of the file from the base directory, and the
/// URL under which the file is served.
#[derive(Debug, Clone)]
pub struct LocalUpload {
    pub dir_name: String,
    pub relative_path: String,
    pub url: String,
}

impl LocalStorage {
    /// The base directory.
    pub closed spec fn spec_base_path(&self) -> Seq<char> {
        self.base_path@
    }

    /// The base of the URLs of the store.
    pub closed spec fn spec_base_url(&self) -> Seq<char> {
        self.base_url@
    }

    /// The largest size of an upload in bytes.
    pub closed spec fn spec_max_file_size_bytes(&self) -> usize {
        self.max_file_size_bytes
    }

    /// The local store that the configuration describes. A configuration
    /// without directory is refused. The directory itself is made by the
    /// caller.
    pub fn new(config: &Config) -> (r: AppResult<LocalStorage>)
        requires
            config.storage.max_file_size_mb * BYTES_PER_MB <= usize::MAX,
        ensures
            match config.storage.local {
                None => fails_with(
                    r,
                    ErrorKind::ConfigError,
                    "Local storage configuration not found"@,
                ),
                Some(local) => r matches Ok(storage) && storage.spec_base_path() == local.path@
                    && storage.spec_base_url() == local_base_url(
                    config.server.host@,
                    config.server.port,
                ) && storage.spec_max_file_size_bytes() == config.storage.max_file_size_mb
                    * BYTES_PER_MB,
            },
    {
        let local_config = match &config.storage.local {
            Some(local) => local,
            None => {
                return Err(
                    AppError::ConfigError(
                        String::from_str("Local storage configuration not found"),
                    ),
                );
            },
        };
        let mut base_url = String::from_str("http://");
        base_url.append(config.server.host.as_str());
        base_url.append(":");
        push_decimal(&mut base_url, config.server.port as u128);
        base_url.append("/uploads");
        Ok(
            LocalStorage {
                base_path: local_config.path.clone(),
                base_url,
                max_file_size_bytes: (config.storage.max_file_size_mb * BYTES_PER_MB) as usize,
            },
        )
    }

    /// The base directory.
    pub fn base_path(&self) -> (r: &String)
        ensures
            r@ == self.spec_base_path(),
    {
        &self.base_path
    }

    /// Where the upload of a file goes, into the directory of the given
    /// name.
    pub fn upload_as(&self, dir_name: String, filename: &str) -> (r: LocalUpload)
        ensures
            r.dir_name@ == dir_name@,
            r.relative_path@ == dir_name@ + "/"@ + filename@,
            r.url@ == url_of(self.spec_base_url(), r.relative_path@),
    {
        let mut relative_path = dir_name.clone();
        relative_path.append("/");
        relative_path.append(filename);
        let url = self.get_url(relative_path.as_str());
        LocalUpload { dir_name, relative_path, url }
    }

    /// Where the upload of a file goes: into a directory named by a fresh
    /// random UUID.
    pub fn upload(&self, filename: &str) -> (r: LocalUpload)
        ensures
            is_uuid_text(r.dir_name@),
            r.relative_path@ == r.dir_name@ + "/"@ + filename@,
            r.url@ == url_of(self.spec_base_url(), r.relative_path@),
    {
        self.upload_as(new_uuid_text(), filename)
    }

    /// The path, from the base directory, of the file that a URL of this
    /// store names. A URL that does not lie under the base of the store is
    /// refused.
    pub fn delete(&self, url: &str) -> (r: AppResult<String>)
        ensures
            match key_of(self.spec_base_url(), url@) {
                Some(path) => r matches Ok(p) && p@ == path,
                None => fails_with(r, ErrorKind::StorageError, "Invalid local storage URL"@),
            },
    {
        match split_url(self.base_url.as_str(), url) {
            Some(path) => Ok(path),
            None => Err(AppError::StorageError(String::from_str("Invalid local storage URL"))),
        }
    }

    /// The URL under which the store serves the given path.
    pub fn get_url(&self, key: &str) -> (r: String)
        ensures
            r@ == url_of(self.spec_base_url(), key@),
    {
        join_url(self.base_url.as_str(), key)
    }
}

/// The store of the images: a bucket or a local directory.
#[derive(Debug, Clone)]
pub enum StorageService {
    S3(S3Storage),
    Local(LocalStorage),
}

impl StorageService {
    /// The base of the URLs of the store.
    pub open spec fn spec_base_url(&self) -> Seq<char> {
        match self {
            StorageService::S3(storage) => storage.spec_base_url(),
            StorageService::Local(storage) => storage.spec_base_url(),
        }
    }

    /// The largest size of an upload in bytes.
    pub open spec fn spec_max_file_size_bytes(&self) -> usize {
        match self {
            StorageService::S3(storage) => storage.spec_max_file_size_bytes(),
            StorageService::Local(storage) => storage.spec_max_file_size_bytes(),
        }
    }

    /// The store that the configuration names: the bucket, reached through
    /// the custom endpoint where one is given, or the local directory.
    pub fn new(config: &Config, endpoint: Option<&str>) -> (r: AppResult<StorageService>)
        requires
            config.storage.max_file_size_mb * BYTES_PER_MB <= usize::MAX,
        ensures
            match config.storage.storage_type {
                StorageType::S3 => match config.storage.s3 {
                    None => fails_with(r, ErrorKind::ConfigError, "S3 configuration not found"@),
                    Some(_) => r matches Ok(StorageService::S3(_)),
                },
                StorageType::Local => match config.storage.local {
                    None => fails_with(
                        r,
                        ErrorKind::ConfigError,
                        "Local storage configuration not found"@,
                    ),
                    Some(_) => r matches Ok(StorageService::Local(_)),
                },
            },
            r matches Ok(storage) ==> storage.spec_max_file_size_bytes()
                == config.storage.max_file_size_mb * BYTES_PER_MB,
    {
        match config.storage.storage_type {
            StorageType::S3 => Ok(StorageService::S3(S3Storage::new(config, endpoint)?)),
            StorageType::Local => Ok(StorageService::Local(LocalStorage::new(config)?)),
        }
    }

    /// The largest size of an upload in bytes.
    pub fn get_max_file_size_bytes(&self) -> (r: usize)
        ensures
            r == self.spec_max_file_size_bytes(),
    {
        match self {
            StorageService::S3(storage) => storage.max_file_size_bytes,
            StorageService::Local(storage) => storage.max_file_size_bytes,
        }
    }

    /// What is to be removed for a URL of the store: the key of the object
    /// or the path of the file. A URL that does not lie under the base of
    /// the store is refused.
    pub fn delete(&self, url: &str) -> (r: AppResult<String>)
        ensures
            match key_of(self.spec_base_url(), url@) {
                Some(key) => r matches Ok(k) && k@ == key,
                None => fails_with(
                    r,
                    ErrorKind::StorageError,
                    match self {
                        StorageService::S3(_) => "Invalid S3 URL"@,
                        StorageService::Local(_) => "Invalid local storage URL"@,
                    },
                ),
            },
    {
        match self {
            StorageService::S3(storage) => storage.delete(url),
            StorageService::Local(storage) => storage.delete(url),
        }
    }

    /// The URL under which the store serves the given key.
    pub fn get_url(&self, key: &str) -> (r: String)
        ensures
            r@ == url_of(self.spec_base_url(), key@),
    {
        match self {
            StorageService::S3(storage) => storage.get_url(key),
            StorageService::Local(storage) => storage.get_url(key),
        }
    }
}

} // verus!
