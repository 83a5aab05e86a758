//! The service's configuration and how it is read from the values of the
//! environment's variables.

use vstd::prelude::*;
use vstd::string::StringExecFns;
use crate::text::text_view;
use crate::text::{lowercase, parse_bool, parse_u64, parsed_bool, parsed_u64, same_text, split, split_at, texts, to_lowercase};

verus! {

/// The largest upload limit a configuration may set, in bytes (100 MiB).
pub const MAX_FILE_SIZE_LIMIT: u64 = 104_857_600;

/// The upload limit where none is given, or none that reads as a number (10 MiB).
pub const DEFAULT_MAX_FILE_SIZE: u64 = 10_485_760;

/// The service's settings, fixed at start.
#[derive(Debug, Clone, PartialEq, Eq)]
pub struct Config {
    pub database_url: String,
    pub s3_endpoint: Option<String>,
    pub s3_region: String,
    pub s3_bucket: String,
    pub s3_access_key: String,
    pub s3_secret_key: String,
    pub max_file_size: u64,
    pub allowed_extensions: Vec<String>,
    pub use_s3: bool,
}

/// A [`Config`] with its texts as sequences of characters.
pub struct ConfigView {
    pub database_url: Seq<char>,
    pub s3_endpoint: Option<Seq<char>>,
    pub s3_region: Seq<char>,
    pub s3_bucket: Seq<char>,
    pub s3_access_key: Seq<char>,
    pub s3_secret_key: Seq<char>,
    pub max_file_size: u64,
    pub allowed_extensions: Seq<Seq<char>>,
    pub use_s3: bool,
}

impl View for Config {
    type V = ConfigView;

    open spec fn view(&self) -> ConfigView {
        ConfigView {
            database_url: self.database_url@,
            s3_endpoint: text_view(self.s3_endpoint),
            s3_region: self.s3_region@,
            s3_bucket: self.s3_bucket@,
            s3_access_key: self.s3_access_key@,
            s3_secret_key: self.s3_secret_key@,
            max_file_size: self.max_file_size,
            allowed_extensions: texts(self.allowed_extensions@),
            use_s3: self.use_s3,
        }
    }
}

impl ConfigView {
    /// The upload limit lies between one byte and [`MAX_FILE_SIZE_LIMIT`].
    pub open spec fn valid(self) -> bool {
        1 <= self.max_file_size <= MAX_FILE_SIZE_LIMIT
    }

    /// The extension `ext` is on the allowlist.
    pub open spec fn allows(self, ext: Seq<char>) -> bool {
        self.allowed_extensions.contains(ext)
    }
}

/// The values of the variables a configuration is read from; `None` stands
/// for a variable that is unset or not valid text.
#[derive(Debug, PartialEq, Eq)]
pub struct Environment {
    pub database_url: Option<String>,
    pub use_s3: Option<String>,
    pub s3_endpoint: Option<String>,
    pub s3_region: Option<String>,
    pub s3_bucket: Option<String>,
    pub s3_access_key: Option<String>,
    pub s3_secret_key: Option<String>,
    pub max_file_size: Option<String>,
    pub allowed_extensions: Option<String>,
}

/// Why no configuration could be read.
#[derive(Debug, PartialEq, Eq, Structural, Clone, Copy)]
pub enum ConfigError {
    /// The address of the database is not set.
    MissingDatabaseUrl,
    /// The upload limit, given here, is zero or above [`MAX_FILE_SIZE_LIMIT`].
    InvalidMaxFileSize(u64),
}

/// The text of a variable, or `default` where it has none.
pub open spec fn text_or(value: Option<String>, default: Seq<char>) -> Seq<char> {
    match value {
        Some(v) => v@,
        None => default,
    }
}

/// The upload limit a variable's value sets: the number it denotes, or
/// [`DEFAULT_MAX_FILE_SIZE`] where it is unset or denotes none.
pub open spec fn max_file_size_from(value: Option<String>) -> u64 {
    match value {
        Some(v) => match parsed_u64(v@) {
            Some(n) => n,
            None => DEFAULT_MAX_FILE_SIZE,
        },
        None => DEFAULT_MAX_FILE_SIZE,
    }
}

/// The backend choice a variable's value makes: S3 only for the exact text
/// `true`.
pub open spec fn use_s3_from(value: Option<String>) -> bool {
    match value {
        Some(v) => parsed_bool(v@) == Some(true),
        None => false,
    }
}

/// The allowlist a variable's value sets: its comma-separated pieces, each
/// lowercased.
pub open spec fn allowed_extensions_from(value: Option<String>) -> Seq<Seq<char>> {
    split(text_or(value, "jpg,jpeg,png,gif,pdf,doc,docx,txt"@), ',').map_values(
        |piece: Seq<char>| lowercase(piece),
    )
}

/// The settings that the values `env` give, before the upload limit is checked.
pub open spec fn settings_from(env: Environment) -> ConfigView {
    ConfigView {
        database_url: text_or(env.database_url, Seq::empty()),
        s3_endpoint: text_view(env.s3_endpoint),
        s3_region: text_or(env.s3_region, "us-east-1"@),
        s3_bucket: text_or(env.s3_bucket, "file-service"@),
        s3_access_key: text_or(env.s3_access_key, "minioadmin"@),
        s3_secret_key: text_or(env.s3_secret_key, "minioadmin"@),
        max_file_size: max_file_size_from(env.max_file_size),
        allowed_extensions: allowed_extensions_from(env.allowed_extensions),
        use_s3: use_s3_from(env.use_s3),
    }
}

/// The configuration that the values `env` give, or why there is none.
pub open spec fn config_from(env: Environment) -> Result<ConfigView, ConfigError> {
    if env.database_url.is_none() {
        Err(ConfigError::MissingDatabaseUrl)
    } else if !settings_from(env).valid() {
        Err(ConfigError::InvalidMaxFileSize(max_file_size_from(env.max_file_size)))
    } else {
        Ok(settings_from(env))
    }
}

/// The value of a variable, or `default` where it has none.
fn value_or(value: Option<String>, default: &str) -> (r: String)
    ensures
        r@ == text_or(value, default@),
{
    match value {
        Some(v) => v,
        None => String::from_str(default),
    }
}

/// Reads the allowlist from a variable's value.
fn read_allowed_extensions(value: Option<String>) -> (r: Vec<String>)
    ensures
        texts(r@) == allowed_extensions_from(value),
{
    let raw = value_or(value, "jpg,jpeg,png,gif,pdf,doc,docx,txt");
    let pieces = split_at(raw.as_str(), ',');
    let mut r: Vec<String> = Vec::new();
    let mut i: usize = 0;
    while i < pieces.len()
        invariant
            i <= pieces@.len(),
            r@.len() == i,
            forall|j: int| 0 <= j < i ==> r@[j]@ == lowercase(#[trigger] pieces@[j]@),
        decreases pieces@.len() - i,
    {
        r.push(to_lowercase(pieces[i].as_str()));
        i += 1;
    }
    assert(texts(r@) =~= texts(pieces@).map_values(|piece: Seq<char>| lowercase(piece)));
    r
}

impl Config {
    /// Builds the configuration from the values of the environment's
    /// variables. A missing database address is an error, and so is an upload
    /// limit outside `1..=MAX_FILE_SIZE_LIMIT`; every other variable has a
    /// default.
    pub fn from_env(env: Environment) -> (r: Result<Config, ConfigError>)
        ensures
            match r {
                Ok(config) => config_from(env) == Ok::<ConfigView, ConfigError>(config@)
                    && config@.valid(),
                Err(e) => config_from(env) == Err::<ConfigView, ConfigError>(e),
            },
    {
        let allowed_extensions = read_allowed_extensions(env.allowed_extensions);
        let database_url = match env.database_url {
            Some(url) => url,
            None => { return Err(ConfigError::MissingDatabaseUrl); },
        };
        let max_file_size = match env.max_file_size {
            Some(v) => match parse_u64(v.as_str()) {
                Some(n) => n,
                None => DEFAULT_MAX_FILE_SIZE,
            },
            None => DEFAULT_MAX_FILE_SIZE,
        };
        let use_s3 = match env.use_s3 {
            Some(v) => match parse_bool(v.as_str()) {
                Some(b) => b,
                None => false,
            },
            None => false,
        };
        let config = Config {
            database_url,
            s3_endpoint: env.s3_endpoint,
            s3_region: value_or(env.s3_region, "us-east-1"),
            s3_bucket: value_or(env.s3_bucket, "file-service"),
            s3_access_key: value_or(env.s3_access_key, "minioadmin"),
            s3_secret_key: value_or(env.s3_secret_key, "minioadmin"),
            max_file_size,
            allowed_extensions,
            use_s3,
        };
        if max_file_size < 1 || max_file_size > MAX_FILE_SIZE_LIMIT {
            return Err(ConfigError::InvalidMaxFileSize(max_file_size));
        }
        assert(config@ == settings_from(env));
        Ok(config)
    }

    /// Whether the extension `ext` is on the allowlist.
    pub fn allows_extension(&self, ext: &str) -> (r: bool)
        ensures
            r == self@.allows(ext@),
    {
        let mut i: usize = 0;
        while i < self.allowed_extensions.len()
            invariant
                i <= self.allowed_extensions@.len(),
                forall|j: int| 0 <= j < i ==> self.allowed_extensions@[j]@ != ext@,
            decreases self.allowed_extensions@.len() - i,
        {
            if same_text(self.allowed_extensions[i].as_str(), ext) {
                assert(self@.allowed_extensions[i as int] == ext@);
                return true;
            }
            i += 1;
        }
        assert forall|j: int| 0 <= j < self@.allowed_extensions.len() implies self@.allowed_extensions[j] != ext@ by {
            assert(self@.allowed_extensions[j] == self.allowed_extensions@[j]@);
        }
        false
    }
}

} // verus!
