//! Command-line input and its validation.
//!
//! Reading the process's arguments belongs to the surrounding program;
//! this module validates what was read: the configuration file path must
//! name an existing file.

use vstd::prelude::*;

verus! {

/// The command-line options: the path of the configuration file.
#[derive(Debug, PartialEq, Eq)]
pub struct Cli {
    pub config: String,
}

/// Why command-line input was rejected.
#[derive(Debug, PartialEq, Eq)]
pub enum CliParseError {
    Validate(ValidationError),
}

/// Why validation of the command-line options failed.
#[derive(Debug, PartialEq, Eq)]
pub enum ValidationError {
    Config(ConfigValidationError),
}

/// Why the configuration file path was rejected.
#[derive(Debug, PartialEq, Eq)]
pub enum ConfigValidationError {
    /// No file exists under the given path.
    DoesNotExist(String),
}

/// Relies on std::path::Path::exists: whether the path names something on
/// the filesystem at the moment of the call.
#[verifier::external_body]
fn path_exists(path: &String) -> bool {
    std::path::Path::new(path.as_str()).exists()
}

impl Cli {
    /// Decides validation of a config path from whether it exists: an
    /// existing path is returned unchanged, a missing one is rejected by
    /// name.
    pub fn config_validation_result(path: &String, exists: bool) -> (r: Result<
        String,
        ConfigValidationError,
    >)
        ensures
            exists ==> (r matches Ok(p) && p@ == path@),
            !exists ==> (r matches Err(ConfigValidationError::DoesNotExist(p)) && p@ == path@),
    {
        if exists {
            Ok(path.clone())
        } else {
            Err(ConfigValidationError::DoesNotExist(path.clone()))
        }
    }

    /// Validates the config option: the path must name an existing file.
    pub fn _config_validate(path: &String) -> (r: Result<String, ConfigValidationError>)
        ensures
            r matches Ok(p) ==> p@ == path@,
            r matches Err(e) ==> (e matches ConfigValidationError::DoesNotExist(p) && p@ == path@),
    {
        let exists = path_exists(path);
        Cli::config_validation_result(path, exists)
    }

    /// Validates the parsed command-line options.
    pub fn validate(&self) -> (r: Result<(), ValidationError>)
        ensures
            r matches Err(e) ==> (e matches ValidationError::Config(
                ConfigValidationError::DoesNotExist(p),
            ) && p@ == self.config@),
    {
        match Cli::_config_validate(&self.config) {
            Ok(_) => Ok(()),
            Err(e) => Err(ValidationError::Config(e)),
        }
    }

    /// Validates already-parsed command-line input, handing it back when
    /// the configuration file exists.
    pub fn parse_and_validate(parsed: Cli) -> (r: Result<Cli, CliParseError>)
        ensures
            r matches Ok(cli) ==> cli == parsed,
            r matches Err(e) ==> (e matches CliParseError::Validate(ValidationError::Config(
                ConfigValidationError::DoesNotExist(p),
            )) && p@ == parsed.config@),
    {
        match parsed.validate() {
            Ok(()) => Ok(parsed),
            Err(e) => Err(CliParseError::Validate(e)),
        }
    }
}

} // verus!
