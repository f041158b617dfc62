use bouncer::cli::Cli;
use bouncer::cli::ConfigValidationError;
use bouncer::cli::CliParseError;
use bouncer::cli::ValidationError;

use tempfile::NamedTempFile;

#[test]
fn test_cli_validation_success() {
    let temp_file = NamedTempFile::new().unwrap();
    let path = temp_file.path().to_str().unwrap();

    let cli = Cli { config: path.to_string() };

    assert!(cli.validate().is_ok());
}

#[test]
fn test_config_validation_file_exists() {
    let temp_file = NamedTempFile::new().unwrap();
    let path = temp_file.path().to_str().unwrap();

    let result = Cli::_config_validate(&path.to_string());

    assert!(result.is_ok());
    assert_eq!(result.unwrap(), path.to_string());
}

#[test]
fn test_config_validation_file_does_not_exist() {
    let non_existent_path = "/path/that/does/not/exist/config.yaml";

    let result = Cli::_config_validate(&non_existent_path.to_string());

    assert!(result.is_err());
    assert_eq!(
        result.unwrap_err(),
        ConfigValidationError::DoesNotExist(non_existent_path.to_string())
    );
}

#[test]
fn test_cli_parse_and_validate_non_existent_file() {
    let non_existent_path = "/path/that/does/not/exist/config.yaml";

    let args = vec!["test", "--config", non_existent_path];
    let config = args[2];
    let result = Cli { config: config.to_string() }.validate();

    assert!(result.is_err());
    assert_eq!(
        result.unwrap_err(),
        ValidationError::Config(ConfigValidationError::DoesNotExist(
            non_existent_path.to_string()
        ))
    );
}

#[test]
fn parse_and_validate_returns_input_on_existing_file() {
    let temp_file = NamedTempFile::new().unwrap();
    let path = temp_file.path().to_str().unwrap();

    let result = Cli::parse_and_validate(Cli { config: path.to_string() });

    assert_eq!(result.unwrap().config, path.to_string());
}

#[test]
fn parse_and_validate_rejects_missing_file() {
    let missing = "/path/that/does/not/exist/config.yaml";

    let result = Cli::parse_and_validate(Cli { config: missing.to_string() });

    assert_eq!(
        result.unwrap_err(),
        CliParseError::Validate(ValidationError::Config(ConfigValidationError::DoesNotExist(
            missing.to_string()
        )))
    );
}
