use guswitch::config::{
    try_resolve_path, validate, ConfigError, GitUserEmailAddress, GitUserName, IdentityField,
};

#[test]
fn should_get_specific_path_when_overriden() {
    let overriden_path = "/tmp/gsu/config.toml".to_string();
    let cfg_path = try_resolve_path(Some(overriden_path.clone()), None, None);
    assert_eq!(cfg_path, Ok(overriden_path));
}

#[test]
fn should_get_path_from_env_when_xdg_config_home_was_set() {
    let cfg_path = try_resolve_path(None, Some("$HOME/.config".to_string()), Some("/home/a".to_string()));
    assert_eq!(cfg_path, Ok("$HOME/.config/gsu/config.toml".to_string()));
}

#[test]
fn should_get_home_path_when_xdg_config_home_was_not_set() {
    let cfg_path = try_resolve_path(None, None, Some("/home/alice".to_string()));
    assert_eq!(cfg_path, Ok("/home/alice/.config/gsu/config.toml".to_string()));
}

#[test]
fn xdg_path_with_trailing_slash() {
    let cfg_path = try_resolve_path(None, Some("/cfg/".to_string()), None);
    assert_eq!(cfg_path, Ok("/cfg/gsu/config.toml".to_string()));
}

#[test]
fn no_home_directory() {
    assert_eq!(try_resolve_path(None, None, None), Err(ConfigError::NoHomeDirectory));
}

#[test]
fn validate_keeps_values() {
    let (name, email) = validate("Alice".to_string(), "alice@x.com".to_string()).unwrap();
    assert_eq!(name.0, "Alice");
    assert_eq!(email.0, "alice@x.com");
    assert_eq!(name.to_string(), "Alice");
}

#[test]
fn validate_refuses_empty_fields() {
    let name_err = Err(ConfigError::InvalidIdentity(IdentityField::Name));
    let email_err = Err(ConfigError::InvalidIdentity(IdentityField::Email));
    assert_eq!(validate(String::new(), "a@x.com".to_string()).map(|_| ()), name_err);
    assert_eq!(validate("A".to_string(), String::new()).map(|_| ()), email_err);
    assert_eq!(validate(String::new(), String::new()).map(|_| ()), name_err);
}

#[test]
fn validate_refuses_blank_fields() {
    let name_err = Err(ConfigError::InvalidIdentity(IdentityField::Name));
    let email_err = Err(ConfigError::InvalidIdentity(IdentityField::Email));
    assert_eq!(validate("  \t".to_string(), "a@x.com".to_string()).map(|_| ()), name_err);
    assert_eq!(validate("A".to_string(), "\n".to_string()).map(|_| ()), email_err);
}

#[test]
fn name_and_email_constructors() {
    assert!(GitUserName::try_from(" Alice ".to_string()).is_ok());
    assert!(GitUserName::try_from(String::new()).is_err());
    assert!(GitUserEmailAddress::try_from("a@x.com".to_string()).is_ok());
    assert!(GitUserEmailAddress::try_from(" ".to_string()).is_err());
}
