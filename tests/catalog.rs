use guswitch::catalog::ConfiguredGitUsers;
use guswitch::config::{ConfigError, GitUser, GitUserName, IdentityField, LoadedConfiguration};
use guswitch::text::text_precedes;

fn user(name: &str, email: &str) -> GitUser {
    GitUser { name: name.to_string(), email: email.to_string(), description: None }
}

fn names(c: &ConfiguredGitUsers) -> Vec<String> {
    c.enumerate().into_iter().map(|n| n.0).collect()
}

#[test]
fn enumerate_is_sorted_without_duplicates() {
    let cfg = LoadedConfiguration {
        users: vec![
            user("carol", "c@z.com"),
            user("Bob", "bob@y.com"),
            user("Alice", "alice@x.com"),
            user("Bob", "bob2@y.com"),
            user("Al", "al@x.com"),
        ],
    };
    let c = ConfiguredGitUsers::try_from(cfg).unwrap();
    assert_eq!(names(&c), vec!["Al", "Alice", "Bob", "carol"]);
}

#[test]
fn lookup_gives_the_last_email_of_a_name() {
    let cfg = LoadedConfiguration {
        users: vec![user("Bob", "bob@y.com"), user("Alice", "alice@x.com"), user("Bob", "bob2@y.com")],
    };
    let c = ConfiguredGitUsers::try_from(cfg).unwrap();
    let bob = c.lookup(&GitUserName("Bob".to_string())).unwrap();
    assert_eq!(bob.0, "bob2@y.com");
    let alice = c.lookup(&GitUserName("Alice".to_string())).unwrap();
    assert_eq!(alice.0, "alice@x.com");
    assert!(c.lookup(&GitUserName("Carol".to_string())).is_none());
}

#[test]
fn first_invalid_record_is_reported() {
    let cfg = LoadedConfiguration {
        users: vec![user("Alice", "alice@x.com"), user("Bob", ""), user("", "c@z.com")],
    };
    let r = ConfiguredGitUsers::try_from(cfg);
    assert_eq!(r.err(), Some(ConfigError::InvalidIdentity(IdentityField::Email)));
}

#[test]
fn empty_config_gives_empty_catalog() {
    let c = ConfiguredGitUsers::try_from(LoadedConfiguration { users: vec![] }).unwrap();
    assert!(names(&c).is_empty());
    assert!(names(&ConfiguredGitUsers::new()).is_empty());
}

#[test]
fn text_order_is_by_code_point() {
    assert!(text_precedes("Al", "Alice"));
    assert!(!text_precedes("Alice", "Al"));
    assert!(text_precedes("Bob", "alice"));
    assert!(!text_precedes("Bob", "Bob"));
    assert!(text_precedes("", "a"));
    assert!(text_precedes("z", "\u{e9}"));
}
