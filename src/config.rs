use vstd::prelude::*;

use crate::text::{chars_of, is_blank, trim_str};

verus! {

/// The field of an identity record that was found blank.
#[derive(Debug, Clone, Copy, PartialEq, Eq, Structural)]
pub enum IdentityField {
    Name,
    Email,
}

/// Why loading the configured identities failed.
#[derive(Debug, Clone, Copy, PartialEq, Eq, Structural)]
pub enum ConfigError {
    /// A record's name or email address is empty after trimming.
    InvalidIdentity(IdentityField),
    /// No override path was given and neither `XDG_CONFIG_HOME` nor `HOME` is set.
    NoHomeDirectory,
}

/// One identity as written in the config file.
pub struct GitUser {
    /// The user name.
    pub name: String,
    /// The email address of the user.
    pub email: String,
    /// The description of the user; only shown when listing.
    pub description: Option<String>,
}

/// The whole config file.
pub struct LoadedConfiguration {
    pub users: Vec<GitUser>,
}

/// A user name that is not blank.
#[derive(Debug)]
pub struct GitUserName(pub String);

/// An email address that is not blank.
#[derive(Debug)]
pub struct GitUserEmailAddress(pub String);

impl View for GitUserName {
    type V = Seq<char>;

    open spec fn view(&self) -> Seq<char> {
        self.0@
    }
}

impl View for GitUserEmailAddress {
    type V = Seq<char>;

    open spec fn view(&self) -> Seq<char> {
        self.0@
    }
}

impl GitUserName {
    /// Accepts `value` unchanged unless it is blank.
    pub fn try_from(value: String) -> (r: Result<GitUserName, ConfigError>)
        ensures
            is_blank(value@) <==> r is Err,
            r is Ok ==> r->Ok_0@ == value@,
            r is Err ==> r->Err_0 == ConfigError::InvalidIdentity(IdentityField::Name),
            value@.len() == 0 ==> r is Err,
    {
        if trim_str(value.as_str()).is_empty() {
            Err(ConfigError::InvalidIdentity(IdentityField::Name))
        } else {
            Ok(GitUserName(value))
        }
    }

    /// The name as text.
    pub fn to_string(&self) -> (r: String)
        ensures
            r@ == self@,
    {
        self.0.clone()
    }
}

impl GitUserEmailAddress {
    /// Accepts `value` unchanged unless it is blank.
    pub fn try_from(value: String) -> (r: Result<GitUserEmailAddress, ConfigError>)
        ensures
            is_blank(value@) <==> r is Err,
            r is Ok ==> r->Ok_0@ == value@,
            r is Err ==> r->Err_0 == ConfigError::InvalidIdentity(IdentityField::Email),
            value@.len() == 0 ==> r is Err,
    {
        if trim_str(value.as_str()).is_empty() {
            Err(ConfigError::InvalidIdentity(IdentityField::Email))
        } else {
            Ok(GitUserEmailAddress(value))
        }
    }
}

/// Checks one raw record: the name is checked first, then the email address;
/// both are kept unchanged.
pub fn validate(raw_name: String, raw_email: String) -> (r: Result<
    (GitUserName, GitUserEmailAddress),
    ConfigError,
>)
    ensures
        r is Ok <==> !is_blank(raw_name@) && !is_blank(raw_email@),
        r is Ok ==> r->Ok_0.0@ == raw_name@ && r->Ok_0.1@ == raw_email@,
        is_blank(raw_name@) ==> r == Err::<(GitUserName, GitUserEmailAddress), ConfigError>(
            ConfigError::InvalidIdentity(IdentityField::Name),
        ),
        !is_blank(raw_name@) && is_blank(raw_email@) ==> r == Err::<
            (GitUserName, GitUserEmailAddress),
            ConfigError,
        >(ConfigError::InvalidIdentity(IdentityField::Email)),
        raw_name@.len() == 0 ==> r == Err::<(GitUserName, GitUserEmailAddress), ConfigError>(
            ConfigError::InvalidIdentity(IdentityField::Name),
        ),
        raw_name@.len() != 0 && raw_email@.len() == 0 ==> r is Err && r->Err_0
            is InvalidIdentity,
{
    let name = GitUserName::try_from(raw_name)?;
    let email = GitUserEmailAddress::try_from(raw_email)?;
    Ok((name, email))
}

/// The tail that the default config path adds under the config directory.
pub open spec fn config_file_tail() -> Seq<char> {
    "gsu/config.toml"@
}

/// `base` followed by `rest`, with one `/` between them unless `base` is empty
/// or already ends with `/` (as `PathBuf::push` joins a relative path).
pub open spec fn path_join(base: Seq<char>, rest: Seq<char>) -> Seq<char> {
    if base.len() == 0 || base.last() == '/' {
        base + rest
    } else {
        base + seq!['/'] + rest
    }
}

/// The config path for an override and a snapshot of `XDG_CONFIG_HOME` and
/// `HOME`; `None` when there is no override and neither variable is set.
pub open spec fn config_path_of(
    overriden: Option<Seq<char>>,
    xdg_config_home: Option<Seq<char>>,
    home: Option<Seq<char>>,
) -> Option<Seq<char>> {
    match overriden {
        Some(p) => Some(p),
        None => match xdg_config_home {
            Some(x) => Some(path_join(x, config_file_tail())),
            None => match home {
                Some(h) => Some(path_join(h + "/.config"@, config_file_tail())),
                None => None,
            },
        },
    }
}

pub open spec fn opt_view(o: Option<String>) -> Option<Seq<char>> {
    match o {
        Some(s) => Some(s@),
        None => None,
    }
}

fn path_join_exec(base: String, rest: &str) -> (r: String)
    ensures
        r@ == path_join(base@, rest@),
{
    let chars = chars_of(base.as_str());
    let mut r = base;
    if chars.len() == 0 || chars[chars.len() - 1] == '/' {
        r.append(rest);
    } else {
        r.append("/");
        proof {
            reveal_strlit("/");
        }
        r.append(rest);
    }
    r
}

/// Resolves the config file path: the override if one is given, else
/// `$XDG_CONFIG_HOME/gsu/config.toml`, else `$HOME/.config/gsu/config.toml`.
/// The environment is passed in as a snapshot of the two variables.
pub fn try_resolve_path(
    overriden_path: Option<String>,
    xdg_config_home: Option<String>,
    home: Option<String>,
) -> (r: Result<String, ConfigError>)
    ensures
        match config_path_of(opt_view(overriden_path), opt_view(xdg_config_home), opt_view(home)) {
            Some(p) => r is Ok && r->Ok_0@ == p,
            None => r == Err::<String, ConfigError>(ConfigError::NoHomeDirectory),
        },
{
    match overriden_path {
        Some(p) => Ok(p),
        None => match xdg_config_home {
            Some(x) => Ok(path_join_exec(x, "gsu/config.toml")),
            None => match home {
                Some(h) => {
                    let mut base = h;
                    base.append("/.config");
                    Ok(path_join_exec(base, "gsu/config.toml"))
                },
                None => Err(ConfigError::NoHomeDirectory),
            },
        },
    }
}

} // verus!
