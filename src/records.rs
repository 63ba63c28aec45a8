//! Request and response records of the web layer, and the roles and keys
//! they mention.

use vstd::prelude::*;
use crate::config::SqlConfig;

verus! {

/// Credentials sent to obtain a system token.
#[derive(Clone, Debug)]
pub struct TokenData {
    pub username: String,
    pub password: String,
}

/// The same credentials as named by the older token route.
#[derive(Clone, Debug)]
pub struct TokenSystemData {
    pub name: String,
    pub password: String,
}

/// A bearer token taken from a request, empty when there is none.
#[derive(Clone, Debug)]
pub struct Token(pub String);

/// A bearer token whose claims name the system user.
#[derive(Clone, Debug)]
pub struct SystemToken(pub String);

/// Site-wide settings.
#[derive(Clone, Debug)]
pub struct SystemConfigure {
    pub author_name: String,
    pub current_theme: String,
    pub site_keyword: String,
    pub site_description: String,
    pub admin_path: String,
}

impl Default for SystemConfigure {
    /// The settings of a fresh installation.
    fn default() -> (r: SystemConfigure)
        ensures
            r.author_name@ == "lsy"@ && r.current_theme@ == "echoes"@ && r.site_keyword@ == "echoes"@
                && r.admin_path@ == "admin"@,
    {
        SystemConfigure {
            author_name: String::from_str("lsy"),
            current_theme: String::from_str("echoes"),
            site_keyword: String::from_str("echoes"),
            site_description: String::from_str("echoes是一个高效、可扩展的博客平台"),
            admin_path: String::from_str("admin"),
        }
    }
}

/// The administrator account entered during set-up.
#[derive(Clone, Debug)]
pub struct StepAccountData {
    pub username: String,
    pub email: String,
    pub password: String,
}

/// The reply to the set-up of the administrator account.
#[derive(Clone, Debug)]
pub struct StepAccountResponse {
    pub token: String,
    pub username: String,
    pub password: String,
}

/// A login attempt.
#[derive(Clone, Debug)]
pub struct LoginData {
    pub username: String,
    pub password: String,
}

/// What a user may do.
#[derive(Clone, Copy, Debug, PartialEq, Eq, Structural)]
pub enum Role {
    Administrator,
    Visitor,
}

/// The stored name of a role.
pub open spec fn role_name(r: Role) -> Seq<char> {
    match r {
        Role::Administrator => "administrator"@,
        Role::Visitor => "visitor"@,
    }
}

impl Role {
    /// The stored name.
    pub fn as_str(&self) -> (r: &'static str)
        ensures
            r@ == role_name(*self),
    {
        match self {
            Role::Administrator => "administrator",
            Role::Visitor => "visitor",
        }
    }
}

/// A new user.
#[derive(Clone, Debug)]
pub struct RegisterData {
    pub username: String,
    pub email: String,
    pub password: String,
    pub role: Role,
}

/// The custom claims of a token: the user it was issued to.
#[derive(Clone, Debug)]
pub struct CustomClaims {
    pub name: String,
}

/// The two halves of the token-signing key pair.
#[derive(Clone, Copy, Debug, PartialEq, Eq, Structural)]
pub enum SecretKey {
    Signing,
    Verifying,
}

/// The file name a key is stored under.
pub open spec fn key_file_name(k: SecretKey) -> Seq<char> {
    match k {
        SecretKey::Signing => "signing"@,
        SecretKey::Verifying => "verifying"@,
    }
}

impl SecretKey {
    /// The file name the key is stored under.
    pub fn as_str(&self) -> (r: &'static str)
        ensures
            r@ == key_file_name(*self),
    {
        match self {
            SecretKey::Signing => "signing",
            SecretKey::Verifying => "verifying",
        }
    }

    /// The file name as an owned string.
    pub fn as_string(&self) -> (r: String)
        ensures
            r@ == key_file_name(*self),
    {
        String::from_str(self.as_str())
    }
}

/// What the installer submits: the administrator and the database to use.
#[derive(Clone, Debug)]
pub struct InstallData {
    pub name: String,
    pub email: String,
    pub password: String,
    pub sql_config: SqlConfig,
}

/// The installer's reply: a token for the new administrator.
#[derive(Clone, Debug)]
pub struct InstallReplyData {
    pub token: String,
    pub name: String,
    pub password: String,
}

} // verus!
