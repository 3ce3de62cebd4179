//! Required settings read from a snapshot of the process environment.
//!
//! A setting is required: there is no default, and an absent one is an error
//! that names it. Any value that is present is taken as it is, the empty
//! string included.

use vstd::prelude::*;
use vstd::string::*;

verus! {

/// Environment variable holding the push-notification application id.
pub const PUSHER_APP_ID_VAR: &'static str = "DARK_CONFIG_PUSHER_APP_ID";

/// Environment variable holding the push-notification key.
pub const PUSHER_KEY_VAR: &'static str = "DARK_CONFIG_PUSHER_KEY";

/// Environment variable holding the push-notification secret.
pub const PUSHER_SECRET_VAR: &'static str = "DARK_CONFIG_PUSHER_SECRET";

/// Environment variable holding the push-notification host.
pub const PUSHER_HOST_VAR: &'static str = "DARK_CONFIG_PUSHER_HOST";

/// Environment variable holding the database connection URL.
pub const DATABASE_URL_VAR: &'static str = "DATABASE_URL";

/// A required setting that the environment does not hold.
pub struct MissingSetting {
    pub name: String,
}

impl MissingSetting {
    /// The text that reports the missing setting: `"<name> must be set"`.
    pub fn message(&self) -> (r: String)
        ensures
            r@ == self.name@ + " must be set"@,
    {
        self.name.clone().concat(" must be set")
    }
}

/// The value of `name` in `vars`, looking from index `i` on: the value of the
/// first entry at or after `i` whose name is `name`.
pub open spec fn lookup_from(vars: Seq<(String, String)>, name: Seq<char>, i: int) -> Option<
    Seq<char>,
>
    decreases vars.len() - i,
{
    if i < 0 || i >= vars.len() {
        None
    } else if vars[i].0@ == name {
        Some(vars[i].1@)
    } else {
        lookup_from(vars, name, i + 1)
    }
}

/// The value of `name` in an environment listing of (name, value) pairs.
pub open spec fn lookup(vars: Seq<(String, String)>, name: Seq<char>) -> Option<Seq<char>> {
    lookup_from(vars, name, 0)
}

/// `r` is what reading the required setting `name` from `vars` gives: its value
/// when present, else the error that names it.
pub open spec fn reads_setting(
    r: Result<String, MissingSetting>,
    vars: Seq<(String, String)>,
    name: Seq<char>,
) -> bool {
    match lookup(vars, name) {
        Some(v) => r matches Ok(s) && s@ == v,
        None => r matches Err(e) && e.name@ == name,
    }
}

/// Reads the required setting `name` from the environment listing `vars`.
pub fn require_str(vars: &Vec<(String, String)>, name: &str) -> (r: Result<String, MissingSetting>)
    ensures
        reads_setting(r, vars@, name@),
{
    let key = name.to_owned();
    let mut i: usize = 0;
    while i < vars.len()
        invariant
            i <= vars@.len(),
            key@ == name@,
            lookup(vars@, name@) == lookup_from(vars@, name@, i as int),
        decreases vars.len() - i,
    {
        let entry = &vars[i];
        if entry.0 == key {
            return Ok(entry.1.clone());
        }
        i = i + 1;
    }
    Err(MissingSetting { name: key })
}

/// The push-notification application id.
pub fn pusher_app_id(vars: &Vec<(String, String)>) -> (r: Result<String, MissingSetting>)
    ensures
        reads_setting(r, vars@, PUSHER_APP_ID_VAR@),
{
    require_str(vars, PUSHER_APP_ID_VAR)
}

/// The push-notification key.
pub fn pusher_key(vars: &Vec<(String, String)>) -> (r: Result<String, MissingSetting>)
    ensures
        reads_setting(r, vars@, PUSHER_KEY_VAR@),
{
    require_str(vars, PUSHER_KEY_VAR)
}

/// The push-notification secret.
pub fn pusher_secret(vars: &Vec<(String, String)>) -> (r: Result<String, MissingSetting>)
    ensures
        reads_setting(r, vars@, PUSHER_SECRET_VAR@),
{
    require_str(vars, PUSHER_SECRET_VAR)
}

/// The push-notification host.
pub fn pusher_host(vars: &Vec<(String, String)>) -> (r: Result<String, MissingSetting>)
    ensures
        reads_setting(r, vars@, PUSHER_HOST_VAR@),
{
    require_str(vars, PUSHER_HOST_VAR)
}

/// The database connection URL.
pub fn database_url(vars: &Vec<(String, String)>) -> (r: Result<String, MissingSetting>)
    ensures
        reads_setting(r, vars@, DATABASE_URL_VAR@),
{
    require_str(vars, DATABASE_URL_VAR)
}

} // verus!
