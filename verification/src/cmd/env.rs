//! Compiler environment variables (`lang env`).

use vstd::prelude::*;
use crate::text::{owned, push_str, push_string, str_eq};

verus! {

/// The fallback standard library location.
pub open spec fn default_std_lib_path() -> Seq<char> {
    "/usr/local/lib/lang/std"@
}

/// The compiler's environment: the three paths it resolves at start-up,
/// known by the keys `ROOT`, `STD_LIB_PATH` and `THIRD_PARTY_LIB_PATH`.
pub struct CompilerEnv {
    pub root: String,
    pub std_lib_path: String,
    pub third_party_lib_path: String,
}

/// The value the environment holds for a key, if it knows the key.
pub open spec fn env_lookup(env: CompilerEnv, key: Seq<char>) -> Option<Seq<char>> {
    if key == "ROOT"@ {
        Some(env.root@)
    } else if key == "STD_LIB_PATH"@ {
        Some(env.std_lib_path@)
    } else if key == "THIRD_PARTY_LIB_PATH"@ {
        Some(env.third_party_lib_path@)
    } else {
        None
    }
}

/// The `KEY=value` line printed for one variable.
pub open spec fn env_line(key: Seq<char>, value: Seq<char>) -> Seq<char> {
    key + "="@ + value
}

impl CompilerEnv {
    /// The environment holding the three resolved paths.
    pub fn new(root: String, std_lib_path: String, third_party_lib_path: String) -> (r: Self)
        ensures
            r.root == root,
            r.std_lib_path == std_lib_path,
            r.third_party_lib_path == third_party_lib_path,
    {
        CompilerEnv { root, std_lib_path, third_party_lib_path }
    }

    /// The value of a variable.
    pub fn get(&self, key: &str) -> (r: Option<&String>)
        ensures
            match env_lookup(*self, key@) {
                Some(v) => r matches Some(s) && s@ == v,
                None => r is None,
            },
    {
        if str_eq(key, "ROOT") {
            Some(&self.root)
        } else if str_eq(key, "STD_LIB_PATH") {
            Some(&self.std_lib_path)
        } else if str_eq(key, "THIRD_PARTY_LIB_PATH") {
            Some(&self.third_party_lib_path)
        } else {
            None
        }
    }

    /// The names of all variables.
    pub fn keys(&self) -> (r: Vec<String>)
        ensures
            r@.len() == 3,
            r@[0]@ == "ROOT"@,
            r@[1]@ == "STD_LIB_PATH"@,
            r@[2]@ == "THIRD_PARTY_LIB_PATH"@,
    {
        let mut r: Vec<String> = Vec::new();
        r.push(owned("ROOT"));
        r.push(owned("STD_LIB_PATH"));
        r.push(owned("THIRD_PARTY_LIB_PATH"));
        r
    }

    /// The `KEY=value` lines of all variables (what `lang env` prints).
    pub fn lines(&self) -> (r: Vec<String>)
        ensures
            r@.len() == 3,
            r@[0]@ == env_line("ROOT"@, self.root@),
            r@[1]@ == env_line("STD_LIB_PATH"@, self.std_lib_path@),
            r@[2]@ == env_line("THIRD_PARTY_LIB_PATH"@, self.third_party_lib_path@),
    {
        let mut r: Vec<String> = Vec::new();
        r.push(line("ROOT", &self.root));
        r.push(line("STD_LIB_PATH", &self.std_lib_path));
        r.push(line("THIRD_PARTY_LIB_PATH", &self.third_party_lib_path));
        r
    }

    /// The `KEY=value` line of one variable, or `None` for an unknown key.
    pub fn key_line(&self, key: &str) -> (r: Option<String>)
        ensures
            match env_lookup(*self, key@) {
                Some(v) => r matches Some(s) && s@ == env_line(key@, v),
                None => r is None,
            },
    {
        match self.get(key) {
            Some(v) => Some(line(key, v)),
            None => None,
        }
    }
}

fn line(key: &str, value: &String) -> (r: String)
    ensures
        r@ == env_line(key@, value@),
{
    let mut r = owned(key);
    push_str(&mut r, "=");
    push_string(&mut r, value);
    r
}

/// Chooses the standard library path: the `LANG_STD_LIB_PATH` variable when
/// it is set, else `./std` when that directory exists, else the default.
pub fn resolve_std_lib_path(env_value: Option<String>, local_std_exists: bool) -> (r: String)
    ensures
        env_value matches Some(v) ==> r@ == v@,
        env_value is None && local_std_exists ==> r@ == "./std"@,
        env_value is None && !local_std_exists ==> r@ == default_std_lib_path(),
{
    match env_value {
        Some(v) => v,
        None => if local_std_exists { owned("./std") } else { owned("/usr/local/lib/lang/std") },
    }
}

/// Chooses the third-party library path: the `LANG_THIRD_PARTY_LIB_PATH`
/// variable when it is set, else `./vendor` when that directory exists, else
/// the default.
pub fn resolve_third_party_lib_path(env_value: Option<String>, local_vendor_exists: bool) -> (r: String)
    ensures
        env_value matches Some(v) ==> r@ == v@,
        env_value is None && local_vendor_exists ==> r@ == "./vendor"@,
        env_value is None && !local_vendor_exists ==> r@ == "/usr/local/lib/lang/vendor"@,
{
    match env_value {
        Some(v) => v,
        None => if local_vendor_exists { owned("./vendor") } else { owned("/usr/local/lib/lang/vendor") },
    }
}

/// Chooses the root path: the `LANG_ROOT` variable when it is set, else the
/// default.
pub fn resolve_root_path(env_value: Option<String>) -> (r: String)
    ensures
        env_value matches Some(v) ==> r@ == v@,
        env_value is None ==> r@ == "/usr/local/lib/lang"@,
{
    match env_value {
        Some(v) => v,
        None => owned("/usr/local/lib/lang"),
    }
}

} // verus!
