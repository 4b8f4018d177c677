//! XDG directory resolution.
//!
//! | use    | variable          | fallback under `$HOME` | sub-path               |
//! |--------|-------------------|------------------------|------------------------|
//! | output | `XDG_CACHE_HOME`  | `.cache`               | `tapedeck`             |
//! | config | `XDG_CONFIG_HOME` | `.config`              | `tapedeck/config.toml` |
//! | state  | `XDG_STATE_HOME`  | `.local/state`         | `tapedeck`             |
//!
//! The environment is read by the caller and handed over as [`XdgEnv`].

use vstd::prelude::*;

use crate::fspath::{is_absolute, is_absolute_path, join, join_path};
use crate::text::{copy_string, lit};

verus! {

/// The environment values the directory rules read.
#[derive(Debug, Clone, Default)]
pub struct XdgEnv {
    pub xdg_cache_home: Option<String>,
    pub xdg_config_home: Option<String>,
    pub xdg_state_home: Option<String>,
    pub home: Option<String>,
}

pub open spec fn opt_seq(o: Option<String>) -> Option<Seq<char>> {
    match o {
        Some(s) => Some(s@),
        None => None,
    }
}

/// `$VAR/<sub>`, else `$HOME/<fallback>/<sub>`, else `/tmp/<sub>`.
pub open spec fn xdg_dir_spec(
    var: Option<Seq<char>>,
    home: Option<Seq<char>>,
    fallback: Seq<char>,
    sub: Seq<char>,
) -> Seq<char> {
    let base = match var {
        Some(v) => v,
        None => match home {
            Some(h) => join(h, fallback),
            None => "/tmp"@,
        },
    };
    join(base, sub)
}

pub open spec fn cache_dir_spec(env: XdgEnv) -> Seq<char> {
    xdg_dir_spec(opt_seq(env.xdg_cache_home), opt_seq(env.home), ".cache"@, "tapedeck"@)
}

pub open spec fn config_path_spec(env: XdgEnv) -> Seq<char> {
    xdg_dir_spec(
        opt_seq(env.xdg_config_home),
        opt_seq(env.home),
        ".config"@,
        "tapedeck/config.toml"@,
    )
}

pub open spec fn state_dir_spec(env: XdgEnv) -> Seq<char> {
    xdg_dir_spec(opt_seq(env.xdg_state_home), opt_seq(env.home), ".local/state"@, "tapedeck"@)
}

/// Output path rule: an explicit override is kept as given, an absolute
/// script path is kept, a relative one lands in the cache directory.
pub open spec fn resolve_output_spec(
    cache: Seq<char>,
    script_output: Seq<char>,
    cli_override: Option<Seq<char>>,
) -> Seq<char> {
    match cli_override {
        Some(p) => p,
        None => if is_absolute(script_output) {
            script_output
        } else {
            join(cache, script_output)
        },
    }
}

/// `$VAR/<sub>` or `$HOME/<fallback>/<sub>` (or `/tmp/<sub>` without HOME).
pub fn xdg_dir(var: &Option<String>, home: &Option<String>, fallback: &str, sub: &str) -> (r:
    String)
    ensures
        r@ == xdg_dir_spec(opt_seq(*var), opt_seq(*home), fallback@, sub@),
{
    let base = match var {
        Some(v) => copy_string(v),
        None => match home {
            Some(h) => join_path(h.as_str(), fallback),
            None => lit("/tmp"),
        },
    };
    join_path(base.as_str(), sub)
}

/// Output cache directory.
pub fn cache_dir(env: &XdgEnv) -> (r: String)
    ensures
        r@ == cache_dir_spec(*env),
{
    xdg_dir(&env.xdg_cache_home, &env.home, ".cache", "tapedeck")
}

/// Configuration file path.
pub fn config_path(env: &XdgEnv) -> (r: String)
    ensures
        r@ == config_path_spec(*env),
{
    xdg_dir(&env.xdg_config_home, &env.home, ".config", "tapedeck/config.toml")
}

/// State directory: asset database and recording history.
pub fn state_dir(env: &XdgEnv) -> (r: String)
    ensures
        r@ == state_dir_spec(*env),
{
    xdg_dir(&env.xdg_state_home, &env.home, ".local/state", "tapedeck")
}

/// Where a recording goes: the override as given, an absolute script path
/// as given, a relative one under the cache directory.
pub fn resolve_output_path(env: &XdgEnv, script_output: &str, cli_override: Option<&str>) -> (r:
    String)
    ensures
        r@ == resolve_output_spec(
            cache_dir_spec(*env),
            script_output@,
            match cli_override {
                Some(p) => Some(p@),
                None => None,
            },
        ),
{
    match cli_override {
        Some(p) => lit(p),
        None => {
            if is_absolute_path(script_output) {
                lit(script_output)
            } else {
                let c = cache_dir(env);
                join_path(c.as_str(), script_output)
            }
        },
    }
}

} // verus!
