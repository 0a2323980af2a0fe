//! Where the host and the client look for their configuration on Unix-like
//! systems: under `$XDG_CONFIG_HOME` when it is an absolute path, under
//! `$HOME/.config` otherwise.

use vstd::prelude::*;
use vstd::string::StrSliceExecFns;

use crate::client::{has_prefix, starts_with};
use crate::text::{concat2, concat3, owned};

verus! {

/// Whether a Unix path is absolute: it starts at the root.
pub open spec fn is_absolute_path(p: Seq<char>) -> bool {
    has_prefix(p, "/"@)
}

/// `base` joined with a relative path: nothing is added to an empty base, no
/// second separator after a trailing one.
pub open spec fn join_path(base: Seq<char>, rel: Seq<char>) -> Seq<char> {
    if base.len() == 0 {
        rel
    } else if base.last() == '/' {
        base + rel
    } else {
        base + "/"@ + rel
    }
}

/// The directory that holds per-user configuration.
pub open spec fn config_home(xdg_config_home: Option<Seq<char>>, home: Option<Seq<char>>) -> Seq<
    char,
> {
    match xdg_config_home {
        Some(x) if is_absolute_path(x) => x,
        _ => join_path(
            match home {
                Some(h) => h,
                None => "."@,
            },
            ".config"@,
        ),
    }
}

/// The view of an optional string.
pub open spec fn opt_view(s: Option<&str>) -> Option<Seq<char>> {
    match s {
        Some(s) => Some(s@),
        None => None,
    }
}

fn join(base: &str, rel: &str) -> (res: String)
    ensures
        res@ == join_path(base@, rel@),
{
    let n = base.unicode_len();
    if n == 0 {
        return owned(rel);
    }
    if base.get_char(n - 1) == '/' {
        return concat2(base, rel);
    }
    concat3(base, "/", rel)
}

fn config_home_string(xdg_config_home: Option<&str>, home: Option<&str>) -> (res: String)
    ensures
        res@ == config_home(opt_view(xdg_config_home), opt_view(home)),
{
    proof {
        reveal_strlit("/");
    }
    match xdg_config_home {
        Some(x) => {
            if starts_with(x, "/") {
                return owned(x);
            }
        },
        None => {},
    }
    match home {
        Some(h) => join(h, ".config"),
        None => join(".", ".config"),
    }
}

/// The client's configuration file: `wincast/client.toml` under the
/// configuration directory.
pub fn xdg_config_path(xdg_config_home: Option<&str>, home: Option<&str>) -> (res: String)
    ensures
        res@ == join_path(
            join_path(config_home(opt_view(xdg_config_home), opt_view(home)), "wincast"@),
            "client.toml"@,
        ),
{
    let base = config_home_string(xdg_config_home, home);
    let dir = join(base.as_str(), "wincast");
    join(dir.as_str(), "client.toml")
}

/// The host's configuration file: `wincast/host.toml` under the
/// configuration directory.
pub fn xdg_host_config_path(xdg_config_home: Option<&str>, home: Option<&str>) -> (res: String)
    ensures
        res@ == join_path(
            join_path(config_home(opt_view(xdg_config_home), opt_view(home)), "wincast"@),
            "host.toml"@,
        ),
{
    let base = config_home_string(xdg_config_home, home);
    let dir = join(base.as_str(), "wincast");
    join(dir.as_str(), "host.toml")
}

/// A relative or empty `$XDG_CONFIG_HOME` is ignored: the configuration then
/// lives under the home directory.
pub proof fn lemma_relative_xdg_home_is_ignored(x: Seq<char>, home: Option<Seq<char>>)
    requires
        !is_absolute_path(x),
    ensures
        config_home(Some(x), home) == config_home(None, home),
{
}

} // verus!
