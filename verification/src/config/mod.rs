//! Where the configuration lives, and what it says about colours.

pub mod theme;
pub mod palette;
pub mod presets;

use vstd::prelude::*;
use crate::pager::dynamic::concat;

verus! {

/// `name` inside directory `dir`, as `Path::join` gives it for a relative
/// name: `dir/name`, with no second `/` after a trailing one, and `name`
/// alone for an empty `dir`.
pub open spec fn join_spec(dir: Seq<char>, name: Seq<char>) -> Seq<char> {
    if dir.len() == 0 {
        name
    } else if dir.last() == '/' {
        dir + name
    } else {
        dir + "/"@ + name
    }
}

/// `name` inside directory `dir`.
pub fn join_path(dir: &str, name: &str) -> (r: String)
    ensures
        r@ == join_spec(dir@, name@),
{
    let d = crate::text::to_chars(dir);
    if d.len() == 0 {
        String::from_str(name)
    } else if d[d.len() - 1] == '/' {
        assert(d@.last() == '/');
        concat(dir, name)
    } else {
        let with_slash = concat(dir, "/");
        concat(with_slash.as_str(), name)
    }
}

/// The directory of application `app`'s configuration:
/// `$XDG_CONFIG_HOME/<app>` when that variable is set and not empty, else
/// `<home>/.config/<app>`, else `./<app>` when the home directory is not
/// known.
pub open spec fn config_dir_spec(
    xdg: Option<Seq<char>>,
    home: Option<Seq<char>>,
    app: Seq<char>,
) -> Seq<char> {
    match xdg {
        Some(x) if x.len() > 0 => join_spec(x, app),
        _ => match home {
            Some(h) => join_spec(join_spec(h, ".config"@), app),
            None => join_spec("."@, app),
        },
    }
}

pub open spec fn opt_string_view(s: Option<String>) -> Option<Seq<char>> {
    match s {
        Some(x) => Some(x@),
        None => None,
    }
}

/// The configuration directory of application `app`, given the value of
/// `XDG_CONFIG_HOME` and the home directory.
pub fn config_dir_for(xdg: &Option<String>, home: &Option<String>, app: &str) -> (r: String)
    ensures
        r@ == config_dir_spec(opt_string_view(*xdg), opt_string_view(*home), app@),
{
    match xdg {
        Some(x) => {
            if !x.as_str().is_empty() {
                return join_path(x.as_str(), app);
            }
        },
        None => {},
    }
    match home {
        Some(h) => {
            let dot = join_path(h.as_str(), ".config");
            join_path(dot.as_str(), app)
        },
        None => join_path(".", app),
    }
}

/// Top-level application configuration: where it was read from.
pub struct AppConfig {
    pub debug: bool,
    pub version: String,
    /// `~/.config/lazygit` (or under `$XDG_CONFIG_HOME`), the directory
    /// lazygit itself reads, so that both share one configuration.
    pub config_dir: String,
    /// `state.yml` inside the configuration directory.
    pub state_path: String,
}

impl AppConfig {
    /// The configuration's locations for the given environment.
    pub fn new(debug: bool, version: String, xdg: &Option<String>, home: &Option<String>) -> (r:
        AppConfig)
        ensures
            r.debug == debug,
            r.version@ == version@,
            r.config_dir@ == config_dir_spec(
                opt_string_view(*xdg),
                opt_string_view(*home),
                "lazygit"@,
            ),
            r.state_path@ == join_spec(r.config_dir@, "state.yml"@),
    {
        let config_dir = config_dir_for(xdg, home, "lazygit");
        let state_path = join_path(config_dir.as_str(), "state.yml");
        AppConfig { debug, version, config_dir, state_path }
    }
}

/// The folder of user-installed grammars: `syntax` inside this
/// application's own configuration directory (never the one shared with
/// lazygit).
pub fn syntax_dir(xdg: &Option<String>, home: &Option<String>) -> (r: String)
    ensures
        r@ == join_spec(
            config_dir_spec(opt_string_view(*xdg), opt_string_view(*home), "lazygitrs"@),
            "syntax"@,
        ),
{
    let dir = config_dir_for(xdg, home, "lazygitrs");
    join_path(dir.as_str(), "syntax")
}

} // verus!
