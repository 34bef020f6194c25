//! Where the panel keeps things on the host: its configuration folder
//! (`~/.config/wordpress-panel/`), the projects root (`~/panel-wp/`) and the
//! folders of the helpers it installs, found from the user's folders.

use vstd::prelude::*;

use crate::paths::{join, join_seq};

verus! {

broadcast use vstd::string::group_string_axioms;

/// `dirs::home_dir()`: the user's home folder (from `$HOME`, else the user
/// database), as text. Nothing is claimed of which folder it is.
#[verifier::external_body]
pub(crate) fn home_dir() -> Option<String> {
    dirs::home_dir().map(|p| p.to_string_lossy().into_owned())
}

/// `dirs::config_dir()`: the user's configuration folder (`$XDG_CONFIG_HOME`
/// or `~/.config` on Linux), as text. Nothing is claimed of which folder it
/// is.
#[verifier::external_body]
fn user_config_dir() -> Option<String> {
    dirs::config_dir().map(|p| p.to_string_lossy().into_owned())
}

/// `dirs::data_dir()`: the user's data folder (`$XDG_DATA_HOME` or
/// `~/.local/share` on Linux), as text. Nothing is claimed of which folder it
/// is.
#[verifier::external_body]
fn user_data_dir() -> Option<String> {
    dirs::data_dir().map(|p| p.to_string_lossy().into_owned())
}

/// The panel's configuration folder inside the user's configuration folder.
pub fn config_dir_in(user_config: &str) -> (r: String)
    ensures
        r@ == join_seq(user_config@, "wordpress-panel"@),
{
    join(user_config, "wordpress-panel")
}

/// The panel's configuration folder, when the user's configuration folder is
/// known.
pub fn config_dir() -> (r: Option<String>)
    ensures
        r matches Some(p) ==> exists|base: Seq<char>| #[trigger] join_seq(base, "wordpress-panel"@) == p@,
{
    match user_config_dir() {
        Some(base) => {
            let r = config_dir_in(base.as_str());
            assert(join_seq(base@, "wordpress-panel"@) == r@);
            Some(r)
        },
        None => None,
    }
}

/// The projects root inside the home folder.
pub fn projects_root_in(home: &str) -> (r: String)
    ensures
        r@ == join_seq(home@, "panel-wp"@),
{
    join(home, "panel-wp")
}

/// The projects root, when the home folder is known.
pub fn projects_root() -> (r: Option<String>)
    ensures
        r matches Some(p) ==> exists|home: Seq<char>| #[trigger] join_seq(home, "panel-wp"@) == p@,
{
    match home_dir() {
        Some(home) => {
            let r = projects_root_in(home.as_str());
            assert(join_seq(home@, "panel-wp"@) == r@);
            Some(r)
        },
        None => None,
    }
}

/// The folder the command-line helpers go to inside the home folder:
/// `~/.local/bin`.
pub fn local_bin_in(home: &str) -> (r: String)
    ensures
        r@ == join_seq(join_seq(home@, ".local"@), "bin"@),
{
    let l = join(home, ".local");
    join(l.as_str(), "bin")
}

/// `~/.local/bin`, when the home folder is known.
pub fn local_bin() -> (r: Option<String>)
    ensures
        r matches Some(p) ==> exists|home: Seq<char>| #[trigger] join_seq(join_seq(home, ".local"@), "bin"@) == p@,
{
    match home_dir() {
        Some(home) => {
            let r = local_bin_in(home.as_str());
            assert(join_seq(join_seq(home@, ".local"@), "bin"@) == r@);
            Some(r)
        },
        None => None,
    }
}

/// The id of the panel's desktop widget.
pub const PLASMOID_ID: &'static str = "com.goldmediatech.wordpresspanel";

/// Where the desktop widget is installed inside the user's data folder.
pub fn plasmoid_dir_in(data_dir: &str) -> (r: String)
    ensures
        r@ == join_seq(join_seq(join_seq(data_dir@, "plasma"@), "plasmoids"@), "com.goldmediatech.wordpresspanel"@),
{
    let a = join(data_dir, "plasma");
    let b = join(a.as_str(), "plasmoids");
    join(b.as_str(), PLASMOID_ID)
}

/// The desktop widget's folder, when the user's data folder is known.
pub fn plasmoid_dir() -> (r: Option<String>)
    ensures
        r matches Some(p) ==> exists|d: Seq<char>|
            #[trigger] join_seq(join_seq(join_seq(d, "plasma"@), "plasmoids"@), "com.goldmediatech.wordpresspanel"@)
                == p@,
{
    match user_data_dir() {
        Some(d) => {
            let r = plasmoid_dir_in(d.as_str());
            assert(join_seq(join_seq(join_seq(d@, "plasma"@), "plasmoids"@), "com.goldmediatech.wordpresspanel"@) == r@);
            Some(r)
        },
        None => None,
    }
}

/// LocalWP's list of sites inside the user's configuration folder:
/// `Local/sites.json`.
pub fn localwp_sites_json_in(user_config: &str) -> (r: String)
    ensures
        r@ == join_seq(join_seq(user_config@, "Local"@), "sites.json"@),
{
    let l = join(user_config, "Local");
    join(l.as_str(), "sites.json")
}

/// LocalWP's list of sites, when the user's configuration folder is known.
pub fn localwp_sites_json() -> (r: Option<String>)
    ensures
        r matches Some(p) ==> exists|c: Seq<char>| #[trigger] join_seq(join_seq(c, "Local"@), "sites.json"@) == p@,
{
    match user_config_dir() {
        Some(c) => {
            let r = localwp_sites_json_in(c.as_str());
            assert(join_seq(join_seq(c@, "Local"@), "sites.json"@) == r@);
            Some(r)
        },
        None => None,
    }
}

} // verus!
