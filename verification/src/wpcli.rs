//! WP-CLI inside a project's php container, run as `www-data` with the same
//! PHP as the site, and bounded in time (a plugin that calls the network while
//! loading could otherwise hang it).

use vstd::prelude::*;

verus! {

broadcast use vstd::string::group_string_axioms;

/// The limit for any WP-CLI command, in seconds.
pub const WPCLI_TIMEOUT_SECS: u64 = 120;

/// The command run in the container for `wp {args}`.
pub fn wp_command(args: &Vec<String>) -> (r: Vec<String>)
    ensures
        r@.len() == args@.len() + 3,
        r@[0]@ == "php"@,
        r@[1]@ == "/usr/local/bin/wp"@,
        r@[2]@ == "--path=/var/www/html"@,
        forall|i: int| 0 <= i < args@.len() ==> (#[trigger] r@[i + 3])@ == args@[i]@,
{
    let mut r = vec![
        String::from_str("php"),
        String::from_str("/usr/local/bin/wp"),
        String::from_str("--path=/var/www/html"),
    ];
    let mut i: usize = 0;
    while i < args.len()
        invariant
            i <= args.len(),
            r@.len() == i + 3,
            r@[0]@ == "php"@,
            r@[1]@ == "/usr/local/bin/wp"@,
            r@[2]@ == "--path=/var/www/html"@,
            forall|j: int| 0 <= j < i ==> (#[trigger] r@[j + 3])@ == args@[j]@,
        decreases args.len() - i,
    {
        r.push(String::from_str(args[i].as_str()));
        i += 1;
    }
    r
}

/// The error when the project is not running.
pub fn not_running_message(site_name: &str) -> (r: String)
    ensures
        r@ == "el proyecto '"@ + site_name@ + "' no está encendido"@,
{
    String::from_str("el proyecto '").concat(site_name).concat("' no está encendido")
}

/// The error when the command went over the limit.
pub fn timeout_message(site_name: &str) -> (r: String)
    ensures
        r@ == "WP-CLI excedió 120s en '"@ + site_name@
            + "' (¿un plugin/mu-plugin hace una llamada de red al cargar?)"@,
{
    String::from_str("WP-CLI excedió 120s en '").concat(site_name).concat(
        "' (¿un plugin/mu-plugin hace una llamada de red al cargar?)",
    )
}

} // verus!
