//! The state of the panel's prerequisites, shown as a checklist on the setup
//! screen: Docker, the network, the `.test` resolution, mkcert's local CA, the
//! command-line helpers and the desktop widget, with the endpoint and paths.

use vstd::prelude::*;

use crate::config::Endpoint;
use crate::paths::{join, join_seq};
use crate::text::{chars_of, string_of, trim, trim_vec, CharClass};

verus! {

broadcast use vstd::string::group_string_axioms;

/// What the setup screen shows. Every check is best effort: one that cannot
/// run reads as not done.
#[derive(Debug)]
pub struct SystemStatus {
    pub docker_ok: bool,
    pub network_ok: bool,
    pub dnsmasq_ok: bool,
    pub mkcert_ok: bool,
    pub cli_wrapper_ok: bool,
    pub plasmoid_ok: bool,
    pub endpoint: Endpoint,
    pub projects_root: String,
    pub config_dir: String,
}

/// Where mkcert's local CA certificate is expected, from what `mkcert -CAROOT`
/// printed when it succeeded: none when it failed or printed nothing.
pub fn ca_root_file(ok: bool, stdout: &str) -> (r: Option<String>)
    ensures
        (ok && trim(stdout@, CharClass::Whitespace).len() > 0) ==> (r matches Some(p) && p@ == join_seq(
            trim(stdout@, CharClass::Whitespace),
            "rootCA.pem"@,
        )),
        !(ok && trim(stdout@, CharClass::Whitespace).len() > 0) ==> r is None,
{
    if !ok {
        return None;
    }
    let root = string_of(&trim_vec(&chars_of(stdout), CharClass::Whitespace));
    if root.unicode_len() == 0 {
        return None;
    }
    Some(join(root.as_str(), "rootCA.pem"))
}

/// The message of an action not available yet.
pub fn feature_stub_message(feature: &str) -> (r: String)
    ensures
        r@ == (if feature@ == "cloudflare"@ {
            "Cloudflare Tunnel"@
        } else if feature@ == "deploy"@ {
            "Deploy"@
        } else if feature@ == "package"@ {
            "Empaquetado del sitio"@
        } else {
            feature@
        }) + ": aún no implementado. Planificado para una fase posterior."@,
{
    let label = if crate::text::str_eq(feature, "cloudflare") {
        "Cloudflare Tunnel"
    } else if crate::text::str_eq(feature, "deploy") {
        "Deploy"
    } else if crate::text::str_eq(feature, "package") {
        "Empaquetado del sitio"
    } else {
        feature
    };
    String::from_str(label).concat(": aún no implementado. Planificado para una fase posterior.")
}

} // verus!
