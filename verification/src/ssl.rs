//! Local certificates made with mkcert, kept in the project's `ssl/` folder
//! (which nginx reads as `/srv/projects/{dir}/ssl`).

use vstd::prelude::*;

use crate::config::SiteConfig;
use crate::paths::{join, join_seq};

verus! {

broadcast use vstd::string::group_string_axioms;

/// `{path}/ssl`.
pub fn ssl_dir(site: &SiteConfig) -> (r: String)
    ensures
        r@ == join_seq(site.path@, "ssl"@),
{
    join(site.path.as_str(), "ssl")
}

/// `{path}/ssl/cert.pem`.
pub fn cert_path(site: &SiteConfig) -> (r: String)
    ensures
        r@ == join_seq(join_seq(site.path@, "ssl"@), "cert.pem"@),
{
    join(ssl_dir(site).as_str(), "cert.pem")
}

/// `{path}/ssl/key.pem`.
pub fn key_path(site: &SiteConfig) -> (r: String)
    ensures
        r@ == join_seq(join_seq(site.path@, "ssl"@), "key.pem"@),
{
    join(ssl_dir(site).as_str(), "key.pem")
}

/// The arguments of `mkcert` that write the project's certificate and key for
/// its domain.
pub fn mkcert_args(site: &SiteConfig) -> (r: Vec<String>)
    ensures
        r@.len() == 5,
        r@[0]@ == "-cert-file"@,
        r@[1]@ == join_seq(join_seq(site.path@, "ssl"@), "cert.pem"@),
        r@[2]@ == "-key-file"@,
        r@[3]@ == join_seq(join_seq(site.path@, "ssl"@), "key.pem"@),
        r@[4]@ == site.domain@,
{
    vec![
        String::from_str("-cert-file"),
        cert_path(site),
        String::from_str("-key-file"),
        key_path(site),
        String::from_str(site.domain.as_str()),
    ]
}

/// The message when mkcert fails for the project's domain.
pub fn mkcert_failure(site: &SiteConfig) -> (r: String)
    ensures
        r@ == "mkcert falló para el dominio "@ + site.domain@,
{
    String::from_str("mkcert falló para el dominio ").concat(site.domain.as_str())
}

} // verus!
