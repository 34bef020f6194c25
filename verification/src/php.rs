//! The php-fpm image of each PHP version (built from `docker/php/`) and the
//! shared WP-CLI.

use vstd::prelude::*;

use crate::paths::{join, join_seq};

verus! {

broadcast use vstd::string::group_string_axioms;

/// Where WP-CLI's phar is downloaded from.
pub const WP_CLI_URL: &'static str = "https://raw.githubusercontent.com/wp-cli/builds/gh-pages/phar/wp-cli.phar";

/// The image of a PHP version: `panel-php:{version}`.
pub fn image_tag(version: &str) -> (r: String)
    ensures
        r@ == "panel-php:"@ + version@,
{
    String::from_str("panel-php:").concat(version)
}

/// The `docker` arguments that build the image `tag` for `version` from the
/// `php` folder of the image assets.
pub fn build_args(tag: &str, version: &str, assets_dir: &str) -> (r: Vec<String>)
    ensures
        r@.len() == 6,
        r@[0]@ == "build"@,
        r@[1]@ == "-t"@,
        r@[2]@ == tag@,
        r@[3]@ == "--build-arg"@,
        r@[4]@ == "PHP_VERSION="@ + version@,
        r@[5]@ == join_seq(assets_dir@, "php"@),
{
    vec![
        String::from_str("build"),
        String::from_str("-t"),
        String::from_str(tag),
        String::from_str("--build-arg"),
        String::from_str("PHP_VERSION=").concat(version),
        join(assets_dir, "php"),
    ]
}

/// The error when the image build fails.
pub fn build_failure(tag: &str) -> (r: String)
    ensures
        r@ == "docker build falló para "@ + tag@,
{
    String::from_str("docker build falló para ").concat(tag)
}

/// Where WP-CLI is kept on the host: `wp-cli.phar` in the panel's
/// configuration folder (mounted in each container as `/usr/local/bin/wp`).
pub fn wp_cli_path(config_dir: &str) -> (r: String)
    ensures
        r@ == join_seq(config_dir@, "wp-cli.phar"@),
{
    join(config_dir, "wp-cli.phar")
}

} // verus!
