//! The web infrastructure: the nginx reverse proxy and one PHP-FPM container
//! per PHP version, shared by all projects of that version.
use vstd::prelude::*;

use crate::text::{str_concat, remove_char, remove_char_str};

verus! {

/// Container name of the reverse proxy.
pub const PROXY_NAME: &'static str = "taurigon-proxy";

/// Image of the reverse proxy.
pub const PROXY_IMAGE: &'static str = "docker.io/library/nginx:alpine";

/// Host port of the proxy (HTTP).
pub const PROXY_HTTP_PORT: u16 = 8080;

/// Supported PHP versions.
pub const PHP_VERSIONS: [&'static str; 3] = ["8.2", "8.3", "8.4"];

/// The container name for a PHP version: `taurigon-php` and the version
/// without dots (`8.3` → `taurigon-php83`).
pub open spec fn php_container(version: Seq<char>) -> Seq<char> {
    "taurigon-php"@ + remove_char(version, '.')
}

/// The PHP-FPM image of a version (`docker.io/library/php:8.3-fpm-alpine`).
pub open spec fn php_image_of(version: Seq<char>) -> Seq<char> {
    "docker.io/library/php:"@ + version + "-fpm-alpine"@
}

/// The container name for a PHP version (see [`php_container`]).
pub fn php_container_name(version: &str) -> (s: String)
    ensures
        s@ == php_container(version@),
{
    let digits = remove_char_str(version, '.');
    str_concat("taurigon-php", digits.as_str())
}

/// The PHP-FPM image of a version (see [`php_image_of`]).
pub fn php_image(version: &str) -> (s: String)
    ensures
        s@ == php_image_of(version@),
{
    let a = str_concat("docker.io/library/php:", version);
    str_concat(a.as_str(), "-fpm-alpine")
}

} // verus!
