//! Generation of the nginx server configuration of a project. PHP projects
//! are handed to the PHP-FPM container of their version; static projects are
//! served directly. Project files live at `/var/www/<name>` in the
//! containers.
use vstd::prelude::*;

use super::catalog::{php_container, php_container_name};
use crate::text::{replace, replace_str, str_eq};

verus! {

/// Template of PHP projects; the placeholders are replaced textually, since
/// nginx's syntax uses braces.
pub const TPL_PHP: &'static str = "server {
    listen 80;
    server_name __DOMAIN__;
    root /var/www/__NAME__;
    index index.php index.html;

    location / {
        try_files $uri $uri/ /index.php?$query_string;
    }

    location ~ \\.php$ {
        fastcgi_pass __PHP__:9000;
        fastcgi_index index.php;
        include fastcgi_params;
        fastcgi_param SCRIPT_FILENAME $document_root$fastcgi_script_name;
    }
}
";

/// Template of static projects.
pub const TPL_STATIC: &'static str = "server {
    listen 80;
    server_name __DOMAIN__;
    root /var/www/__NAME__;
    index index.html;

    location / {
        try_files $uri $uri/ =404;
    }
}
";

/// The PHP version a `php` project is served with: its own, or 8.3 when it
/// names none.
pub open spec fn php_version_used(php_version: Option<Seq<char>>) -> Seq<char> {
    match php_version {
        Some(v) => v,
        None => "8.3"@,
    }
}

/// The configuration of a project: for a `php` project the PHP template with
/// domain, name and the PHP container of its version (8.3 when none is
/// given) filled in, in that order; for any other type the static template
/// with domain and name filled in.
pub open spec fn vhost_config(
    name: Seq<char>,
    domain: Seq<char>,
    project_type: Seq<char>,
    php_version: Option<Seq<char>>,
) -> Seq<char> {
    if project_type == "php"@ {
        let version = php_version_used(php_version);
        replace(
            replace(replace(TPL_PHP@, "__DOMAIN__"@, domain), "__NAME__"@, name),
            "__PHP__"@,
            php_container(version),
        )
    } else {
        replace(replace(TPL_STATIC@, "__DOMAIN__"@, domain), "__NAME__"@, name)
    }
}

/// Generates the nginx configuration of a project (see [`vhost_config`]).
pub fn generate(name: &str, domain: &str, project_type: &str, php_version: Option<&str>) -> (s: String)
    ensures
        s@ == vhost_config(
            name@,
            domain@,
            project_type@,
            match php_version {
                Some(v) => Some(v@),
                None => None,
            },
        ),
{
    proof {
        reveal_strlit("__DOMAIN__");
        reveal_strlit("__NAME__");
        reveal_strlit("__PHP__");
    }
    if str_eq(project_type, "php") {
        let version = match php_version {
            Some(v) => v,
            None => "8.3",
        };
        let php = php_container_name(version);
        let a = replace_str(TPL_PHP, "__DOMAIN__", domain);
        let b = replace_str(a.as_str(), "__NAME__", name);
        replace_str(b.as_str(), "__PHP__", php.as_str())
    } else {
        let a = replace_str(TPL_STATIC, "__DOMAIN__", domain);
        replace_str(a.as_str(), "__NAME__", name)
    }
}

} // verus!
