//! Projects: creation (directory, starter files, record), listing and
//! deletion. The records live in SQLite and the files below the projects
//! directory; both are handled by the caller, and this module decides names,
//! domains, paths and starter files.
pub mod model;

use vstd::prelude::*;

use crate::paths::{join_path, path_join};
use crate::text::{
    chars_of, lowercase, opt_view, owned, str_concat, str_eq, to_lowercase, trim, trim_str,
};
use model::Project;

verus! {

/// Starter file of PHP projects.
pub const PHP_INDEX: &'static str = "<?php
phpinfo();
";

/// Starter file of static projects.
pub const STATIC_HTML: &'static str = "<!DOCTYPE html>
<html lang=\"de\">
  <head>
    <meta charset=\"utf-8\" />
    <title>Neues Taurigon-Projekt</title>
  </head>
  <body>
    <h1>Es funktioniert! 🎉</h1>
    <p>Dieses Projekt wird von Taurigon verwaltet.</p>
  </body>
</html>
";

/// Whether `c` may stand in a project name: lowercase ASCII letter, digit
/// or `-`.
pub open spec fn name_char(c: char) -> bool {
    ('a' <= c <= 'z') || ('0' <= c <= '9') || c == '-'
}

/// Why a (normalised) project name is refused, if it is: it is empty, holds
/// a character other than lowercase letters, digits and dashes, or starts
/// or ends with a dash.
pub open spec fn name_error(name: Seq<char>) -> Option<Seq<char>> {
    if name.len() == 0 {
        Some("Der Projektname darf nicht leer sein."@)
    } else if !(forall|i: int| 0 <= i < name.len() ==> name_char(#[trigger] name[i])) {
        Some("Nur Kleinbuchstaben, Ziffern und Bindestriche sind erlaubt."@)
    } else if name[0] == '-' || name.last() == '-' {
        Some("Der Name darf nicht mit einem Bindestrich beginnen/enden."@)
    } else {
        None
    }
}

/// Validates a project name (see [`name_error`]).
pub fn validate_name(name: &str) -> (r: Result<(), String>)
    ensures
        match name_error(name@) {
            None => r is Ok,
            Some(msg) => r matches Err(m) && m@ == msg,
        },
{
    let v = chars_of(name);
    if v.len() == 0 {
        return Err(owned("Der Projektname darf nicht leer sein."));
    }
    let mut i: usize = 0;
    while i < v.len()
        invariant
            v@ == name@,
            i <= v@.len(),
            forall|k: int| 0 <= k < i ==> name_char(#[trigger] name@[k]),
        decreases v@.len() - i,
    {
        let c = v[i];
        if !(('a' <= c && c <= 'z') || ('0' <= c && c <= '9') || c == '-') {
            return Err(owned("Nur Kleinbuchstaben, Ziffern und Bindestriche sind erlaubt."));
        }
        i = i + 1;
    }
    if v[0] == '-' || v[v.len() - 1] == '-' {
        return Err(owned("Der Name darf nicht mit einem Bindestrich beginnen/enden."));
    }
    Ok(())
}

/// The normal form of a requested name: trimmed and lowercased.
pub open spec fn normal_name(name: Seq<char>) -> Seq<char> {
    lowercase(trim(name))
}

/// Normalises a requested project name (see [`normal_name`]).
pub fn normalize_name(name: &str) -> (n: String)
    ensures
        n@ == normal_name(name@),
{
    let t = trim_str(name);
    to_lowercase(t.as_str())
}

/// Where a new project goes: its normalised name, its domain
/// `<name>.localhost` and its directory below the projects directory.
pub struct ProjectPlan {
    pub name: String,
    pub domain: String,
    pub path: String,
}

/// Plans a new project: the requested name is normalised and validated;
/// the plan names the domain and the directory.
pub fn plan_project(projects_root: &str, name: &str) -> (r: Result<ProjectPlan, String>)
    ensures
        match name_error(normal_name(name@)) {
            Some(msg) => r matches Err(m) && m@ == msg,
            None => r matches Ok(p) && p.name@ == normal_name(name@) && p.domain@ == normal_name(name@)
                + ".localhost"@ && p.path@ == path_join(projects_root@, normal_name(name@)),
        },
{
    let n = normalize_name(name);
    match validate_name(n.as_str()) {
        Err(e) => Err(e),
        Ok(()) => {
            let domain = str_concat(n.as_str(), ".localhost");
            let path = join_path(projects_root, n.as_str());
            Ok(ProjectPlan { name: n, domain, path })
        },
    }
}

/// The error for a project directory that exists already.
pub fn exists_error(path: &str) -> (m: String)
    ensures
        m@ == "Verzeichnis existiert bereits: "@ + path@,
{
    str_concat("Verzeichnis existiert bereits: ", path)
}

/// The starter file of a project type: `index.html` with a static page for
/// `static`, `index.php` calling `phpinfo()` for every other type.
pub open spec fn starter_file(dir: Seq<char>, project_type: Seq<char>) -> (Seq<char>, Seq<char>) {
    if project_type == "static"@ {
        (path_join(dir, "index.html"@), STATIC_HTML@)
    } else {
        (path_join(dir, "index.php"@), PHP_INDEX@)
    }
}

/// The starter file to write into a new project's directory (see
/// [`starter_file`]).
pub fn scaffold(dir: &str, project_type: &str) -> (r: (String, &'static str))
    ensures
        (r.0@, r.1@) == starter_file(dir@, project_type@),
{
    if str_eq(project_type, "static") {
        (join_path(dir, "index.html"), STATIC_HTML)
    } else {
        (join_path(dir, "index.php"), PHP_INDEX)
    }
}

/// The project just recorded under `id`: the plan's name, domain and path,
/// the given type and PHP version, and the creation time stored with the
/// record (an SQLite datetime string).
pub fn created_project(
    id: i64,
    plan: ProjectPlan,
    project_type: &str,
    php_version: Option<String>,
    created_at: String,
) -> (p: Project)
    ensures
        p.id == id,
        p.name@ == plan.name@,
        p.domain@ == plan.domain@,
        p.project_type@ == project_type@,
        opt_view(p.php_version) == opt_view(php_version),
        p.path@ == plan.path@,
        p.created_at@ == created_at@,
{
    Project {
        id,
        name: plan.name,
        domain: plan.domain,
        project_type: owned(project_type),
        php_version,
        path: plan.path,
        created_at,
    }
}


/// A valid project name always lands directly inside the projects
/// directory: it is not absolute and holds no separator, so the project's
/// directory is the root, a separator (unless the root ends with one), and
/// the name.
pub proof fn projects_stay_inside_root(projects_root: Seq<char>, name: Seq<char>)
    requires
        name_error(name) is None,
        projects_root.len() > 0,
    ensures
        forall|i: int| 0 <= i < name.len() ==> #[trigger] name[i] != '/',
        path_join(projects_root, name) == if projects_root.last() == '/' {
            projects_root + name
        } else {
            projects_root + "/"@ + name
        },
{
    assert forall|i: int| 0 <= i < name.len() implies #[trigger] name[i] != '/' by {
        assert(name_char(name[i]));
    }
}


/// A (normalised) project name is accepted exactly when it is not empty,
/// consists of lowercase ASCII letters, digits and dashes only, and neither
/// starts nor ends with a dash; a leading digit is fine (`2048` is accepted,
/// `-a`, `a-` and `A` are not).
pub proof fn names_are_lowercase_digits_dashes(name: Seq<char>)
    ensures
        name_error(name) is None <==> {
            &&& name.len() > 0
            &&& forall|i: int|
                0 <= i < name.len() ==> ('a' <= #[trigger] name[i] <= 'z') || ('0' <= name[i] <= '9') || name[i]
                    == '-'
            &&& name[0] != '-'
            &&& name[name.len() - 1] != '-'
        },
{
}

} // verus!
