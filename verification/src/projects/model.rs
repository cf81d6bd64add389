//! The data model of a project as stored and shown to the frontend.
use vstd::prelude::*;

verus! {

/// A web project managed by the application.
#[derive(Debug, Clone)]
pub struct Project {
    /// Unique id (primary key).
    pub id: i64,
    /// Lowercase name of letters, digits and dashes, e.g. `myapp`.
    pub name: String,
    /// Full domain, e.g. `myapp.localhost`.
    pub domain: String,
    /// `php` or `static`.
    pub project_type: String,
    /// PHP version of PHP projects, e.g. `8.3`.
    pub php_version: Option<String>,
    /// Absolute path of the project directory.
    pub path: String,
    /// Creation time (an SQLite datetime string).
    pub created_at: String,
}

} // verus!
