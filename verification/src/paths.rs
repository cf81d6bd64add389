//! Host paths of the application's data, below the user's data directory
//! (`$XDG_DATA_HOME` or `~/.local/share`), with a relative fallback when no
//! data directory can be determined.
use vstd::prelude::*;

use crate::text::{opt_view, owned, str_concat};

verus! {

/// `comp` appended to `base` as `PathBuf::push` does on Unix: an absolute
/// `comp` replaces `base`; otherwise a `/` is put between them unless `base`
/// is empty or already ends with one.
pub open spec fn path_join(base: Seq<char>, comp: Seq<char>) -> Seq<char> {
    if comp.len() > 0 && comp[0] == '/' {
        comp
    } else if base.len() == 0 {
        comp
    } else if base.last() == '/' {
        base + comp
    } else {
        base + "/"@ + comp
    }
}

/// Appends a path component (see [`path_join`]).
pub fn join_path(base: &str, comp: &str) -> (p: String)
    ensures
        p@ == path_join(base@, comp@),
{
    if comp.unicode_len() > 0 && comp.get_char(0) == '/' {
        return owned(comp);
    }
    let n = base.unicode_len();
    if n == 0 {
        owned(comp)
    } else if base.get_char(n - 1) == '/' {
        str_concat(base, comp)
    } else {
        let b = str_concat(base, "/");
        str_concat(b.as_str(), comp)
    }
}

/// Calls `dirs::data_dir` and converts the path to text (lossily, as
/// `to_string_lossy` does). What comes back depends on the environment
/// (`XDG_DATA_HOME`, `HOME`, the password database), so nothing is stated
/// of it.
#[verifier::external_body]
fn data_dir() -> (d: Option<String>) {
    dirs::data_dir().map(|p| p.to_string_lossy().to_string())
}

/// `<dir>/taurigon/<sub>` when there is a data directory, else the fallback.
pub open spec fn app_path(dir: Option<Seq<char>>, sub: Seq<Seq<char>>, fallback: Seq<char>) -> Seq<char>
    decreases sub.len(),
{
    match dir {
        Some(d) => if sub.len() == 0 {
            path_join(d, "taurigon"@)
        } else {
            path_join(app_path(dir, sub.drop_last(), fallback), sub.last())
        },
        None => fallback,
    }
}

/// The volumes directory for `dir`: `<dir>/taurigon/volumes`, else
/// `./taurigon-data`.
pub fn data_root_in(dir: &Option<String>) -> (p: String)
    ensures
        p@ == app_path(opt_view(*dir), seq!["volumes"@], "./taurigon-data"@),
{
    match dir {
        Some(d) => {
            proof {
                reveal_with_fuel(app_path, 3);
            }
            let t = join_path(d.as_str(), "taurigon");
            assert(seq!["volumes"@].drop_last() =~= Seq::<Seq<char>>::empty());
            join_path(t.as_str(), "volumes")
        },
        None => owned("./taurigon-data"),
    }
}

/// The projects directory for `dir`: `<dir>/taurigon/projects`, else
/// `./taurigon-data/projects`.
pub fn projects_root_in(dir: &Option<String>) -> (p: String)
    ensures
        p@ == app_path(opt_view(*dir), seq!["projects"@], "./taurigon-data/projects"@),
{
    match dir {
        Some(d) => {
            proof {
                reveal_with_fuel(app_path, 3);
            }
            let t = join_path(d.as_str(), "taurigon");
            assert(seq!["projects"@].drop_last() =~= Seq::<Seq<char>>::empty());
            join_path(t.as_str(), "projects")
        },
        None => owned("./taurigon-data/projects"),
    }
}

/// The directory of generated nginx configuration for `dir`:
/// `<dir>/taurigon/nginx/conf.d`, else `./taurigon-data/nginx/conf.d`.
pub fn nginx_conf_dir_in(dir: &Option<String>) -> (p: String)
    ensures
        p@ == app_path(opt_view(*dir), seq!["nginx"@, "conf.d"@], "./taurigon-data/nginx/conf.d"@),
{
    match dir {
        Some(d) => {
            proof {
                reveal_with_fuel(app_path, 3);
            }
            let t = join_path(d.as_str(), "taurigon");
            let n = join_path(t.as_str(), "nginx");
            assert(seq!["nginx"@, "conf.d"@].drop_last() =~= seq!["nginx"@]);
            assert(seq!["nginx"@].drop_last() =~= Seq::<Seq<char>>::empty());
            join_path(n.as_str(), "conf.d")
        },
        None => owned("./taurigon-data/nginx/conf.d"),
    }
}

/// The database file for `dir`: `<dir>/taurigon/taurigon.db`, else
/// `./taurigon-data/taurigon.db`.
pub fn db_path_in(dir: &Option<String>) -> (p: String)
    ensures
        p@ == app_path(opt_view(*dir), seq!["taurigon.db"@], "./taurigon-data/taurigon.db"@),
{
    match dir {
        Some(d) => {
            proof {
                reveal_with_fuel(app_path, 3);
            }
            let t = join_path(d.as_str(), "taurigon");
            assert(seq!["taurigon.db"@].drop_last() =~= Seq::<Seq<char>>::empty());
            join_path(t.as_str(), "taurigon.db")
        },
        None => owned("./taurigon-data/taurigon.db"),
    }
}

/// The volumes directory below the user's data directory, whatever that is.
pub fn default_data_root() -> (p: String)
    ensures
        exists|d: Option<Seq<char>>| p@ == app_path(d, seq!["volumes"@], "./taurigon-data"@),
{
    let d = data_dir();
    let p = data_root_in(&d);
    assert(p@ == app_path(opt_view(d), seq!["volumes"@], "./taurigon-data"@));
    p
}

/// The projects directory below the user's data directory.
pub fn default_projects_root() -> (p: String)
    ensures
        exists|d: Option<Seq<char>>| p@ == app_path(d, seq!["projects"@], "./taurigon-data/projects"@),
{
    let d = data_dir();
    let p = projects_root_in(&d);
    assert(p@ == app_path(opt_view(d), seq!["projects"@], "./taurigon-data/projects"@));
    p
}

/// The nginx configuration directory below the user's data directory.
pub fn default_nginx_conf_dir() -> (p: String)
    ensures
        exists|d: Option<Seq<char>>| p@ == app_path(d, seq!["nginx"@, "conf.d"@], "./taurigon-data/nginx/conf.d"@),
{
    let d = data_dir();
    let p = nginx_conf_dir_in(&d);
    assert(p@ == app_path(opt_view(d), seq!["nginx"@, "conf.d"@], "./taurigon-data/nginx/conf.d"@));
    p
}

/// The database file below the user's data directory.
pub fn db_path() -> (p: String)
    ensures
        exists|d: Option<Seq<char>>| p@ == app_path(d, seq!["taurigon.db"@], "./taurigon-data/taurigon.db"@),
{
    let d = data_dir();
    let p = db_path_in(&d);
    assert(p@ == app_path(opt_view(d), seq!["taurigon.db"@], "./taurigon-data/taurigon.db"@));
    p
}

} // verus!
