//! Decisions behind the frontend's commands that are not plain delegation:
//! the editor invocation, the project removed by id, and the messages.
use vstd::prelude::*;

use crate::engine::{binary_of, NETWORK_NAME};
use crate::projects::model::Project;
use crate::system::inspector::{engine_name, ContainerEngineKind};
use crate::text::{
    chars_of, str_concat, contains_seq, contains_str, owned, replace, replace_str, rows, split_ws,
    split_ws_chars, string_of, strings_view, trim, trim_str,
};

verus! {

/// How the configured editor command opens `path`: the command is trimmed
/// (empty: no editor configured); `{path}` in it is replaced by the path,
/// else the path is appended after a space; the first word is the program,
/// the other words its arguments (no word: an invalid command).
pub open spec fn editor_invocation(path: Seq<char>, editor_command: Seq<char>) -> Result<(Seq<char>, Seq<Seq<char>>), Seq<char>> {
    let cmd = trim(editor_command);
    if cmd.len() == 0 {
        Err("Kein Editor konfiguriert (siehe Einstellungen)."@)
    } else {
        let full = if contains_seq(cmd, "{path}"@) {
            replace(cmd, "{path}"@, path)
        } else {
            cmd + " "@ + path
        };
        let words = split_ws(full);
        if words.len() == 0 {
            Err("Ungültiger Editor-Befehl"@)
        } else {
            Ok((words[0], words.skip(1)))
        }
    }
}

/// The program and arguments that open `path` in the configured editor
/// (see [`editor_invocation`]).
pub fn editor_command_line(path: &str, editor_command: &str) -> (r: Result<(String, Vec<String>), String>)
    ensures
        match editor_invocation(path@, editor_command@) {
            Ok((prog, args)) => r matches Ok((p, a)) && p@ == prog && strings_view(a@) == args,
            Err(msg) => r matches Err(m) && m@ == msg,
        },
{
    let cmd = trim_str(editor_command);
    if cmd.as_str().is_empty() {
        return Err(owned("Kein Editor konfiguriert (siehe Einstellungen)."));
    }
    proof {
        reveal_strlit("{path}");
    }
    let full = if contains_str(cmd.as_str(), "{path}") {
        replace_str(cmd.as_str(), "{path}", path)
    } else {
        let c = str_concat(cmd.as_str(), " ");
        str_concat(c.as_str(), path)
    };
    let fc = chars_of(full.as_str());
    let words = split_ws_chars(fc.as_slice());
    if words.len() == 0 {
        return Err(owned("Ungültiger Editor-Befehl"));
    }
    let program = string_of(words[0].as_slice());
    let mut args: Vec<String> = Vec::new();
    let mut i: usize = 1;
    while i < words.len()
        invariant
            1 <= i <= words@.len(),
            rows(words@) == split_ws(full@),
            strings_view(args@) == rows(words@).subrange(1, i as int),
        decreases words@.len() - i,
    {
        let ghost before = strings_view(args@);
        let w = string_of(words[i].as_slice());
        assert(w@ == rows(words@)[i as int]);
        args.push(w);
        assert(strings_view(args@) =~= before.push(rows(words@)[i as int]));
        assert(strings_view(args@) =~= rows(words@).subrange(1, i + 1));
        i = i + 1;
    }
    assert(rows(words@).subrange(1, words@.len() as int) =~= rows(words@).skip(1));
    Ok((program, args))
}

/// The name of the first project with the given id.
pub open spec fn project_name_by_id(ps: Seq<Project>, id: i64) -> Option<Seq<char>>
    decreases ps.len(),
{
    if ps.len() == 0 {
        None
    } else if ps[0].id == id {
        Some(ps[0].name@)
    } else {
        project_name_by_id(ps.drop_first(), id)
    }
}

/// The name of the project with the given id, if it is listed (its
/// virtual host is removed after the project is deleted).
pub fn find_project_name(projects: &Vec<Project>, id: i64) -> (r: Option<String>)
    ensures
        match r {
            Some(n) => Some(n@),
            None => None,
        } == project_name_by_id(projects@, id),
{
    let mut i: usize = 0;
    assert(projects@.skip(0) =~= projects@);
    while i < projects.len()
        invariant
            i <= projects@.len(),
            project_name_by_id(projects@, id) == project_name_by_id(projects@.skip(i as int), id),
        decreases projects@.len() - i,
    {
        let ghost rest = projects@.skip(i as int);
        assert(rest[0] == projects@[i as int]);
        assert(rest.drop_first() =~= projects@.skip(i + 1));
        if projects[i].id == id {
            return Some(owned(projects[i].name.as_str()));
        }
        i = i + 1;
    }
    None
}

/// The error for an unknown service identifier.
pub fn unknown_service_message(service_id: &str) -> (m: String)
    ensures
        m@ == "Unbekannter Dienst: "@ + service_id@,
{
    str_concat("Unbekannter Dienst: ", service_id)
}

/// The confirmation after the shared network was ensured.
pub fn network_ready_message(kind: ContainerEngineKind) -> (m: String)
    ensures
        m@ == "Netzwerk '"@ + NETWORK_NAME@ + "' ist bereit (Engine: "@ + engine_name(kind) + ")"@,
{
    let a = str_concat("Netzwerk '", NETWORK_NAME);
    let b = str_concat(a.as_str(), "' ist bereit (Engine: ");
    let k = kind.to_string();
    let c = str_concat(b.as_str(), k.as_str());
    str_concat(c.as_str(), ")")
}

} // verus!
