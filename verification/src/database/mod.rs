//! Databases and users inside the running MariaDB and PostgreSQL
//! containers. The SQL runs through `exec` in the service's container, so no
//! database client is needed on the host; the caller runs the commands that
//! are built here, and the output is interpreted here.
use vstd::prelude::*;

use crate::engine::{is_running_state, ContainerEngine, ContainerState, EngineError, EngineResult};
use crate::text::{
    chars_of, str_concat, owned, replace, replace_str, rows, split_char, split_chars, str_eq, string_of,
    strings_view, trim, trim_chars,
};

verus! {

/// Container of the MariaDB service.
pub const MARIADB_CONTAINER: &'static str = "taurigon-mariadb";

/// Container of the PostgreSQL service.
pub const POSTGRES_CONTAINER: &'static str = "taurigon-postgres";

/// Root password of MariaDB (see the service catalogue).
pub const MARIADB_ROOT_PW: &'static str = "root";

/// Superuser of PostgreSQL.
pub const POSTGRES_SUPERUSER: &'static str = "postgres";

/// Password of the PostgreSQL superuser.
pub const POSTGRES_PW: &'static str = "postgres";

/// Which database engine is meant.
#[derive(Debug, Clone, Copy, PartialEq, Eq, Structural)]
pub enum DbKind {
    MariaDB,
    Postgres,
}

/// The kind with the given identifier, if any.
pub open spec fn db_kind_of(id: Seq<char>) -> Option<DbKind> {
    if id == "mariadb"@ {
        Some(DbKind::MariaDB)
    } else if id == "postgres"@ {
        Some(DbKind::Postgres)
    } else {
        None
    }
}

/// The container of a database kind.
pub open spec fn db_container(k: DbKind) -> Seq<char> {
    match k {
        DbKind::MariaDB => MARIADB_CONTAINER@,
        DbKind::Postgres => POSTGRES_CONTAINER@,
    }
}

impl DbKind {
    /// The kind with the identifier `mariadb` or `postgres`.
    pub fn from_id(id: &str) -> (k: Option<Self>)
        ensures
            k == db_kind_of(id@),
    {
        if str_eq(id, "mariadb") {
            Some(DbKind::MariaDB)
        } else if str_eq(id, "postgres") {
            Some(DbKind::Postgres)
        } else {
            None
        }
    }

    /// The container the SQL runs in.
    pub fn container(&self) -> (s: &'static str)
        ensures
            s@ == db_container(*self),
    {
        match self {
            DbKind::MariaDB => MARIADB_CONTAINER,
            DbKind::Postgres => POSTGRES_CONTAINER,
        }
    }
}

/// A database as shown to the frontend.
#[derive(Debug, Clone)]
pub struct DatabaseInfo {
    pub name: String,
}

/// The system databases, which are not shown.
pub open spec fn is_system_db(k: DbKind, name: Seq<char>) -> bool {
    match k {
        DbKind::MariaDB => name == "information_schema"@ || name == "mysql"@ || name
            == "performance_schema"@ || name == "sys"@,
        DbKind::Postgres => name == "postgres"@ || name == "template1"@,
    }
}

/// The user databases listed in `lines`: each line trimmed, empty lines and
/// system databases skipped.
pub open spec fn db_lines(k: DbKind, lines: Seq<Seq<char>>) -> Seq<Seq<char>>
    decreases lines.len(),
{
    if lines.len() == 0 {
        Seq::empty()
    } else {
        let prev = db_lines(k, lines.drop_last());
        let l = trim(lines.last());
        if l.len() == 0 || is_system_db(k, l) {
            prev
        } else {
            prev.push(l)
        }
    }
}

/// The user databases in the output of the listing query (lines split at
/// `\n`; a `\r` and a final line ending vanish in the trimming).
pub open spec fn db_list(k: DbKind, out: Seq<char>) -> Seq<Seq<char>> {
    db_lines(k, split_char(out, '\n'))
}

/// The names of a database list.
pub open spec fn db_names(v: Seq<DatabaseInfo>) -> Seq<Seq<char>> {
    Seq::new(v.len(), |i: int| v[i].name@)
}

/// Whether `c` may stand in an identifier: ASCII letter, digit or `_`.
pub open spec fn ident_char(c: char) -> bool {
    ('a' <= c <= 'z') || ('A' <= c <= 'Z') || ('0' <= c <= '9') || c == '_'
}

/// Whether `c` is an ASCII digit.
pub open spec fn is_digit(c: char) -> bool {
    '0' <= c <= '9'
}

/// The outcome of validating an identifier: not empty, only ASCII letters,
/// digits and underscores, not starting with a digit. This keeps names from
/// injecting SQL.
pub open spec fn ident_error(name: Seq<char>) -> Option<Seq<char>> {
    if name.len() == 0 {
        Some("Name darf nicht leer sein"@)
    } else if !(forall|i: int| 0 <= i < name.len() ==> ident_char(#[trigger] name[i])) {
        Some("Nur Buchstaben, Ziffern und Unterstriche erlaubt"@)
    } else if is_digit(name[0]) {
        Some("Name darf nicht mit einer Ziffer beginnen"@)
    } else {
        None
    }
}

/// Whether `r` is the validation result for `name`: `Ok` exactly when it is
/// valid, else an `Io` error with the reason.
pub open spec fn is_ident_result(name: Seq<char>, r: EngineResult<()>) -> bool {
    match ident_error(name) {
        None => r is Ok,
        Some(msg) => r matches Err(EngineError::Io(m)) && m@ == msg,
    }
}

/// Validates a database or user name (see [`ident_error`]).
pub fn validate_ident(name: &str) -> (r: EngineResult<()>)
    ensures
        is_ident_result(name@, r),
{
    let v = chars_of(name);
    if v.len() == 0 {
        return Err(EngineError::Io(owned("Name darf nicht leer sein")));
    }
    let mut i: usize = 0;
    while i < v.len()
        invariant
            v@ == name@,
            i <= v@.len(),
            forall|k: int| 0 <= k < i ==> ident_char(#[trigger] name@[k]),
        decreases v@.len() - i,
    {
        let c = v[i];
        let ok = ('a' <= c && c <= 'z') || ('A' <= c && c <= 'Z') || ('0' <= c && c <= '9') || c == '_';
        if !ok {
            return Err(EngineError::Io(owned("Nur Buchstaben, Ziffern und Unterstriche erlaubt")));
        }
        i = i + 1;
    }
    let first = v[0];
    if '0' <= first && first <= '9' {
        return Err(EngineError::Io(owned("Name darf nicht mit einer Ziffer beginnen")));
    }
    Ok(())
}

/// The MariaDB client invocation for `sql`: as root, without column
/// headers.
pub open spec fn mariadb_argv(sql: Seq<char>) -> Seq<Seq<char>> {
    seq!["mariadb"@, "-uroot"@, "-p"@ + MARIADB_ROOT_PW@, "-N"@, "-e"@, sql]
}

/// The PostgreSQL invocation for `sql`: through `sh -c`, so that
/// `PGPASSWORD` can be set, with the SQL in double quotes and its own double
/// quotes escaped.
pub open spec fn postgres_argv(sql: Seq<char>) -> Seq<Seq<char>> {
    seq![
        "sh"@,
        "-c"@,
        "PGPASSWORD="@ + POSTGRES_PW@ + " psql -U "@ + POSTGRES_SUPERUSER@ + " -tAc \""@ + replace(sql, "\""@, "\\\""@)
            + "\""@,
    ]
}

/// The command that runs `sql` in the container of `k`.
pub open spec fn sql_argv(k: DbKind, sql: Seq<char>) -> Seq<Seq<char>> {
    match k {
        DbKind::MariaDB => mariadb_argv(sql),
        DbKind::Postgres => postgres_argv(sql),
    }
}

/// The query that lists the databases.
pub open spec fn list_sql(k: DbKind) -> Seq<char> {
    match k {
        DbKind::MariaDB => "SHOW DATABASES;"@,
        DbKind::Postgres => "SELECT datname FROM pg_database WHERE datistemplate = false;"@,
    }
}

/// `CREATE DATABASE` with the name quoted for the engine.
pub open spec fn create_db_sql(k: DbKind, name: Seq<char>) -> Seq<char> {
    match k {
        DbKind::MariaDB => "CREATE DATABASE `"@ + name + "`;"@,
        DbKind::Postgres => "CREATE DATABASE \""@ + name + "\";"@,
    }
}

/// `DROP DATABASE` with the name quoted for the engine.
pub open spec fn drop_db_sql(k: DbKind, name: Seq<char>) -> Seq<char> {
    match k {
        DbKind::MariaDB => "DROP DATABASE `"@ + name + "`;"@,
        DbKind::Postgres => "DROP DATABASE \""@ + name + "\";"@,
    }
}

/// A password inside single quotes: each `'` doubled.
pub open spec fn quote_escaped(pw: Seq<char>) -> Seq<char> {
    replace(pw, "'"@, "''"@)
}

/// Creating a user with all privileges on a database.
pub open spec fn create_user_sql(k: DbKind, database: Seq<char>, user: Seq<char>, password: Seq<char>) -> Seq<char> {
    let pw = quote_escaped(password);
    match k {
        DbKind::MariaDB => "CREATE USER '"@ + user + "'@'%' IDENTIFIED BY '"@ + pw
            + "'; GRANT ALL PRIVILEGES ON `"@ + database + "`.* TO '"@ + user
            + "'@'%'; FLUSH PRIVILEGES;"@,
        DbKind::Postgres => "CREATE USER \""@ + user + "\" WITH PASSWORD '"@ + pw
            + "'; GRANT ALL PRIVILEGES ON DATABASE \""@ + database + "\" TO \""@ + user + "\";"@,
    }
}

/// Pushes an owned copy of `s`.
fn push_str(v: &mut Vec<String>, s: &str)
    ensures
        strings_view(final(v)@) == strings_view(old(v)@).push(s@),
{
    let ghost before = strings_view(v@);
    v.push(owned(s));
    assert(strings_view(v@) =~= before.push(s@));
}

/// The command that runs `sql` in the container of `kind`
/// (see [`sql_argv`]).
pub fn sql_command(kind: DbKind, sql: &str) -> (argv: Vec<String>)
    ensures
        strings_view(argv@) == sql_argv(kind, sql@),
{
    let mut argv: Vec<String> = Vec::new();
    match kind {
        DbKind::MariaDB => {
            push_str(&mut argv, "mariadb");
            push_str(&mut argv, "-uroot");
            let pw = str_concat("-p", MARIADB_ROOT_PW);
            push_str(&mut argv, pw.as_str());
            push_str(&mut argv, "-N");
            push_str(&mut argv, "-e");
            push_str(&mut argv, sql);
            assert(strings_view(argv@) =~= mariadb_argv(sql@));
        },
        DbKind::Postgres => {
            proof {
                reveal_strlit("\"");
            }
            let escaped = replace_str(sql, "\"", "\\\"");
            let a = str_concat("PGPASSWORD=", POSTGRES_PW);
            let b = str_concat(a.as_str(), " psql -U ");
            let c = str_concat(b.as_str(), POSTGRES_SUPERUSER);
            let d = str_concat(c.as_str(), " -tAc \"");
            let e = str_concat(d.as_str(), escaped.as_str());
            let cmd = str_concat(e.as_str(), "\"");
            push_str(&mut argv, "sh");
            push_str(&mut argv, "-c");
            push_str(&mut argv, cmd.as_str());
            assert(strings_view(argv@) =~= postgres_argv(sql@));
        },
    }
    argv
}

/// Manages databases through a container engine.
pub struct DatabaseManager<'a, E: ContainerEngine> {
    engine: &'a E,
}

impl<'a, E: ContainerEngine> DatabaseManager<'a, E> {
    pub closed spec fn spec_engine(&self) -> &'a E {
        self.engine
    }

    /// A manager using `engine`.
    pub fn new(engine: &'a E) -> (m: Self)
        ensures
            m.spec_engine() == engine,
    {
        DatabaseManager { engine }
    }

    /// The engine in use.
    pub fn engine(&self) -> (e: &'a E)
        ensures
            e == self.spec_engine(),
    {
        self.engine
    }

    /// The command that lists the databases of `kind`.
    pub fn list_command(&self, kind: DbKind) -> (argv: Vec<String>)
        ensures
            strings_view(argv@) == sql_argv(kind, list_sql(kind)),
    {
        match kind {
            DbKind::MariaDB => sql_command(kind, "SHOW DATABASES;"),
            DbKind::Postgres => sql_command(
                kind,
                "SELECT datname FROM pg_database WHERE datistemplate = false;",
            ),
        }
    }

    /// The user databases in the listing output (see [`db_list`]).
    pub fn parse_list(&self, kind: DbKind, output: &str) -> (r: Vec<DatabaseInfo>)
        ensures
            db_names(r@) == db_list(kind, output@),
    {
        let chars = chars_of(output);
        let lines = split_chars(chars.as_slice(), '\n');
        let mut r: Vec<DatabaseInfo> = Vec::new();
        let mut i: usize = 0;
        while i < lines.len()
            invariant
                i <= lines@.len(),
                rows(lines@) == split_char(output@, '\n'),
                db_names(r@) == db_lines(kind, rows(lines@).take(i as int)),
            decreases lines@.len() - i,
        {
            let ghost before = db_names(r@);
            assert(rows(lines@).take(i + 1).drop_last() =~= rows(lines@).take(i as int));
            assert(rows(lines@).take(i + 1).last() == lines@[i as int]@);
            let t = trim_chars(lines[i].as_slice());
            if t.len() > 0 {
                let name = string_of(t.as_slice());
                if !is_system_name(kind, name.as_str()) {
                    r.push(DatabaseInfo { name });
                    assert(db_names(r@) =~= before.push(t@));
                }
            }
            i = i + 1;
        }
        assert(rows(lines@).take(lines@.len() as int) =~= rows(lines@));
        r
    }

    /// The command that creates a database, or the validation error of its
    /// name.
    pub fn create_database_command(&self, kind: DbKind, name: &str) -> (r: EngineResult<Vec<String>>)
        ensures
            match ident_error(name@) {
                None => r matches Ok(argv) && strings_view(argv@) == sql_argv(kind, create_db_sql(kind, name@)),
                Some(msg) => r matches Err(EngineError::Io(m)) && m@ == msg,
            },
    {
        match validate_ident(name) {
            Err(e) => Err(e),
            Ok(()) => {
                let sql = match kind {
                    DbKind::MariaDB => {
                        let a = str_concat("CREATE DATABASE `", name);
                        str_concat(a.as_str(), "`;")
                    },
                    DbKind::Postgres => {
                        let a = str_concat("CREATE DATABASE \"", name);
                        str_concat(a.as_str(), "\";")
                    },
                };
                Ok(sql_command(kind, sql.as_str()))
            },
        }
    }

    /// The command that drops a database, or the validation error of its
    /// name.
    pub fn drop_database_command(&self, kind: DbKind, name: &str) -> (r: EngineResult<Vec<String>>)
        ensures
            match ident_error(name@) {
                None => r matches Ok(argv) && strings_view(argv@) == sql_argv(kind, drop_db_sql(kind, name@)),
                Some(msg) => r matches Err(EngineError::Io(m)) && m@ == msg,
            },
    {
        match validate_ident(name) {
            Err(e) => Err(e),
            Ok(()) => {
                let sql = match kind {
                    DbKind::MariaDB => {
                        let a = str_concat("DROP DATABASE `", name);
                        str_concat(a.as_str(), "`;")
                    },
                    DbKind::Postgres => {
                        let a = str_concat("DROP DATABASE \"", name);
                        str_concat(a.as_str(), "\";")
                    },
                };
                Ok(sql_command(kind, sql.as_str()))
            },
        }
    }

    /// The command that creates a user with all privileges on `database`, or
    /// the validation error of the database name, else of the user name.
    pub fn create_user_command(&self, kind: DbKind, database: &str, user: &str, password: &str) -> (r: EngineResult<Vec<String>>)
        ensures
            match ident_error(database@) {
                Some(msg) => r matches Err(EngineError::Io(m)) && m@ == msg,
                None => match ident_error(user@) {
                    Some(msg) => r matches Err(EngineError::Io(m)) && m@ == msg,
                    None => r matches Ok(argv) && strings_view(argv@) == sql_argv(
                        kind,
                        create_user_sql(kind, database@, user@, password@),
                    ),
                },
            },
    {
        if let Err(e) = validate_ident(database) {
            return Err(e);
        }
        if let Err(e) = validate_ident(user) {
            return Err(e);
        }
        proof {
            reveal_strlit("'");
        }
        let pw = replace_str(password, "'", "''");
        let sql = match kind {
            DbKind::MariaDB => {
                let s = str_concat("CREATE USER '", user);
                let s = str_concat(s.as_str(), "'@'%' IDENTIFIED BY '");
                let s = str_concat(s.as_str(), pw.as_str());
                let s = str_concat(s.as_str(), "'; GRANT ALL PRIVILEGES ON `");
                let s = str_concat(s.as_str(), database);
                let s = str_concat(s.as_str(), "`.* TO '");
                let s = str_concat(s.as_str(), user);
                str_concat(s.as_str(), "'@'%'; FLUSH PRIVILEGES;")
            },
            DbKind::Postgres => {
                let s = str_concat("CREATE USER \"", user);
                let s = str_concat(s.as_str(), "\" WITH PASSWORD '");
                let s = str_concat(s.as_str(), pw.as_str());
                let s = str_concat(s.as_str(), "'; GRANT ALL PRIVILEGES ON DATABASE \"");
                let s = str_concat(s.as_str(), database);
                let s = str_concat(s.as_str(), "\" TO \"");
                let s = str_concat(s.as_str(), user);
                str_concat(s.as_str(), "\";")
            },
        };
        Ok(sql_command(kind, sql.as_str()))
    }

    /// Whether the database container is usable, from its state.
    pub fn is_available_from(&self, state: ContainerState) -> (b: bool)
        ensures
            b == (state == ContainerState::Running),
    {
        is_running_state(state)
    }
}

/// Whether `name` is a system database of `kind`.
fn is_system_name(kind: DbKind, name: &str) -> (b: bool)
    ensures
        b == is_system_db(kind, name@),
{
    match kind {
        DbKind::MariaDB => str_eq(name, "information_schema") || str_eq(name, "mysql") || str_eq(
            name,
            "performance_schema",
        ) || str_eq(name, "sys"),
        DbKind::Postgres => str_eq(name, "postgres") || str_eq(name, "template1"),
    }
}


/// A valid identifier cannot leave its quotes: it holds no backtick, double
/// quote, single quote, semicolon or whitespace.
pub proof fn valid_idents_stay_quoted(name: Seq<char>)
    requires
        ident_error(name) is None,
    ensures
        forall|i: int|
            0 <= i < name.len() ==> #[trigger] name[i] != '`' && name[i] != '"' && name[i] != '\'' && name[i]
                != ';' && name[i] != ' ',
{
    assert forall|i: int| 0 <= i < name.len() implies #[trigger] name[i] != '`' && name[i] != '"' && name[i]
        != '\'' && name[i] != ';' && name[i] != ' ' by {
        assert(ident_char(name[i]));
    }
}


/// A name is accepted exactly when it is not empty, consists of ASCII
/// letters of either case, digits and underscores only, and does not start
/// with a digit (e.g. `MyShop` and `_x1` are accepted, `1x` and `a-b` are
/// not).
pub proof fn idents_are_letters_digits_underscores(name: Seq<char>)
    ensures
        ident_error(name) is None <==> {
            &&& name.len() > 0
            &&& forall|i: int|
                0 <= i < name.len() ==> ('a' <= #[trigger] name[i] <= 'z') || ('A' <= name[i] <= 'Z') || ('0'
                    <= name[i] <= '9') || name[i] == '_'
            &&& !('0' <= name[0] <= '9')
        },
{
}

} // verus!
