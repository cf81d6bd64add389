use taurigon::database::{
    sql_command, validate_ident, DatabaseManager, DbKind, MARIADB_CONTAINER, POSTGRES_CONTAINER,
};
use taurigon::engine::docker::DockerEngine;
use taurigon::engine::{ContainerState, EngineError};

fn io_message<T: std::fmt::Debug>(r: Result<T, EngineError>) -> String {
    match r {
        Err(EngineError::Io(m)) => m,
        other => panic!("{other:?}"),
    }
}

#[test]
fn kinds() {
    assert_eq!(DbKind::from_id("mariadb"), Some(DbKind::MariaDB));
    assert_eq!(DbKind::from_id("postgres"), Some(DbKind::Postgres));
    assert_eq!(DbKind::from_id("redis"), None);
    assert_eq!(DbKind::MariaDB.container(), MARIADB_CONTAINER);
    assert_eq!(DbKind::Postgres.container(), "taurigon-postgres");
    assert_eq!(POSTGRES_CONTAINER, "taurigon-postgres");
}

#[test]
fn identifiers() {
    assert!(validate_ident("shop_1").is_ok());
    assert!(validate_ident("_x").is_ok());
    assert_eq!(io_message(validate_ident("")), "Name darf nicht leer sein");
    assert_eq!(io_message(validate_ident("my-db")), "Nur Buchstaben, Ziffern und Unterstriche erlaubt");
    assert_eq!(io_message(validate_ident("x`; DROP")), "Nur Buchstaben, Ziffern und Unterstriche erlaubt");
    assert_eq!(io_message(validate_ident("ä")), "Nur Buchstaben, Ziffern und Unterstriche erlaubt");
    assert_eq!(io_message(validate_ident("1db")), "Name darf nicht mit einer Ziffer beginnen");
    assert_eq!(io_message(validate_ident("1-")), "Nur Buchstaben, Ziffern und Unterstriche erlaubt");
}

#[test]
fn sql_commands() {
    assert_eq!(
        sql_command(DbKind::MariaDB, "SHOW DATABASES;"),
        vec!["mariadb", "-uroot", "-proot", "-N", "-e", "SHOW DATABASES;"]
    );
    assert_eq!(
        sql_command(DbKind::Postgres, "CREATE DATABASE \"shop\";"),
        vec!["sh", "-c", "PGPASSWORD=postgres psql -U postgres -tAc \"CREATE DATABASE \\\"shop\\\";\""]
    );
}

#[test]
fn manager_commands() {
    let e = DockerEngine::new(false);
    let m = DatabaseManager::new(&e);
    assert_eq!(m.list_command(DbKind::MariaDB), sql_command(DbKind::MariaDB, "SHOW DATABASES;"));
    assert_eq!(
        m.list_command(DbKind::Postgres),
        sql_command(DbKind::Postgres, "SELECT datname FROM pg_database WHERE datistemplate = false;")
    );
    assert_eq!(
        m.create_database_command(DbKind::MariaDB, "shop").unwrap(),
        sql_command(DbKind::MariaDB, "CREATE DATABASE `shop`;")
    );
    assert_eq!(
        m.drop_database_command(DbKind::Postgres, "shop").unwrap(),
        sql_command(DbKind::Postgres, "DROP DATABASE \"shop\";")
    );
    assert_eq!(io_message(m.create_database_command(DbKind::MariaDB, "")), "Name darf nicht leer sein");
    assert_eq!(
        io_message(m.drop_database_command(DbKind::MariaDB, "a b")),
        "Nur Buchstaben, Ziffern und Unterstriche erlaubt"
    );
}

#[test]
fn user_creation() {
    let e = DockerEngine::new(false);
    let m = DatabaseManager::new(&e);
    assert_eq!(
        m.create_user_command(DbKind::MariaDB, "shop", "bob", "it's").unwrap(),
        sql_command(
            DbKind::MariaDB,
            "CREATE USER 'bob'@'%' IDENTIFIED BY 'it''s'; GRANT ALL PRIVILEGES ON `shop`.* TO 'bob'@'%'; FLUSH PRIVILEGES;"
        )
    );
    assert_eq!(
        m.create_user_command(DbKind::Postgres, "shop", "bob", "p\"w").unwrap(),
        sql_command(
            DbKind::Postgres,
            "CREATE USER \"bob\" WITH PASSWORD 'p\"w'; GRANT ALL PRIVILEGES ON DATABASE \"shop\" TO \"bob\";"
        )
    );
    assert_eq!(io_message(m.create_user_command(DbKind::MariaDB, "9", "bob", "")), "Name darf nicht mit einer Ziffer beginnen");
    assert_eq!(io_message(m.create_user_command(DbKind::MariaDB, "shop", "", "")), "Name darf nicht leer sein");
}

#[test]
fn listing() {
    let e = DockerEngine::new(false);
    let m = DatabaseManager::new(&e);
    let l = m.parse_list(DbKind::MariaDB, "information_schema\nmydb\nmysql\nperformance_schema\nsys\n shop \n\n");
    let names: Vec<&str> = l.iter().map(|d| d.name.as_str()).collect();
    assert_eq!(names, vec!["mydb", "shop"]);
    let l = m.parse_list(DbKind::Postgres, "postgres\napp\ntemplate1\nsys\n");
    let names: Vec<&str> = l.iter().map(|d| d.name.as_str()).collect();
    assert_eq!(names, vec!["app", "sys"]);
    assert!(m.is_available_from(ContainerState::Running));
    assert!(!m.is_available_from(ContainerState::Stopped));
}
