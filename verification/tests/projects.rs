use taurigon::commands::{editor_command_line, find_project_name, network_ready_message, unknown_service_message};
use taurigon::paths::{data_root_in, db_path_in, default_data_root, join_path, nginx_conf_dir_in, projects_root_in};
use taurigon::projects::model::Project;
use taurigon::projects::{
    created_project, exists_error, normalize_name, plan_project, scaffold, validate_name,
    PHP_INDEX, STATIC_HTML,
};
use taurigon::system::inspector::ContainerEngineKind;

fn err(r: Result<(), String>) -> String {
    r.unwrap_err()
}

#[test]
fn names() {
    assert!(validate_name("my-app2").is_ok());
    assert_eq!(err(validate_name("")), "Der Projektname darf nicht leer sein.");
    assert_eq!(err(validate_name("my_app")), "Nur Kleinbuchstaben, Ziffern und Bindestriche sind erlaubt.");
    assert_eq!(err(validate_name("MyApp")), "Nur Kleinbuchstaben, Ziffern und Bindestriche sind erlaubt.");
    assert_eq!(err(validate_name("-app")), "Der Name darf nicht mit einem Bindestrich beginnen/enden.");
    assert_eq!(err(validate_name("app-")), "Der Name darf nicht mit einem Bindestrich beginnen/enden.");
    assert_eq!(err(validate_name("-")), "Der Name darf nicht mit einem Bindestrich beginnen/enden.");
}

#[test]
fn normalisation() {
    assert_eq!(normalize_name("  My-App \n"), "my-app");
    assert_eq!(normalize_name("ÄPFEL"), "äpfel");
}

#[test]
fn plans() {
    let p = plan_project("/home/u/.local/share/taurigon/projects", "  My-App ").ok().unwrap();
    assert_eq!(p.name, "my-app");
    assert_eq!(p.domain, "my-app.localhost");
    assert_eq!(p.path, "/home/u/.local/share/taurigon/projects/my-app");
    assert_eq!(
        plan_project("/p", "   ").err().unwrap(),
        "Der Projektname darf nicht leer sein."
    );
    assert_eq!(
        plan_project("/p", "Äpfel").err().unwrap(),
        "Nur Kleinbuchstaben, Ziffern und Bindestriche sind erlaubt."
    );
    assert_eq!(exists_error("/p/x"), "Verzeichnis existiert bereits: /p/x");
}

#[test]
fn starter_files() {
    assert_eq!(scaffold("/p/x", "static"), ("/p/x/index.html".to_string(), STATIC_HTML));
    assert_eq!(scaffold("/p/x", "php"), ("/p/x/index.php".to_string(), PHP_INDEX));
    assert_eq!(scaffold("/p/x", "other"), ("/p/x/index.php".to_string(), PHP_INDEX));
    assert_eq!(PHP_INDEX, "<?php\nphpinfo();\n");
}

#[test]
fn recorded_project() {
    let plan = plan_project("/p", "shop").ok().unwrap();
    let p = created_project(7, plan, "php", Some("8.3".to_string()), "2024-05-01 12:00:00".to_string());
    assert_eq!(p.id, 7);
    assert_eq!(p.name, "shop");
    assert_eq!(p.domain, "shop.localhost");
    assert_eq!(p.path, "/p/shop");
    assert_eq!(p.project_type, "php");
    assert_eq!(p.php_version.as_deref(), Some("8.3"));
    assert_eq!(p.created_at, "2024-05-01 12:00:00");
}

fn project(id: i64, name: &str) -> Project {
    Project {
        id,
        name: name.into(),
        domain: String::new(),
        project_type: "static".into(),
        php_version: None,
        path: String::new(),
        created_at: String::new(),
    }
}

#[test]
fn project_lookup() {
    let ps = vec![project(1, "a"), project(2, "b"), project(2, "c")];
    assert_eq!(find_project_name(&ps, 2), Some("b".to_string()));
    assert_eq!(find_project_name(&ps, 9), None);
}

#[test]
fn editor_invocations() {
    let ok = |p: &str, c: &str| editor_command_line(p, c).ok().unwrap();
    assert_eq!(ok("/p/x", "code {path}"), ("code".to_string(), vec!["/p/x".to_string()]));
    assert_eq!(ok("/p/x", "  code  "), ("code".to_string(), vec!["/p/x".to_string()]));
    assert_eq!(
        ok("/p/x", "kitty nvim {path}"),
        ("kitty".to_string(), vec!["nvim".to_string(), "/p/x".to_string()])
    );
    assert_eq!(
        ok("/p/my dir", "zed"),
        ("zed".to_string(), vec!["/p/my".to_string(), "dir".to_string()])
    );
    assert_eq!(
        editor_command_line("/p/x", "   ").err().unwrap(),
        "Kein Editor konfiguriert (siehe Einstellungen)."
    );
    assert_eq!(editor_command_line("", "{path}").err().unwrap(), "Ungültiger Editor-Befehl");
}

#[test]
fn messages() {
    assert_eq!(unknown_service_message("nginx"), "Unbekannter Dienst: nginx");
    assert_eq!(
        network_ready_message(ContainerEngineKind::Docker),
        "Netzwerk 'taurigon-net' ist bereit (Engine: docker)"
    );
}

#[test]
fn paths() {
    assert_eq!(join_path("/a", "b"), "/a/b");
    assert_eq!(join_path("/a/", "b"), "/a/b");
    assert_eq!(join_path("", "b"), "b");
    assert_eq!(join_path("/a", "/b"), "/b");
    assert_eq!(join_path("/a", ""), "/a/");
    let d = Some("/home/u/.local/share".to_string());
    assert_eq!(data_root_in(&d), "/home/u/.local/share/taurigon/volumes");
    assert_eq!(projects_root_in(&d), "/home/u/.local/share/taurigon/projects");
    assert_eq!(nginx_conf_dir_in(&d), "/home/u/.local/share/taurigon/nginx/conf.d");
    assert_eq!(db_path_in(&d), "/home/u/.local/share/taurigon/taurigon.db");
    assert_eq!(data_root_in(&None), "./taurigon-data");
    assert_eq!(projects_root_in(&None), "./taurigon-data/projects");
    assert_eq!(nginx_conf_dir_in(&None), "./taurigon-data/nginx/conf.d");
    assert_eq!(db_path_in(&None), "./taurigon-data/taurigon.db");
    let root = default_data_root();
    assert!(root.ends_with("/taurigon/volumes") || root == "./taurigon-data");
}
