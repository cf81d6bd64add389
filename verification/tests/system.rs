use taurigon::system::inspector::{
    detect_distro, detect_docker_mode, detect_engine, detect_podman_mode,
    detect_selinux_enforcing, engine_version, format_base, inspect_system, map_to_distro,
    podman_info_command, version_command, CommandOutput, ContainerEngineKind, DetectedEngine,
    Distro, EngineMode, SystemInfo, SystemInfoDto, SystemProbe,
};

fn out(success: bool, stdout: &str) -> Option<CommandOutput> {
    Some(CommandOutput { success, stdout: stdout.to_string() })
}

fn probe() -> SystemProbe {
    SystemProbe {
        podman_version: None,
        podman_info: None,
        docker_version: None,
        os_release: None,
        selinux_enforce: None,
    }
}

#[test]
fn probe_commands() {
    assert_eq!(version_command(), vec!["version", "--format", "{{.Client.Version}}"]);
    assert_eq!(podman_info_command(), vec!["info", "--format", "{{.Host.Security.Rootless}}"]);
}

#[test]
fn versions() {
    assert_eq!(engine_version(&out(true, "5.2.3\n")), Some("5.2.3".to_string()));
    assert_eq!(engine_version(&out(true, "  \n")), None);
    assert_eq!(engine_version(&out(false, "5.2.3")), None);
    assert_eq!(engine_version(&None), None);
}

#[test]
fn podman_modes() {
    assert_eq!(detect_podman_mode(&out(true, "true\n")), EngineMode::Rootless);
    assert_eq!(detect_podman_mode(&out(true, " TRUE ")), EngineMode::Rootless);
    assert_eq!(detect_podman_mode(&out(true, "false")), EngineMode::RootEquivalent);
    assert_eq!(detect_podman_mode(&out(false, "false")), EngineMode::Rootless);
    assert_eq!(detect_podman_mode(&None), EngineMode::Rootless);
    assert_eq!(detect_docker_mode(), EngineMode::RootEquivalent);
}

#[test]
fn podman_preferred_over_docker() {
    let mut p = probe();
    p.podman_version = out(true, "5.0.1");
    p.podman_info = out(true, "false");
    p.docker_version = out(true, "27.0");
    let e = detect_engine(&p).unwrap();
    assert_eq!(e.kind, ContainerEngineKind::Podman);
    assert_eq!(e.mode, EngineMode::RootEquivalent);
    assert_eq!(e.version, "5.0.1");
}

#[test]
fn docker_fallback_and_none() {
    let mut p = probe();
    p.podman_version = out(false, "");
    p.docker_version = out(true, "27.0\n");
    let e = detect_engine(&p).unwrap();
    assert_eq!(e.kind, ContainerEngineKind::Docker);
    assert_eq!(e.mode, EngineMode::RootEquivalent);
    assert_eq!(e.version, "27.0");
    assert!(detect_engine(&probe()).is_none());
}

fn distro_name(content: &str) -> String {
    detect_distro(&Some(content.to_string())).to_string()
}

#[test]
fn distributions() {
    assert_eq!(distro_name("NAME=\"Arch Linux\"\nID=arch\n"), "Arch Based");
    assert_eq!(distro_name("NAME=\"CachyOS\"\nID=cachyos\nID_LIKE=arch\n"), "Arch Based - cachyos");
    assert_eq!(distro_name("ID=ubuntu\nID_LIKE=debian\n"), "Debian Based - ubuntu");
    assert_eq!(distro_name("ID=\"fedora\"\r\nVERSION_ID=40\r\n"), "Fedora Based");
    assert_eq!(distro_name("ID=rocky\nID_LIKE=\"rhel centos fedora\"\n"), "Fedora Based - rocky");
    assert_eq!(distro_name("ID=Arch\n"), "Arch Based");
    assert_eq!(distro_name("ID=nixos\n"), "nixos");
    assert_eq!(distro_name("NAME=x\n"), "Unknown");
    assert_eq!(detect_distro(&None).to_string(), "Unknown");
    match detect_distro(&Some("ID=endeavouros\nID_LIKE=arch\n".to_string())) {
        Distro::Arch(Some(id)) => assert_eq!(id, "endeavouros"),
        d => panic!("{d:?}"),
    }
}

#[test]
fn distro_mapping() {
    assert!(matches!(map_to_distro("arch", ""), Distro::Arch(None)));
    assert!(matches!(map_to_distro("centos", "alma"), Distro::Fedora(Some(_))));
    assert!(matches!(map_to_distro("debian", "debian"), Distro::Debian(Some(_))));
    match map_to_distro("gentoo", "gentoo") {
        Distro::Other(id) => assert_eq!(id, "gentoo"),
        d => panic!("{d:?}"),
    }
}

#[test]
fn base_labels() {
    assert_eq!(format_base("Arch Based", Some("ARCH"), "arch"), "Arch Based");
    assert_eq!(format_base("Arch Based", Some("manjaro"), "arch"), "Arch Based - manjaro");
    assert_eq!(format_base("Arch Based", None, "arch"), "Arch Based");
    assert_eq!(Distro::Debian(Some("Debian".into())).to_string(), "Debian Based");
    assert_eq!(Distro::Fedora(None).to_string(), "Fedora Based");
}

#[test]
fn selinux_detection() {
    assert!(detect_selinux_enforcing(&Some("1\n".to_string())));
    assert!(!detect_selinux_enforcing(&Some("0\n".to_string())));
    assert!(!detect_selinux_enforcing(&None));
}

#[test]
fn full_inspection_and_dto() {
    let mut p = probe();
    p.podman_version = out(true, "5.2.3");
    p.podman_info = out(true, "true");
    p.os_release = Some("ID=cachyos\nID_LIKE=arch\n".to_string());
    p.selinux_enforce = Some("1".to_string());
    let info = inspect_system(&p);
    assert!(info.is_ready());
    assert_eq!(info.volume_flag(), ":Z");
    let d = SystemInfoDto::from_info(info);
    assert_eq!(d.engine_kind.as_deref(), Some("podman"));
    assert_eq!(d.engine_mode.as_deref(), Some("rootless"));
    assert_eq!(d.engine_version.as_deref(), Some("5.2.3"));
    assert_eq!(d.distro, "Arch Based - cachyos");
    assert!(d.selinux_enforcing && d.is_ready);
}

#[test]
fn not_ready_system() {
    let info = inspect_system(&probe());
    assert!(!info.is_ready());
    assert_eq!(info.volume_flag(), "");
    let d = SystemInfoDto::from_info(info);
    assert_eq!(d.engine_kind, None);
    assert_eq!(d.engine_mode, None);
    assert_eq!(d.engine_version, None);
    assert_eq!(d.distro, "Unknown");
    assert!(!d.is_ready);
    let docker = SystemInfo {
        engine: Some(DetectedEngine {
            kind: ContainerEngineKind::Docker,
            mode: EngineMode::RootEquivalent,
            version: "27".into(),
        }),
        distro: Distro::Other("x".into()),
        selinux_enforcing: false,
    };
    let d = SystemInfoDto::from_info(docker);
    assert_eq!(d.engine_kind.as_deref(), Some("docker"));
    assert_eq!(d.engine_mode.as_deref(), Some("root-equivalent"));
    assert_eq!(ContainerEngineKind::Podman.to_string(), "podman");
}
