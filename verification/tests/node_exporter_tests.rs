use prometheus_agents_setup::node_exporter::{
    create_systemd_service_content, generate_download_url, plan_node_exporter_setup,
    NodeExporterSetup, NODE_EXPORTER_PORT, NODE_EXPORTER_VERSION,
};
use prometheus_agents_setup::os_detector::{Arch, OsType, PlatformDescriptor};
use prometheus_agents_setup::resolver::ArtifactSource;

#[test]
fn test_node_exporter_creation() {
    let setup = NodeExporterSetup::new();
    assert_eq!(setup.version, "1.7.0");
    assert_eq!(setup.install_path, "/opt/prometheus");
}

#[test]
fn node_exporter_test_download_url_generation() {
    let setup = NodeExporterSetup::new();

    let url_amd64 = setup.download_url("amd64");
    assert!(url_amd64.contains("node_exporter-1.7.0.linux-amd64.tar.gz"));
    assert!(
        url_amd64.starts_with("https://github.com/prometheus/node_exporter/releases/download/")
    );

    let url_386 = setup.download_url("386");
    assert!(url_386.contains("node_exporter-1.7.0.linux-386.tar.gz"));
}

#[test]
fn test_generate_download_url_function() {
    let url = generate_download_url("1.7.0", "amd64");
    assert!(url.contains("node_exporter-1.7.0.linux-amd64.tar.gz"));
    assert!(url.starts_with("https://github.com/prometheus/node_exporter/releases/download/"));
}

#[test]
fn node_exporter_test_version_constant() {
    assert_eq!(NODE_EXPORTER_VERSION, "1.7.0");
}

#[test]
fn node_exporter_test_port_constant() {
    assert_eq!(NODE_EXPORTER_PORT, 31415);
}

#[test]
fn test_systemd_service_content_function() {
    let content = create_systemd_service_content("/opt/prometheus", "1.7.0", "amd64");

    assert!(content.contains("Description=Prometheus Node Exporter"));
    assert!(content.contains("1.7.0"));
    assert!(content.contains("WantedBy=multi-user.target"));
    assert!(content.contains("/opt/prometheus"));
}

#[test]
fn node_exporter_test_systemd_service_content() {
    let setup = NodeExporterSetup::new();
    let service_content =
        create_systemd_service_content(setup.install_path.as_str(), setup.version.as_str(), "amd64");

    assert!(service_content.contains("Description=Prometheus Node Exporter"));
    assert!(service_content.contains(setup.version.as_str()));
    assert!(service_content.contains("WantedBy=multi-user.target"));
}

#[test]
fn node_setup_plan_uses_embedded_archive_on_linux() {
    let platform = PlatformDescriptor { os: OsType::Linux, arch: Arch::X86_64 };
    let archive = vec![1u8, 2, 3];
    let plan =
        plan_node_exporter_setup(platform, "1.7.0", "/opt/prometheus", Some(archive.clone()))
            .unwrap();
    match &plan.source {
        ArtifactSource::Embedded(b) => assert_eq!(b, &archive),
        other => panic!("expected embedded source, got {:?}", other),
    }
    assert_eq!(plan.target.install_root, "/opt/prometheus");
    assert_eq!(plan.target.binary_path, "/opt/prometheus/node_exporter");
    assert_eq!(plan.target.service_port, 31415);
    assert!(plan.config.is_none());
    let unit = plan.service_unit.unwrap();
    assert!(unit.contains("--web.listen-address=:31415"));
}

#[test]
fn node_setup_plan_other_version_uses_default_url() {
    let platform = PlatformDescriptor { os: OsType::Linux, arch: Arch::X86_64 };
    let plan =
        plan_node_exporter_setup(platform, "1.8.1", "/opt/prometheus", Some(vec![1u8])).unwrap();
    match &plan.source {
        ArtifactSource::DefaultUrl(u) => {
            assert!(u.contains("node_exporter-1.8.1.linux-amd64.tar.gz"))
        }
        other => panic!("expected default URL source, got {:?}", other),
    }
}

#[test]
fn node_setup_plan_fails_on_windows_target() {
    let platform = PlatformDescriptor { os: OsType::Windows, arch: Arch::X86_64 };
    let r = plan_node_exporter_setup(platform, "1.7.0", "C:\\x", None);
    assert!(r.is_err());
}
