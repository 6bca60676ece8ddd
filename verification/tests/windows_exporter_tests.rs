use prometheus_agents_setup::os_detector::{Arch, OsType, PlatformDescriptor};
use prometheus_agents_setup::resolver::ArtifactSource;
use prometheus_agents_setup::windows_exporter::{
    plan_windows_exporter_setup, windows_exporter_config_content, WindowsExporterSetup,
    WINDOWS_EXPORTER_PORT, WINDOWS_EXPORTER_VERSION,
};

#[test]
fn test_windows_exporter_creation() {
    let setup = WindowsExporterSetup::new();
    assert_eq!(setup.version, "0.25.1");
    assert_eq!(setup.install_path, "C:\\Program Files\\prometheus");
}

#[test]
fn windows_exporter_test_download_url_generation() {
    let setup = WindowsExporterSetup::new();

    let url_amd64 = setup.download_url("x86_64");
    assert!(url_amd64.contains("windows_exporter-0.25.1-amd64.msi"));
    assert!(url_amd64.starts_with(
        "https://github.com/prometheus-community/windows_exporter/releases/download/"
    ));

    let url_386 = setup.download_url("x86");
    assert!(url_386.contains("windows_exporter-0.25.1-386.msi"));
}

#[test]
fn test_arch_mapping() {
    let setup = WindowsExporterSetup::new();

    // Test x86_64 maps to amd64
    let url = setup.download_url("x86_64");
    assert!(url.contains("amd64"));

    // Test other architectures map to 386
    let url = setup.download_url("x86");
    assert!(url.contains("386"));
}

#[test]
fn windows_exporter_test_version_constant() {
    assert_eq!(WINDOWS_EXPORTER_VERSION, "0.25.1");
}

#[test]
fn windows_exporter_test_port_constant() {
    assert_eq!(WINDOWS_EXPORTER_PORT, 31415);
}

#[test]
fn test_installer_path() {
    let setup = WindowsExporterSetup::new();
    let installer_path = format!("{}\\windows_exporter.msi", setup.install_path);

    assert!(installer_path.contains("windows_exporter.msi"));
    assert!(installer_path.contains(&setup.install_path));
}

#[test]
fn windows_config_lists_collectors() {
    let content = windows_exporter_config_content();
    assert!(content.contains("Windows Exporter Configuration"));
    assert!(content.contains("collectors:"));
    assert!(content.contains("cpu"));
    assert!(content.contains("memory"));
    assert!(content.contains("logical_disk"));
}

#[test]
fn windows_setup_plan_uses_embedded_installer() {
    let platform = PlatformDescriptor { os: OsType::Windows, arch: Arch::X86_64 };
    let installer = vec![9u8, 8, 7];
    let plan = plan_windows_exporter_setup(
        platform,
        "0.25.1",
        "C:\\Program Files\\prometheus",
        Some(installer.clone()),
    )
    .unwrap();
    match &plan.source {
        ArtifactSource::Embedded(b) => assert_eq!(b, &installer),
        other => panic!("expected embedded source, got {:?}", other),
    }
    assert_eq!(
        plan.target.binary_path,
        "C:\\Program Files\\prometheus\\windows_exporter.msi"
    );
    assert_eq!(
        plan.config.as_deref(),
        Some(windows_exporter_config_content().as_str())
    );
    assert!(plan.service_unit.is_none());
}

#[test]
fn windows_setup_plan_fails_on_linux_target() {
    let platform = PlatformDescriptor { os: OsType::Linux, arch: Arch::X86_64 };
    let r = plan_windows_exporter_setup(platform, "0.25.1", "/opt/prometheus", None);
    assert!(r.is_err());
}
