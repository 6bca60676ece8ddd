use prometheus_agents_setup::acquire::plan_payload_install;
use prometheus_agents_setup::artifacts::{default_install_root, ArtifactKind};
use prometheus_agents_setup::os_detector::{Arch, OsType, PlatformDescriptor};
use prometheus_agents_setup::process_exporter::{
    create_linux_service_content, get_binary_path, get_config_path,
    process_agent_config_content, setup_process_cpu_agent, ProcessCpuAgentSetup,
    AgentSource, PROCESS_CPU_AGENT_PORT,
};
use prometheus_agents_setup::resolver::ArtifactSource;

#[test]
fn test_get_binary_path() {
    let install_path = "/opt/prometheus";
    let binary_path = get_binary_path(install_path);

    assert_eq!(binary_path, "/opt/prometheus/process-cpu-agent");
}

#[test]
fn test_get_config_path() {
    let install_path = "/opt/prometheus";
    let config_path = get_config_path(install_path);

    assert!(config_path.contains("config.toml"));
}

#[test]
fn test_create_linux_service_content() {
    let content = create_linux_service_content("/opt/prometheus", 31416);

    assert!(content.contains("Description=Process CPU Agent for Prometheus"));
    assert!(content.contains("/opt/prometheus"));
    assert!(content.contains("--port 31416"));
    assert!(content.contains("WantedBy=multi-user.target"));
}

#[test]
fn process_exporter_test_port_constant() {
    assert_eq!(PROCESS_CPU_AGENT_PORT, 31416);
}

#[test]
fn process_exporter_test_process_cpu_agent_setup_creation() {
    let setup = ProcessCpuAgentSetup::new(None);
    assert_eq!(setup.source, AgentSource::Embedded);
    assert!(!setup.install_path.is_empty());
}

#[test]
fn agent_source_embedded_for_blank_url() {
    let setup = ProcessCpuAgentSetup::new(Some("   \t".to_string()));
    assert_eq!(setup.source, AgentSource::Embedded);
}

#[test]
fn process_exporter_test_custom_download_url() {
    let custom_url = "https://example.com/custom-agent.exe".to_string();
    let setup = ProcessCpuAgentSetup::new(Some(custom_url.clone()));
    assert_eq!(setup.source, AgentSource::Remote(custom_url));
}

#[test]
fn test_get_default_install_path() {
    let path = default_install_root(ArtifactKind::ProcessAgent, OsType::Linux);
    assert!(path.starts_with("/opt/"));
}

#[test]
fn agent_config_names_port_and_sections() {
    let content = process_agent_config_content();
    assert!(content.contains("[server]"));
    assert!(content.contains("port = 31416"));
    assert!(content.contains("[process]"));
}

#[test]
fn setup_plan_respects_install_path_override() {
    let platform = PlatformDescriptor { os: OsType::Linux, arch: Arch::X86_64 };
    let plan = setup_process_cpu_agent(
        platform,
        None,
        Some("/srv/agents".to_string()),
        Some(vec![1u8, 2]),
    )
    .unwrap();
    assert_eq!(plan.target.install_root, "/srv/agents");
    assert_eq!(plan.target.binary_path, "/srv/agents/process-cpu-agent");
    assert_eq!(plan.target.config_path.as_deref(), Some("/srv/agents/config.toml"));
}

#[test]
fn setup_plan_prefers_custom_url_over_default() {
    let platform = PlatformDescriptor { os: OsType::Linux, arch: Arch::X86_64 };
    // No embedded payload in this build: the URL override decides.
    let plan = setup_process_cpu_agent(
        platform,
        Some("https://example.com/agent".to_string()),
        None,
        None,
    )
    .unwrap();
    match &plan.source {
        ArtifactSource::RemoteUrl(u) => assert_eq!(u, "https://example.com/agent"),
        other => panic!("expected remote URL source, got {:?}", other),
    }
}

#[test]
fn process_agent_end_to_end_linux_plan() {
    // Kind = process agent, platform = Linux/x86-64, no overrides, default
    // version: the embedded bytes are planned verbatim to the agent binary
    // path with the execute permission, and the config text names the port.
    let platform = PlatformDescriptor { os: OsType::Linux, arch: Arch::X86_64 };
    let payload = vec![0x7fu8, b'E', b'L', b'F', 0, 1, 2];
    let plan = setup_process_cpu_agent(platform, None, None, Some(payload.clone())).unwrap();

    match &plan.source {
        ArtifactSource::Embedded(b) => assert_eq!(b, &payload),
        other => panic!("expected embedded source, got {:?}", other),
    }
    assert_eq!(plan.target.install_root, "/opt/prometheus/process-cpu-agent");
    assert_eq!(plan.target.service_port, 31416);

    let install = plan_payload_install(
        ArtifactKind::ProcessAgent,
        OsType::Linux,
        &plan.target,
        payload.clone(),
    )
    .unwrap();
    assert_eq!(install.dirs.len(), 1);
    assert_eq!(install.dirs[0], "/opt/prometheus/process-cpu-agent");
    assert_eq!(install.files.len(), 1);
    assert_eq!(
        install.files[0].path,
        "/opt/prometheus/process-cpu-agent/process-cpu-agent"
    );
    assert_eq!(install.files[0].bytes, payload);
    assert!(install.files[0].executable);

    let config = plan.config.unwrap();
    assert!(config.contains("port = 31416"));
    assert!(config.contains("[server]"));
    assert!(config.contains("[process]"));
    let unit = plan.service_unit.unwrap();
    assert!(unit.contains("--port 31416"));
    assert!(unit.contains("Restart=always"));
}
