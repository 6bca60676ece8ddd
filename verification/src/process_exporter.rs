//! Process-CPU-agent setup data: where its binary comes from, the install
//! paths, the agent configuration text, and the systemd unit text.

use vstd::prelude::*;
use crate::acquire::SetupPlan;
use crate::artifacts::{default_install_root, install_root_spec, install_target_in, ArtifactKind};
use crate::errors::AcquisitionError;
use crate::os_detector::{OsType, PlatformDescriptor};
use crate::resolver::{opt_bytes_view, opt_str_view, resolve, resolve_model};
use crate::strutil::{dec_of, is_blank, is_blank_seq, u64_to_dec_string};

verus! {

pub const PROCESS_CPU_AGENT_PORT: u16 = 31416;

/// Where the agent binary comes from: the payload embedded at build time,
/// or an operator-supplied URL.
#[derive(Debug, Clone, PartialEq)]
pub enum AgentSource {
    Embedded,
    Remote(String),
}

/// Per-run process-CPU-agent setup state.
pub struct ProcessCpuAgentSetup {
    pub install_path: String,
    pub source: AgentSource,
}

impl ProcessCpuAgentSetup {
    /// A setup under the default install path.  A supplied URL that is not
    /// blank selects a remote download; otherwise the embedded payload is
    /// used.
    pub fn new(download_url: Option<String>) -> (r: ProcessCpuAgentSetup)
        ensures
            r.install_path@ == "/opt/prometheus/process-cpu-agent"@,
            match download_url {
                Some(u) => if is_blank_seq(u@) {
                    r.source is Embedded
                } else {
                    r.source matches AgentSource::Remote(s) && s@ == u@
                },
                None => r.source is Embedded,
            },
    {
        let source = match download_url {
            Some(url) => if is_blank(url.as_str()) {
                AgentSource::Embedded
            } else {
                AgentSource::Remote(url)
            },
            None => AgentSource::Embedded,
        };
        ProcessCpuAgentSetup {
            install_path: String::from_str("/opt/prometheus/process-cpu-agent"),
            source,
        }
    }
}

/// The agent binary's path under an install directory (Unix layout).
pub fn get_binary_path(install_path: &str) -> (r: String)
    ensures
        r@ == install_path@ + "/process-cpu-agent"@,
{
    let mut s = String::from_str(install_path);
    s.append("/process-cpu-agent");
    s
}

/// The agent configuration file's path under an install directory (Unix
/// layout).
pub fn get_config_path(install_path: &str) -> (r: String)
    ensures
        r@ == install_path@ + "/config.toml"@,
{
    let mut s = String::from_str(install_path);
    s.append("/config.toml");
    s
}

/// The systemd unit text for the process CPU agent, parameterized over the
/// install path and listening port.
pub open spec fn linux_service_content_spec(install_path: Seq<char>, port: u16) -> Seq<char> {
    "[Unit]\nDescription=Process CPU Agent for Prometheus\nAfter=network.target\n\n[Service]\nType=simple\nExecStart="@
        + install_path + "/process-cpu-agent --port "@ + dec_of(port as nat)
        + "\nRestart=always\nRestartSec=10\nUser=prometheus\nGroup=prometheus\n\n[Install]\nWantedBy=multi-user.target"@
}

/// Builds the systemd unit text for the process CPU agent.
pub fn create_linux_service_content(install_path: &str, port: u16) -> (r: String)
    ensures
        r@ == linux_service_content_spec(install_path@, port),
{
    let mut s = String::from_str(
        "[Unit]\nDescription=Process CPU Agent for Prometheus\nAfter=network.target\n\n[Service]\nType=simple\nExecStart=",
    );
    s.append(install_path);
    s.append("/process-cpu-agent --port ");
    let port_text = u64_to_dec_string(port as u64);
    s.append(port_text.as_str());
    s.append(
        "\nRestart=always\nRestartSec=10\nUser=prometheus\nGroup=prometheus\n\n[Install]\nWantedBy=multi-user.target",
    );
    s
}

/// The agent configuration text: listening port, collection interval, and
/// the cap on tracked processes.
pub open spec fn process_agent_config_spec() -> Seq<char> {
    "# Process CPU Agent configuration\n\n[server]\nport = 31416\n\n[process]\n# Collection interval in seconds\ninterval = 15\n# Maximum number of processes to track\nmax_processes = 100\n"@
}

/// See `process_agent_config_spec`.
pub fn process_agent_config_content() -> (r: String)
    ensures
        r@ == process_agent_config_spec(),
{
    String::from_str(
        "# Process CPU Agent configuration\n\n[server]\nport = 31416\n\n[process]\n# Collection interval in seconds\ninterval = 15\n# Maximum number of processes to track\nmax_processes = 100\n",
    )
}

/// A supplied URL override counts only when it is not blank.
pub open spec fn effective_url_spec(download_url: Option<Seq<char>>) -> Option<Seq<char>> {
    match download_url {
        Some(u) => if is_blank_seq(u) {
            None
        } else {
            Some(u)
        },
        None => None,
    }
}

/// Computes the whole process-CPU-agent setup before any I/O happens: the
/// install target (under the supplied path, or the platform default), the
/// resolved source for the default (`latest`) version, the configuration
/// text, and — outside Windows, where a scheduled task replaces it — the
/// systemd unit text.  The caller performs the writes, the download and
/// the service registration.
pub fn setup_process_cpu_agent(
    platform: PlatformDescriptor,
    download_url: Option<String>,
    install_path: Option<String>,
    embedded: Option<Vec<u8>>,
) -> (r: Result<SetupPlan, AcquisitionError>)
    ensures
        ({
            let root = match install_path {
                Some(p) => p@,
                None => install_root_spec(ArtifactKind::ProcessAgent, platform.os),
            };
            let url = effective_url_spec(opt_str_view(download_url));
            let model = resolve_model(
                ArtifactKind::ProcessAgent,
                platform,
                "latest"@,
                None,
                false,
                url,
                opt_bytes_view(embedded),
            );
            match r {
                Ok(plan) => {
                    &&& plan.target.wf(ArtifactKind::ProcessAgent, platform.os, root)
                    &&& model == Some(plan.source@)
                    &&& plan.config matches Some(c) && c@ == process_agent_config_spec()
                    &&& if platform.os == OsType::Windows {
                        plan.service_unit is None
                    } else {
                        plan.service_unit matches Some(s) && s@ == linux_service_content_spec(
                            root,
                            PROCESS_CPU_AGENT_PORT,
                        )
                    }
                },
                Err(e) => model is None && e matches AcquisitionError::Configuration(_),
            }
        }),
{
    let url = match download_url {
        Some(u) => if is_blank(u.as_str()) {
            None
        } else {
            Some(u)
        },
        None => None,
    };
    let root = match install_path {
        Some(p) => p,
        None => default_install_root(ArtifactKind::ProcessAgent, platform.os),
    };
    let target = install_target_in(ArtifactKind::ProcessAgent, platform.os, root.as_str());
    let source = match resolve(
        ArtifactKind::ProcessAgent,
        platform,
        "latest",
        None,
        false,
        url,
        embedded,
    ) {
        Ok(s) => s,
        Err(e) => return Err(e),
    };
    let service_unit = if matches!(platform.os, OsType::Windows) {
        None
    } else {
        Some(create_linux_service_content(root.as_str(), PROCESS_CPU_AGENT_PORT))
    };
    let config = process_agent_config_content();
    Ok(SetupPlan { target, source, config: Some(config), service_unit })
}

} // verus!
