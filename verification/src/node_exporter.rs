//! Node-exporter setup data: release URL generation and the systemd unit
//! text that references the installed binary.

use vstd::prelude::*;
use crate::acquire::SetupPlan;
use crate::artifacts::{install_target_in, ArtifactKind};
use crate::errors::AcquisitionError;
use crate::os_detector::PlatformDescriptor;
use crate::resolver::{arch_token, arch_token_spec, opt_bytes_view, resolve, resolve_model};

verus! {

pub const NODE_EXPORTER_VERSION: &'static str = "1.7.0";

pub const NODE_EXPORTER_PORT: u16 = 31415;

/// The release-archive URL for a node-exporter version and architecture
/// token.
pub open spec fn node_exporter_url_spec(version: Seq<char>, arch: Seq<char>) -> Seq<char> {
    "https://github.com/prometheus/node_exporter/releases/download/v"@ + version
        + "/node_exporter-"@ + version + ".linux-"@ + arch + ".tar.gz"@
}

/// Builds the release-archive URL for a version and architecture token.
pub fn generate_download_url(version: &str, arch: &str) -> (r: String)
    ensures
        r@ == node_exporter_url_spec(version@, arch@),
{
    let mut s = String::from_str(
        "https://github.com/prometheus/node_exporter/releases/download/v",
    );
    s.append(version);
    s.append("/node_exporter-");
    s.append(version);
    s.append(".linux-");
    s.append(arch);
    s.append(".tar.gz");
    s
}

/// The systemd unit text for the node exporter, parameterized over the
/// install path and the version and architecture tokens that name the
/// extracted directory.
pub open spec fn systemd_service_content_spec(
    install_path: Seq<char>,
    version: Seq<char>,
    arch: Seq<char>,
) -> Seq<char> {
    "[Unit]\nDescription=Prometheus Node Exporter\nAfter=network.target\n\n[Service]\nType=simple\nExecStart="@
        + install_path + "/node_exporter/node_exporter-"@ + version + ".linux-"@ + arch
        + "/node_exporter --web.listen-address=:31415\nRestart=always\nRestartSec=10\n\n[Install]\nWantedBy=multi-user.target\n"@
}

/// Builds the systemd unit text for the node exporter.
pub fn create_systemd_service_content(install_path: &str, version: &str, arch: &str) -> (r:
    String)
    ensures
        r@ == systemd_service_content_spec(install_path@, version@, arch@),
{
    let mut s = String::from_str(
        "[Unit]\nDescription=Prometheus Node Exporter\nAfter=network.target\n\n[Service]\nType=simple\nExecStart=",
    );
    s.append(install_path);
    s.append("/node_exporter/node_exporter-");
    s.append(version);
    s.append(".linux-");
    s.append(arch);
    s.append(
        "/node_exporter --web.listen-address=:31415\nRestart=always\nRestartSec=10\n\n[Install]\nWantedBy=multi-user.target\n",
    );
    s
}

/// Per-run node-exporter setup state: the version to install and the
/// directory to install under.
pub struct NodeExporterSetup {
    pub version: String,
    pub install_path: String,
}

impl NodeExporterSetup {
    /// A setup for the default version under the default install path.
    pub fn new() -> (r: NodeExporterSetup)
        ensures
            r.version@ == NODE_EXPORTER_VERSION@,
            r.install_path@ == "/opt/prometheus"@,
    {
        NodeExporterSetup {
            version: String::from_str(NODE_EXPORTER_VERSION),
            install_path: String::from_str("/opt/prometheus"),
        }
    }

    /// The release-archive URL for this setup's version.
    pub fn download_url(&self, arch: &str) -> (r: String)
        ensures
            r@ == node_exporter_url_spec(self.version@, arch@),
    {
        generate_download_url(self.version.as_str(), arch)
    }
}

/// Computes the whole node-exporter setup before any I/O happens: the
/// install target under `install_path`, the resolved source (the embedded
/// archive for the default version on Linux, else the computed release
/// URL), and the systemd unit text.  The caller performs the download, the
/// extraction writes and the service registration.
pub fn plan_node_exporter_setup(
    platform: PlatformDescriptor,
    version: &str,
    install_path: &str,
    embedded: Option<Vec<u8>>,
) -> (r: Result<SetupPlan, AcquisitionError>)
    ensures
        ({
            let model = resolve_model(
                ArtifactKind::NodeExporterArchive,
                platform,
                version@,
                None,
                false,
                None,
                opt_bytes_view(embedded),
            );
            match r {
                Ok(plan) => {
                    &&& plan.target.wf(
                        ArtifactKind::NodeExporterArchive,
                        platform.os,
                        install_path@,
                    )
                    &&& model == Some(plan.source@)
                    &&& plan.config is None
                    &&& plan.service_unit matches Some(s) && s@ == systemd_service_content_spec(
                        install_path@,
                        version@,
                        arch_token_spec(platform.arch),
                    )
                },
                Err(e) => model is None && e matches AcquisitionError::Configuration(_),
            }
        }),
{
    let target = install_target_in(
        ArtifactKind::NodeExporterArchive,
        platform.os,
        install_path,
    );
    let source = match resolve(
        ArtifactKind::NodeExporterArchive,
        platform,
        version,
        None,
        false,
        None,
        embedded,
    ) {
        Ok(s) => s,
        Err(e) => return Err(e),
    };
    let unit = create_systemd_service_content(install_path, version, arch_token(platform.arch));
    Ok(SetupPlan { target, source, config: None, service_unit: Some(unit) })
}

} // verus!
