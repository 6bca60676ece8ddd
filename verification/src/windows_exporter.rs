//! Windows-exporter setup data: installer URL generation and the collector
//! configuration text.

use vstd::prelude::*;
use crate::acquire::SetupPlan;
use crate::artifacts::{install_target_in, ArtifactKind};
use crate::errors::AcquisitionError;
use crate::os_detector::PlatformDescriptor;
use crate::resolver::{opt_bytes_view, resolve, resolve_model};
use crate::strutil::str_eq;

verus! {

pub const WINDOWS_EXPORTER_VERSION: &'static str = "0.25.1";

pub const WINDOWS_EXPORTER_PORT: u16 = 31415;

/// The architecture token the Windows-exporter release naming uses: `amd64`
/// for the 64-bit x86 identifier, `386` for everything else.
pub open spec fn windows_arch_suffix_spec(arch: Seq<char>) -> Seq<char> {
    if arch == "x86_64"@ {
        "amd64"@
    } else {
        "386"@
    }
}

/// The installer URL for a Windows-exporter version and an already-mapped
/// architecture token (`amd64` or `386`).
pub open spec fn windows_exporter_url_with_suffix_spec(
    version: Seq<char>,
    suffix: Seq<char>,
) -> Seq<char> {
    "https://github.com/prometheus-community/windows_exporter/releases/download/v"@ + version
        + "/windows_exporter-"@ + version + "-"@ + suffix + ".msi"@
}

/// The installer URL for a Windows-exporter version and architecture
/// identifier.
pub open spec fn windows_exporter_url_spec(version: Seq<char>, arch: Seq<char>) -> Seq<char> {
    windows_exporter_url_with_suffix_spec(version, windows_arch_suffix_spec(arch))
}

/// Builds the installer URL from a version and an already-mapped
/// architecture token.
pub fn windows_exporter_url_with_suffix(version: &str, suffix: &str) -> (r: String)
    ensures
        r@ == windows_exporter_url_with_suffix_spec(version@, suffix@),
{
    let mut s = String::from_str(
        "https://github.com/prometheus-community/windows_exporter/releases/download/v",
    );
    s.append(version);
    s.append("/windows_exporter-");
    s.append(version);
    s.append("-");
    s.append(suffix);
    s.append(".msi");
    s
}

/// Builds the installer URL for a version and architecture identifier.
pub fn windows_exporter_download_url(version: &str, arch: &str) -> (r: String)
    ensures
        r@ == windows_exporter_url_spec(version@, arch@),
{
    let arch_suffix = if str_eq(arch, "x86_64") {
        "amd64"
    } else {
        "386"
    };
    windows_exporter_url_with_suffix(version, arch_suffix)
}

/// The collector configuration text the setup writes next to the
/// installer.
pub open spec fn windows_exporter_config_spec() -> Seq<char> {
    "# Windows Exporter Configuration\n# Collectors to enable\ncollectors:\n  enabled:\n    - cpu\n    - cs\n    - logical_disk\n    - net\n    - os\n    - service\n    - system\n    - textfile\n    - process\n    - memory\n    - thermalzone\n    - tcp\n    - iis\n\n# Collector-specific configuration\ncollector:\n  service:\n    services-where: \"Name='windows_exporter' OR Name='prometheus'\"\n  process:\n    processes-where: \"Name LIKE 'chrome%' OR Name = 'firefox'\"\n"@
}

/// See `windows_exporter_config_spec`.
pub fn windows_exporter_config_content() -> (r: String)
    ensures
        r@ == windows_exporter_config_spec(),
{
    String::from_str(
        "# Windows Exporter Configuration\n# Collectors to enable\ncollectors:\n  enabled:\n    - cpu\n    - cs\n    - logical_disk\n    - net\n    - os\n    - service\n    - system\n    - textfile\n    - process\n    - memory\n    - thermalzone\n    - tcp\n    - iis\n\n# Collector-specific configuration\ncollector:\n  service:\n    services-where: \"Name='windows_exporter' OR Name='prometheus'\"\n  process:\n    processes-where: \"Name LIKE 'chrome%' OR Name = 'firefox'\"\n",
    )
}

/// Per-run Windows-exporter setup state: the version to install and the
/// directory to install under.
pub struct WindowsExporterSetup {
    pub version: String,
    pub install_path: String,
}

impl WindowsExporterSetup {
    /// A setup for the default version under the default install path.
    pub fn new() -> (r: WindowsExporterSetup)
        ensures
            r.version@ == WINDOWS_EXPORTER_VERSION@,
            r.install_path@ == "C:\\Program Files\\prometheus"@,
    {
        WindowsExporterSetup {
            version: String::from_str(WINDOWS_EXPORTER_VERSION),
            install_path: String::from_str("C:\\Program Files\\prometheus"),
        }
    }

    /// The installer URL for this setup's version.
    pub fn download_url(&self, arch: &str) -> (r: String)
        ensures
            r@ == windows_exporter_url_spec(self.version@, arch@),
    {
        windows_exporter_download_url(self.version.as_str(), arch)
    }
}

/// Computes the whole Windows-exporter setup before any I/O happens: the
/// install target under `install_path`, the resolved source (the embedded
/// installer for the default version on Windows, else the computed release
/// URL), and the collector configuration text.  Running the staged
/// installer and starting the service are the caller's job; the installer
/// itself registers the service, so no unit text is planned.
pub fn plan_windows_exporter_setup(
    platform: PlatformDescriptor,
    version: &str,
    install_path: &str,
    embedded: Option<Vec<u8>>,
) -> (r: Result<SetupPlan, AcquisitionError>)
    ensures
        ({
            let model = resolve_model(
                ArtifactKind::WindowsExporterInstaller,
                platform,
                version@,
                None,
                false,
                None,
                opt_bytes_view(embedded),
            );
            match r {
                Ok(plan) => {
                    &&& plan.target.wf(
                        ArtifactKind::WindowsExporterInstaller,
                        platform.os,
                        install_path@,
                    )
                    &&& model == Some(plan.source@)
                    &&& plan.config matches Some(c) && c@ == windows_exporter_config_spec()
                    &&& plan.service_unit is None
                },
                Err(e) => model is None && e matches AcquisitionError::Configuration(_),
            }
        }),
{
    let target = install_target_in(
        ArtifactKind::WindowsExporterInstaller,
        platform.os,
        install_path,
    );
    let source = match resolve(
        ArtifactKind::WindowsExporterInstaller,
        platform,
        version,
        None,
        false,
        None,
        embedded,
    ) {
        Ok(s) => s,
        Err(e) => return Err(e),
    };
    let config = windows_exporter_config_content();
    Ok(SetupPlan { target, source, config: Some(config), service_unit: None })
}

} // verus!
