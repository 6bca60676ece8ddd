//! Artifact identity and metadata: the closed set of artifacts the installer
//! provisions, their archive formats, service ports, default versions, and
//! the install locations derived from them.

use vstd::prelude::*;
use crate::os_detector::OsType;

verus! {

/// The artifacts the installer can provision.
#[derive(Debug, Clone, Copy, PartialEq, Eq, Structural)]
pub enum ArtifactKind {
    ProcessAgent,
    NodeExporterArchive,
    WindowsExporterInstaller,
}

/// How an artifact's payload is packaged.
#[derive(Debug, Clone, Copy, PartialEq, Eq, Structural)]
pub enum ArchiveFormat {
    NoArchive,
    TarGz,
    Zip,
    Msi,
}

impl ArtifactKind {
    /// The packaging of this artifact's payload.
    pub open spec fn spec_archive_format(self) -> ArchiveFormat {
        match self {
            ArtifactKind::ProcessAgent => ArchiveFormat::NoArchive,
            ArtifactKind::NodeExporterArchive => ArchiveFormat::TarGz,
            ArtifactKind::WindowsExporterInstaller => ArchiveFormat::Msi,
        }
    }

    /// The packaging of this artifact's payload.
    pub fn archive_format(&self) -> (r: ArchiveFormat)
        ensures
            r == self.spec_archive_format(),
    {
        match self {
            ArtifactKind::ProcessAgent => ArchiveFormat::NoArchive,
            ArtifactKind::NodeExporterArchive => ArchiveFormat::TarGz,
            ArtifactKind::WindowsExporterInstaller => ArchiveFormat::Msi,
        }
    }

    /// The port the installed service listens on.
    pub open spec fn spec_service_port(self) -> u16 {
        match self {
            ArtifactKind::ProcessAgent => 31416,
            ArtifactKind::NodeExporterArchive => 31415,
            ArtifactKind::WindowsExporterInstaller => 31415,
        }
    }

    /// The port the installed service listens on.
    pub fn service_port(&self) -> (r: u16)
        ensures
            r == self.spec_service_port(),
    {
        match self {
            ArtifactKind::ProcessAgent => 31416,
            ArtifactKind::NodeExporterArchive => 31415,
            ArtifactKind::WindowsExporterInstaller => 31415,
        }
    }

    /// The version whose payload can be embedded at build time.
    pub open spec fn spec_default_version(self) -> Seq<char> {
        match self {
            ArtifactKind::ProcessAgent => "latest"@,
            ArtifactKind::NodeExporterArchive => "1.7.0"@,
            ArtifactKind::WindowsExporterInstaller => "0.25.1"@,
        }
    }

    /// The version whose payload can be embedded at build time.
    pub fn default_version(&self) -> (r: &'static str)
        ensures
            r@ == self.spec_default_version(),
    {
        match self {
            ArtifactKind::ProcessAgent => "latest",
            ArtifactKind::NodeExporterArchive => "1.7.0",
            ArtifactKind::WindowsExporterInstaller => "0.25.1",
        }
    }
}

/// The path separator the target operating system uses.
pub open spec fn sep_spec(os: OsType) -> Seq<char> {
    if os == OsType::Windows {
        "\\"@
    } else {
        "/"@
    }
}

/// The path separator the target operating system uses.
pub fn sep_str(os: OsType) -> (r: &'static str)
    ensures
        r@ == sep_spec(os),
{
    match os {
        OsType::Windows => "\\",
        _ => "/",
    }
}

/// The default directory an artifact is installed under.
pub open spec fn install_root_spec(kind: ArtifactKind, os: OsType) -> Seq<char> {
    match kind {
        ArtifactKind::ProcessAgent => if os == OsType::Windows {
            "C:\\ProgramData\\prometheus\\process-cpu-agent"@
        } else {
            "/opt/prometheus/process-cpu-agent"@
        },
        ArtifactKind::NodeExporterArchive => "/opt/prometheus"@,
        ArtifactKind::WindowsExporterInstaller => "C:\\Program Files\\prometheus"@,
    }
}

/// The default directory an artifact is installed under.
pub fn default_install_root(kind: ArtifactKind, os: OsType) -> (r: String)
    ensures
        r@ == install_root_spec(kind, os),
{
    match kind {
        ArtifactKind::ProcessAgent => match os {
            OsType::Windows => String::from_str("C:\\ProgramData\\prometheus\\process-cpu-agent"),
            _ => String::from_str("/opt/prometheus/process-cpu-agent"),
        },
        ArtifactKind::NodeExporterArchive => String::from_str("/opt/prometheus"),
        ArtifactKind::WindowsExporterInstaller => String::from_str("C:\\Program Files\\prometheus"),
    }
}

/// The file or directory under the install root that the payload lands at:
/// the agent binary, the archive extraction directory, or the staged
/// installer.
pub open spec fn payload_name_spec(kind: ArtifactKind, os: OsType) -> Seq<char> {
    match kind {
        ArtifactKind::ProcessAgent => if os == OsType::Windows {
            "process-cpu-agent.exe"@
        } else {
            "process-cpu-agent"@
        },
        ArtifactKind::NodeExporterArchive => "node_exporter"@,
        ArtifactKind::WindowsExporterInstaller => "windows_exporter.msi"@,
    }
}

/// See `payload_name_spec`.
pub fn payload_name(kind: ArtifactKind, os: OsType) -> (r: &'static str)
    ensures
        r@ == payload_name_spec(kind, os),
{
    match kind {
        ArtifactKind::ProcessAgent => match os {
            OsType::Windows => "process-cpu-agent.exe",
            _ => "process-cpu-agent",
        },
        ArtifactKind::NodeExporterArchive => "node_exporter",
        ArtifactKind::WindowsExporterInstaller => "windows_exporter.msi",
    }
}

/// The configuration file an artifact's setup writes, if any, as a name
/// under the install root.
pub open spec fn config_name_spec(kind: ArtifactKind) -> Option<Seq<char>> {
    match kind {
        ArtifactKind::ProcessAgent => Some("config.toml"@),
        ArtifactKind::NodeExporterArchive => None,
        ArtifactKind::WindowsExporterInstaller => Some("windows_exporter.yml"@),
    }
}

/// Where an artifact is installed: root directory, payload path, optional
/// configuration file path, and the service port.
pub struct InstallTarget {
    pub install_root: String,
    pub binary_path: String,
    pub config_path: Option<String>,
    pub service_port: u16,
}

impl InstallTarget {
    /// The fields are the deterministic join of root, separator and names
    /// for the kind and operating system.
    pub open spec fn wf(self, kind: ArtifactKind, os: OsType, root: Seq<char>) -> bool {
        &&& self.install_root@ == root
        &&& self.binary_path@ == root + sep_spec(os) + payload_name_spec(kind, os)
        &&& match config_name_spec(kind) {
            Some(name) => self.config_path matches Some(c) && c@ == root + sep_spec(os) + name,
            None => self.config_path is None,
        }
        &&& self.service_port == kind.spec_service_port()
    }
}

/// Derives the install target for `kind` under an explicit root directory.
pub fn install_target_in(kind: ArtifactKind, os: OsType, root: &str) -> (r: InstallTarget)
    ensures
        r.wf(kind, os, root@),
{
    let sep = sep_str(os);
    let mut binary_path = String::from_str(root);
    binary_path.append(sep);
    binary_path.append(payload_name(kind, os));
    let config_path = match kind {
        ArtifactKind::ProcessAgent => {
            let mut c = String::from_str(root);
            c.append(sep);
            c.append("config.toml");
            Some(c)
        },
        ArtifactKind::NodeExporterArchive => None,
        ArtifactKind::WindowsExporterInstaller => {
            let mut c = String::from_str(root);
            c.append(sep);
            c.append("windows_exporter.yml");
            Some(c)
        },
    };
    InstallTarget {
        install_root: String::from_str(root),
        binary_path,
        config_path,
        service_port: kind.service_port(),
    }
}

/// Derives the install target for `kind` under its default root.
pub fn install_target(kind: ArtifactKind, os: OsType) -> (r: InstallTarget)
    ensures
        r.wf(kind, os, install_root_spec(kind, os)),
{
    let root = default_install_root(kind, os);
    install_target_in(kind, os, root.as_str())
}

} // verus!
