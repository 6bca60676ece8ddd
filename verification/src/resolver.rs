//! Artifact source resolution: given an artifact's identity, the platform,
//! the requested version, and the operator's overrides, decide where its
//! bytes come from.  Priority order, first match wins: an existing override
//! file, then the embedded payload (only for the compiled-in default
//! version on an applicable platform), then an override URL, then the
//! computed default release URL.

use vstd::prelude::*;
use crate::artifacts::ArtifactKind;
use crate::errors::AcquisitionError;
use crate::node_exporter::{generate_download_url, node_exporter_url_spec};
use crate::os_detector::{Arch, OsType, PlatformDescriptor};
use crate::strutil::{contains_seq, lemma_contains_at, str_eq};
use crate::windows_exporter::{
    windows_exporter_url_with_suffix, windows_exporter_url_with_suffix_spec,
};

verus! {

/// The architecture token used in release names: `amd64`, `386`, `arm64`.
/// Unrecognized architectures are treated as 64-bit capable and map to
/// `amd64`.
pub open spec fn arch_token_spec(a: Arch) -> Seq<char> {
    match a {
        Arch::X86_64 => "amd64"@,
        Arch::X86 => "386"@,
        Arch::Aarch64 => "arm64"@,
        Arch::Other => "amd64"@,
    }
}

/// See `arch_token_spec`.
pub fn arch_token(a: Arch) -> (r: &'static str)
    ensures
        r@ == arch_token_spec(a),
{
    match a {
        Arch::X86_64 => "amd64",
        Arch::X86 => "386",
        Arch::Aarch64 => "arm64",
        Arch::Other => "amd64",
    }
}

/// The Windows-exporter release naming only distinguishes `amd64` from
/// `386`.
pub open spec fn windows_installer_arch_token_spec(a: Arch) -> Seq<char> {
    if a == Arch::X86_64 {
        "amd64"@
    } else {
        "386"@
    }
}

/// See `windows_installer_arch_token_spec`.
pub fn windows_installer_arch_token(a: Arch) -> (r: &'static str)
    ensures
        r@ == windows_installer_arch_token_spec(a),
{
    match a {
        Arch::X86_64 => "amd64",
        _ => "386",
    }
}

/// The operating-system token used in release names.
pub open spec fn os_token_spec(os: OsType) -> Seq<char> {
    match os {
        OsType::Linux => "linux"@,
        OsType::Windows => "windows"@,
        OsType::MacOs => "darwin"@,
        OsType::Unknown => "unknown"@,
    }
}

/// See `os_token_spec`.
pub fn os_token(os: OsType) -> (r: &'static str)
    ensures
        r@ == os_token_spec(os),
{
    match os {
        OsType::Linux => "linux",
        OsType::Windows => "windows",
        OsType::MacOs => "darwin",
        OsType::Unknown => "unknown",
    }
}

/// The process-CPU-agent release URL for an operating-system token, an
/// architecture token, and a file-name suffix (`.exe` on Windows, empty
/// elsewhere).  The agent is published under a rolling `latest` release, so
/// no version is substituted.
pub open spec fn agent_url_spec(
    os_tok: Seq<char>,
    arch_tok: Seq<char>,
    suffix: Seq<char>,
) -> Seq<char> {
    "https://github.com/your-org/process-cpu-agent/releases/latest/download/process-cpu-agent-"@
        + os_tok + "-"@ + arch_tok + suffix
}

fn agent_url(os_tok: &str, arch_tok: &str, suffix: &str) -> (r: String)
    ensures
        r@ == agent_url_spec(os_tok@, arch_tok@, suffix@),
{
    let mut s = String::from_str(
        "https://github.com/your-org/process-cpu-agent/releases/latest/download/process-cpu-agent-",
    );
    s.append(os_tok);
    s.append("-");
    s.append(arch_tok);
    s.append(suffix);
    s
}

/// The computed default URL for `kind` on platform `p`, or `None` when the
/// kind has no release for the target operating system: the node-exporter
/// archive is published for the Linux naming the installer also uses on
/// macOS, the Windows-exporter installer only for Windows, and the process
/// agent for Linux, Windows and macOS.
pub open spec fn default_url_model(
    kind: ArtifactKind,
    p: PlatformDescriptor,
    version: Seq<char>,
) -> Option<Seq<char>> {
    match kind {
        ArtifactKind::NodeExporterArchive => if p.os == OsType::Linux || p.os == OsType::MacOs {
            Some(node_exporter_url_spec(version, arch_token_spec(p.arch)))
        } else {
            None
        },
        ArtifactKind::WindowsExporterInstaller => if p.os == OsType::Windows {
            Some(
                windows_exporter_url_with_suffix_spec(
                    version,
                    windows_installer_arch_token_spec(p.arch),
                ),
            )
        } else {
            None
        },
        ArtifactKind::ProcessAgent => match p.os {
            OsType::Linux => Some(
                agent_url_spec("linux"@, arch_token_spec(p.arch), ""@),
            ),
            OsType::Windows => Some(
                agent_url_spec("windows"@, arch_token_spec(p.arch), ".exe"@),
            ),
            OsType::MacOs => Some(
                agent_url_spec("darwin"@, arch_token_spec(p.arch), ""@),
            ),
            OsType::Unknown => None,
        },
    }
}

/// Computes the default release URL for `kind`, `p` and `version`.
/// Returns `Ok` exactly when `default_url_model` is defined, and a
/// `Configuration` error otherwise.
pub fn default_url(kind: ArtifactKind, p: PlatformDescriptor, version: &str) -> (r: Result<
    String,
    AcquisitionError,
>)
    ensures
        match r {
            Ok(u) => default_url_model(kind, p, version@) == Some(u@),
            Err(e) => default_url_model(kind, p, version@) is None && (e
                matches AcquisitionError::Configuration(m) && m@
                == "no default URL for this artifact on the target operating system"@),
        },
{
    match kind {
        ArtifactKind::NodeExporterArchive => match p.os {
            OsType::Linux | OsType::MacOs => Ok(
                generate_download_url(version, arch_token(p.arch)),
            ),
            _ => Err(
                AcquisitionError::Configuration(
                    String::from_str(
                        "no default URL for this artifact on the target operating system",
                    ),
                ),
            ),
        },
        ArtifactKind::WindowsExporterInstaller => match p.os {
            OsType::Windows => Ok(
                windows_exporter_url_with_suffix(version, windows_installer_arch_token(p.arch)),
            ),
            _ => Err(
                AcquisitionError::Configuration(
                    String::from_str(
                        "no default URL for this artifact on the target operating system",
                    ),
                ),
            ),
        },
        ArtifactKind::ProcessAgent => match p.os {
            OsType::Linux => Ok(agent_url("linux", arch_token(p.arch), "")),
            OsType::Windows => Ok(agent_url("windows", arch_token(p.arch), ".exe")),
            OsType::MacOs => Ok(agent_url("darwin", arch_token(p.arch), "")),
            OsType::Unknown => Err(
                AcquisitionError::Configuration(
                    String::from_str(
                        "no default URL for this artifact on the target operating system",
                    ),
                ),
            ),
        },
    }
}

/// Whether an embedded payload for `kind` applies to platform `p`: the
/// agent payload is bundled for every target, the node-exporter archive
/// only when targeting Linux, the Windows installer only when targeting
/// Windows.
pub open spec fn embedded_applicable_spec(kind: ArtifactKind, p: PlatformDescriptor) -> bool {
    match kind {
        ArtifactKind::ProcessAgent => true,
        ArtifactKind::NodeExporterArchive => p.os == OsType::Linux,
        ArtifactKind::WindowsExporterInstaller => p.os == OsType::Windows,
    }
}

/// See `embedded_applicable_spec`.
pub fn embedded_applicable(kind: ArtifactKind, p: &PlatformDescriptor) -> (r: bool)
    ensures
        r == embedded_applicable_spec(kind, *p),
{
    match kind {
        ArtifactKind::ProcessAgent => true,
        ArtifactKind::NodeExporterArchive => matches!(p.os, OsType::Linux),
        ArtifactKind::WindowsExporterInstaller => matches!(p.os, OsType::Windows),
    }
}

/// Where an artifact's bytes come from.  Exactly one variant is chosen per
/// acquisition.
#[derive(Debug, Clone, PartialEq)]
pub enum ArtifactSource {
    /// Payload bundled at build time for the compiled-in default version.
    Embedded(Vec<u8>),
    /// Operator-supplied override file on disk.
    LocalFile(String),
    /// Operator-supplied override URL.
    RemoteUrl(String),
    /// URL computed from the kind, platform and version.
    DefaultUrl(String),
}

/// The mathematical value of an `ArtifactSource`.
pub ghost enum SourceModel {
    Embedded(Seq<u8>),
    LocalFile(Seq<char>),
    RemoteUrl(Seq<char>),
    DefaultUrl(Seq<char>),
}

impl View for ArtifactSource {
    type V = SourceModel;

    open spec fn view(&self) -> SourceModel {
        match self {
            ArtifactSource::Embedded(b) => SourceModel::Embedded(b@),
            ArtifactSource::LocalFile(p) => SourceModel::LocalFile(p@),
            ArtifactSource::RemoteUrl(u) => SourceModel::RemoteUrl(u@),
            ArtifactSource::DefaultUrl(u) => SourceModel::DefaultUrl(u@),
        }
    }
}

/// Resolution once the override file has been ruled out and the embedded
/// payload has been ruled out: an override URL wins, else the default URL
/// decides.
pub open spec fn resolve_without_embedded(
    kind: ArtifactKind,
    p: PlatformDescriptor,
    version: Seq<char>,
    url: Option<Seq<char>>,
) -> Option<SourceModel> {
    match url {
        Some(u) => Some(SourceModel::RemoteUrl(u)),
        None => match default_url_model(kind, p, version) {
            Some(u) => Some(SourceModel::DefaultUrl(u)),
            None => None,
        },
    }
}

/// Resolution once the override file has been ruled out: the embedded
/// payload wins when one is supplied, the requested version is the
/// compiled-in default, and the platform matches its applicability.
pub open spec fn resolve_without_file(
    kind: ArtifactKind,
    p: PlatformDescriptor,
    version: Seq<char>,
    url: Option<Seq<char>>,
    embedded: Option<Seq<u8>>,
) -> Option<SourceModel> {
    match embedded {
        Some(b) => if version == kind.spec_default_version() && embedded_applicable_spec(
            kind,
            p,
        ) {
            Some(SourceModel::Embedded(b))
        } else {
            resolve_without_embedded(kind, p, version, url)
        },
        None => resolve_without_embedded(kind, p, version, url),
    }
}

/// The full resolution policy.  `file_exists` is the caller's probe of
/// `file`; an override file that exists preempts every other source.
/// `None` means no source can be computed (a configuration error).
pub open spec fn resolve_model(
    kind: ArtifactKind,
    p: PlatformDescriptor,
    version: Seq<char>,
    file: Option<Seq<char>>,
    file_exists: bool,
    url: Option<Seq<char>>,
    embedded: Option<Seq<u8>>,
) -> Option<SourceModel> {
    match file {
        Some(f) => if file_exists {
            Some(SourceModel::LocalFile(f))
        } else {
            resolve_without_file(kind, p, version, url, embedded)
        },
        None => resolve_without_file(kind, p, version, url, embedded),
    }
}

/// The view of an optional string.
pub open spec fn opt_str_view(o: Option<String>) -> Option<Seq<char>> {
    match o {
        Some(s) => Some(s@),
        None => None,
    }
}

/// The view of an optional byte vector.
pub open spec fn opt_bytes_view(o: Option<Vec<u8>>) -> Option<Seq<u8>> {
    match o {
        Some(b) => Some(b@),
        None => None,
    }
}

/// Decides where the artifact's bytes come from, following `resolve_model`
/// exactly.  `override_file_exists` must be the caller's probe of
/// `override_file`; `embedded` is the payload bundled for this kind, if the
/// build carries one.
pub fn resolve(
    kind: ArtifactKind,
    platform: PlatformDescriptor,
    requested_version: &str,
    override_file: Option<String>,
    override_file_exists: bool,
    override_url: Option<String>,
    embedded: Option<Vec<u8>>,
) -> (r: Result<ArtifactSource, AcquisitionError>)
    ensures
        match r {
            Ok(s) => resolve_model(
                kind,
                platform,
                requested_version@,
                opt_str_view(override_file),
                override_file_exists,
                opt_str_view(override_url),
                opt_bytes_view(embedded),
            ) == Some(s@),
            Err(e) => resolve_model(
                kind,
                platform,
                requested_version@,
                opt_str_view(override_file),
                override_file_exists,
                opt_str_view(override_url),
                opt_bytes_view(embedded),
            ) is None && e matches AcquisitionError::Configuration(_),
        },
{
    if let Some(f) = override_file {
        if override_file_exists {
            return Ok(ArtifactSource::LocalFile(f));
        }
    }
    if let Some(b) = embedded {
        if str_eq(requested_version, kind.default_version()) && embedded_applicable(
            kind,
            &platform,
        ) {
            return Ok(ArtifactSource::Embedded(b));
        }
        if let Some(u) = override_url {
            return Ok(ArtifactSource::RemoteUrl(u));
        }
        return match default_url(kind, platform, requested_version) {
            Ok(u) => Ok(ArtifactSource::DefaultUrl(u)),
            Err(e) => Err(e),
        };
    }
    if let Some(u) = override_url {
        return Ok(ArtifactSource::RemoteUrl(u));
    }
    match default_url(kind, platform, requested_version) {
        Ok(u) => Ok(ArtifactSource::DefaultUrl(u)),
        Err(e) => Err(e),
    }
}

/// Resolves with the override file probed on the spot.  The probe asks
/// the file system, so only this much holds of it: the result follows
/// `resolve_model` for one of the two probe outcomes, and exactly the
/// `false` outcome when no override file was supplied at all.
pub fn resolve_probing(
    kind: ArtifactKind,
    platform: PlatformDescriptor,
    requested_version: &str,
    override_file: Option<String>,
    override_url: Option<String>,
    embedded: Option<Vec<u8>>,
) -> (r: Result<ArtifactSource, AcquisitionError>)
    ensures
        match r {
            Ok(s) => resolve_model(
                kind,
                platform,
                requested_version@,
                opt_str_view(override_file),
                true,
                opt_str_view(override_url),
                opt_bytes_view(embedded),
            ) == Some(s@) || resolve_model(
                kind,
                platform,
                requested_version@,
                opt_str_view(override_file),
                false,
                opt_str_view(override_url),
                opt_bytes_view(embedded),
            ) == Some(s@),
            Err(e) => resolve_model(
                kind,
                platform,
                requested_version@,
                opt_str_view(override_file),
                false,
                opt_str_view(override_url),
                opt_bytes_view(embedded),
            ) is None && e matches AcquisitionError::Configuration(_),
        },
        match r {
            Ok(s) => override_file is None ==> resolve_model(
                kind,
                platform,
                requested_version@,
                None,
                false,
                opt_str_view(override_url),
                opt_bytes_view(embedded),
            ) == Some(s@),
            Err(_) => true,
        },
{
    let file_exists = match &override_file {
        Some(f) => crate::downloader::path_exists(f.as_str()),
        None => false,
    };
    resolve(
        kind,
        platform,
        requested_version,
        override_file,
        file_exists,
        override_url,
        embedded,
    )
}

/// Law: with no overrides and the requested version equal to the
/// compiled-in default, resolution picks the embedded payload whenever one
/// applicable to the platform is supplied.
pub proof fn lemma_default_version_resolves_embedded(
    kind: ArtifactKind,
    p: PlatformDescriptor,
    version: Seq<char>,
    payload: Seq<u8>,
)
    requires
        version == kind.spec_default_version(),
        embedded_applicable_spec(kind, p),
    ensures
        resolve_model(kind, p, version, None, false, None, Some(payload)) == Some(
            SourceModel::Embedded(payload),
        ),
{
}

/// Law: a requested version other than the compiled-in default never
/// yields the embedded payload; with no overrides it falls through to the
/// computed default URL (or to no source where none is defined).
pub proof fn lemma_other_version_never_embedded(
    kind: ArtifactKind,
    p: PlatformDescriptor,
    version: Seq<char>,
    payload: Seq<u8>,
)
    requires
        version != kind.spec_default_version(),
    ensures
        !(resolve_model(kind, p, version, None, false, None, Some(payload)) matches Some(
            SourceModel::Embedded(_),
        )),
        resolve_model(kind, p, version, None, false, None, Some(payload)) == (match default_url_model(
            kind,
            p,
            version,
        ) {
            Some(u) => Some(SourceModel::DefaultUrl(u)),
            None => None::<SourceModel>,
        }),
{
}

/// Law: an override URL makes resolution return exactly that URL as a
/// remote source, for every requested version, whenever the override file
/// does not exist and the build carries no embedded payload.
pub proof fn lemma_override_url_wins(
    kind: ArtifactKind,
    p: PlatformDescriptor,
    version: Seq<char>,
    file: Option<Seq<char>>,
    url: Seq<char>,
)
    ensures
        resolve_model(kind, p, version, file, false, Some(url), None) == Some(
            SourceModel::RemoteUrl(url),
        ),
{
}

/// Law: an override file that exists takes priority over every other
/// source, the embedded payload included.
pub proof fn lemma_override_file_wins(
    kind: ArtifactKind,
    p: PlatformDescriptor,
    version: Seq<char>,
    file: Seq<char>,
    url: Option<Seq<char>>,
    embedded: Option<Seq<u8>>,
)
    ensures
        resolve_model(kind, p, version, Some(file), true, url, embedded) == Some(
            SourceModel::LocalFile(file),
        ),
{
}

/// Law: the node-exporter default URL for the 64-bit x86 architecture
/// carries the `linux-amd64` release name, for every version.
pub proof fn lemma_node_default_url_amd64(p: PlatformDescriptor, version: Seq<char>)
    requires
        p.os == OsType::Linux || p.os == OsType::MacOs,
        p.arch == Arch::X86_64,
    ensures
        default_url_model(ArtifactKind::NodeExporterArchive, p, version) matches Some(u)
            && contains_seq(u, "linux-amd64"@),
{
    reveal_strlit(".linux-");
    reveal_strlit("amd64");
    reveal_strlit("linux-amd64");
    reveal_strlit(".tar.gz");
    let u = node_exporter_url_spec(version, "amd64"@);
    let pre = "https://github.com/prometheus/node_exporter/releases/download/v"@ + version
        + "/node_exporter-"@ + version;
    let i = pre.len() as int + 1;
    assert(u.subrange(i, i + 11) =~= "linux-amd64"@);
    lemma_contains_at(u, "linux-amd64"@, i);
}

/// Law: the node-exporter default URL for the 32-bit x86 architecture
/// carries the `linux-386` release name, for every version.
pub proof fn lemma_node_default_url_386(p: PlatformDescriptor, version: Seq<char>)
    requires
        p.os == OsType::Linux || p.os == OsType::MacOs,
        p.arch == Arch::X86,
    ensures
        default_url_model(ArtifactKind::NodeExporterArchive, p, version) matches Some(u)
            && contains_seq(u, "linux-386"@),
{
    reveal_strlit(".linux-");
    reveal_strlit("386");
    reveal_strlit("linux-386");
    reveal_strlit(".tar.gz");
    let u = node_exporter_url_spec(version, "386"@);
    let pre = "https://github.com/prometheus/node_exporter/releases/download/v"@ + version
        + "/node_exporter-"@ + version;
    let i = pre.len() as int + 1;
    assert(u.subrange(i, i + 9) =~= "linux-386"@);
    lemma_contains_at(u, "linux-386"@, i);
}

/// Law: the Windows-exporter default URL names `amd64` on the 64-bit x86
/// architecture, for every version.
pub proof fn lemma_windows_default_url_amd64(p: PlatformDescriptor, version: Seq<char>)
    requires
        p.os == OsType::Windows,
        p.arch == Arch::X86_64,
    ensures
        default_url_model(ArtifactKind::WindowsExporterInstaller, p, version) matches Some(u)
            && contains_seq(u, "amd64"@),
{
    reveal_strlit("amd64");
    reveal_strlit("-");
    reveal_strlit(".msi");
    let u = windows_exporter_url_with_suffix_spec(version, "amd64"@);
    let pre =
        "https://github.com/prometheus-community/windows_exporter/releases/download/v"@ + version
        + "/windows_exporter-"@ + version + "-"@;
    let i = pre.len() as int;
    assert(u.subrange(i, i + 5) =~= "amd64"@);
    lemma_contains_at(u, "amd64"@, i);
}

/// Law: the Windows-exporter default URL names `386` on every architecture
/// other than 64-bit x86, for every version.
pub proof fn lemma_windows_default_url_386(p: PlatformDescriptor, version: Seq<char>)
    requires
        p.os == OsType::Windows,
        p.arch != Arch::X86_64,
    ensures
        default_url_model(ArtifactKind::WindowsExporterInstaller, p, version) matches Some(u)
            && contains_seq(u, "386"@),
{
    reveal_strlit("386");
    reveal_strlit("-");
    reveal_strlit(".msi");
    let u = windows_exporter_url_with_suffix_spec(version, "386"@);
    let pre =
        "https://github.com/prometheus-community/windows_exporter/releases/download/v"@ + version
        + "/windows_exporter-"@ + version + "-"@;
    let i = pre.len() as int;
    assert(u.subrange(i, i + 3) =~= "386"@);
    lemma_contains_at(u, "386"@, i);
}

} // verus!
