//! The acquisition engine's decisions, as pure functions: whether to fetch
//! at all (an existing destination is kept), how a resolved source's bytes
//! are obtained, and which directories and files an obtained payload turns
//! into.  A failed fetch or an invalid archive plans nothing, so a failed
//! acquisition never leaves writes at the destination.

use vstd::prelude::*;
use crate::artifacts::{ArchiveFormat, ArtifactKind, InstallTarget};
use crate::downloader::{
    plan_dirs_view, plan_files_view, plan_tar_gz_extraction, plan_zip_extraction,
    tar_dir_paths, tar_gz_entries_of, tar_write_actions, zip_dir_paths, zip_entries_of,
    zip_write_actions, AcquirePlan,
};
use crate::errors::AcquisitionError;
use crate::os_detector::OsType;
use crate::resolver::{ArtifactSource, SourceModel};

verus! {

/// Everything one artifact's setup decides before any I/O happens: where
/// to install, where the bytes come from, and the configuration and
/// service-unit texts to write, where the artifact has them.
pub struct SetupPlan {
    pub target: InstallTarget,
    pub source: ArtifactSource,
    pub config: Option<String>,
    pub service_unit: Option<String>,
}

/// How the bytes of a resolved source are obtained: use them as they are
/// (embedded payload), copy a local file, or download a URL.
pub enum FetchPlan {
    UseBytes(Vec<u8>),
    CopyLocal(String),
    HttpGet(String),
}

/// The mathematical value of a `FetchPlan`.
pub ghost enum FetchModel {
    UseBytes(Seq<u8>),
    CopyLocal(Seq<char>),
    HttpGet(Seq<char>),
}

impl View for FetchPlan {
    type V = FetchModel;

    open spec fn view(&self) -> FetchModel {
        match self {
            FetchPlan::UseBytes(b) => FetchModel::UseBytes(b@),
            FetchPlan::CopyLocal(p) => FetchModel::CopyLocal(p@),
            FetchPlan::HttpGet(u) => FetchModel::HttpGet(u@),
        }
    }
}

/// The fetch a source calls for: embedded bytes are used directly, a local
/// override file is copied, and both URL variants are downloaded with a
/// single GET.
pub open spec fn fetch_model_of(s: SourceModel) -> FetchModel {
    match s {
        SourceModel::Embedded(b) => FetchModel::UseBytes(b),
        SourceModel::LocalFile(p) => FetchModel::CopyLocal(p),
        SourceModel::RemoteUrl(u) => FetchModel::HttpGet(u),
        SourceModel::DefaultUrl(u) => FetchModel::HttpGet(u),
    }
}

/// See `fetch_model_of`.
pub fn fetch_plan(source: ArtifactSource) -> (r: FetchPlan)
    ensures
        r@ == fetch_model_of(source@),
{
    match source {
        ArtifactSource::Embedded(b) => FetchPlan::UseBytes(b),
        ArtifactSource::LocalFile(p) => FetchPlan::CopyLocal(p),
        ArtifactSource::RemoteUrl(u) => FetchPlan::HttpGet(u),
        ArtifactSource::DefaultUrl(u) => FetchPlan::HttpGet(u),
    }
}

/// The first acquisition decision.  An artifact already present at its
/// destination is kept: the acquisition succeeds without fetching, and so
/// performs no network or file I/O.  Otherwise the source's fetch is
/// planned.
pub fn plan_acquisition(destination_exists: bool, source: ArtifactSource) -> (r: Option<
    FetchPlan,
>)
    ensures
        destination_exists ==> r is None,
        !destination_exists ==> (r matches Some(f) && f@ == fetch_model_of(source@)),
{
    if destination_exists {
        None
    } else {
        Some(fetch_plan(source))
    }
}

/// What a successful install plan holds for `payload`, by archive format:
/// a plain binary is written to the binary path and marked executable
/// outside Windows; an installer is staged unmarked; an archive is
/// extracted under the payload path.
pub open spec fn install_plan_ok(
    kind: ArtifactKind,
    os: OsType,
    root: Seq<char>,
    binary: Seq<char>,
    payload: Seq<u8>,
    plan: AcquirePlan,
) -> bool {
    match kind.spec_archive_format() {
        ArchiveFormat::NoArchive => plan_dirs_view(plan) == seq![root] && plan_files_view(plan)
            == seq![(binary, payload, os != OsType::Windows)],
        ArchiveFormat::Msi => plan_dirs_view(plan) == seq![root] && plan_files_view(plan)
            == seq![(binary, payload, false)],
        ArchiveFormat::TarGz => tar_gz_entries_of(payload) matches Some(es) && plan_dirs_view(
            plan,
        ) == seq![binary] + tar_dir_paths(es, binary) && plan_files_view(plan)
            == tar_write_actions(es, binary),
        ArchiveFormat::Zip => zip_entries_of(payload) matches Some(es) && plan_dirs_view(plan)
            == seq![binary] + zip_dir_paths(es, binary) && plan_files_view(plan)
            == zip_write_actions(es, binary),
    }
}

/// When planning an install fails: only for an archive-typed payload whose
/// bytes do not decode.
pub open spec fn install_plan_fails(kind: ArtifactKind, payload: Seq<u8>) -> bool {
    ||| kind.spec_archive_format() == ArchiveFormat::TarGz && tar_gz_entries_of(payload) is None
    ||| kind.spec_archive_format() == ArchiveFormat::Zip && zip_entries_of(payload) is None
}

/// Plans the directories and file writes that install an obtained payload:
/// write-and-mark for a plain binary, staging for an installer, in-memory
/// decode and extraction for an archive.  An invalid archive yields an
/// `Archive` error and plans nothing.
pub fn plan_payload_install(
    kind: ArtifactKind,
    os: OsType,
    target: &InstallTarget,
    payload: Vec<u8>,
) -> (r: Result<AcquirePlan, AcquisitionError>)
    ensures
        match r {
            Ok(plan) => install_plan_ok(
                kind,
                os,
                target.install_root@,
                target.binary_path@,
                payload@,
                plan,
            ),
            Err(e) => install_plan_fails(kind, payload@) && e
                matches AcquisitionError::Archive(_),
        },
{
    match kind.archive_format() {
        ArchiveFormat::TarGz => plan_tar_gz_extraction(&payload, target.binary_path.as_str()),
        ArchiveFormat::Zip => plan_zip_extraction(&payload, target.binary_path.as_str()),
        ArchiveFormat::NoArchive => {
            let ghost payload_view = payload@;
            let mut dirs: Vec<String> = Vec::new();
            dirs.push(target.install_root.clone());
            let executable = !matches!(os, OsType::Windows);
            let mut files: Vec<crate::downloader::WriteAction> = Vec::new();
            files.push(
                crate::downloader::WriteAction {
                    path: target.binary_path.clone(),
                    bytes: payload,
                    executable,
                },
            );
            let plan = AcquirePlan { dirs, files };
            proof {
                assert(plan_dirs_view(plan) =~= seq![target.install_root@]);
                assert(plan_files_view(plan) =~= seq![
                    (target.binary_path@, payload_view, executable),
                ]);
            }
            Ok(plan)
        },
        ArchiveFormat::Msi => {
            let ghost payload_view = payload@;
            let mut dirs: Vec<String> = Vec::new();
            dirs.push(target.install_root.clone());
            let mut files: Vec<crate::downloader::WriteAction> = Vec::new();
            files.push(
                crate::downloader::WriteAction {
                    path: target.binary_path.clone(),
                    bytes: payload,
                    executable: false,
                },
            );
            let plan = AcquirePlan { dirs, files };
            proof {
                assert(plan_dirs_view(plan) =~= seq![target.install_root@]);
                assert(plan_files_view(plan) =~= seq![
                    (target.binary_path@, payload_view, false),
                ]);
            }
            Ok(plan)
        },
    }
}

/// Turns the outcome of a fetch into the acquisition result.  A failed
/// download or copy is a `Network` error carrying the underlying cause,
/// and plans nothing: a failed acquisition leaves no writes for the
/// destination.  Obtained bytes are planned as `plan_payload_install`
/// does.
pub fn acquire_from_fetch(
    kind: ArtifactKind,
    os: OsType,
    target: &InstallTarget,
    fetch: Result<Vec<u8>, String>,
) -> (r: Result<AcquirePlan, AcquisitionError>)
    ensures
        match fetch {
            Err(m) => r matches Err(AcquisitionError::Network(msg)) && msg@ == "download failed: "@
                + m@,
            Ok(payload) => match r {
                Ok(plan) => install_plan_ok(
                    kind,
                    os,
                    target.install_root@,
                    target.binary_path@,
                    payload@,
                    plan,
                ),
                Err(e) => install_plan_fails(kind, payload@) && e
                    matches AcquisitionError::Archive(_),
            },
        },
{
    match fetch {
        Ok(payload) => plan_payload_install(kind, os, target, payload),
        Err(m) => {
            let mut msg = String::from_str("download failed: ");
            msg.append(m.as_str());
            Err(AcquisitionError::Network(msg))
        },
    }
}

} // verus!
