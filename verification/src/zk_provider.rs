//! The decisions behind a zksolc verification context: which solc it compiles with, and what
//! it reads out of a compiled target.
use std::path::PathBuf;
use semver::Version;
use vstd::prelude::*;

verus! {

#[verifier::external_type_specification]
#[verifier::external_body]
pub struct ExVersion(semver::Version);

#[verifier::external_type_specification]
#[verifier::external_body]
pub struct ExPathBuf(std::path::PathBuf);

/// `semver::Version`'s `Clone`, derived field by field: the clone is the same version.
pub assume_specification[ <semver::Version as Clone>::clone ](v: &semver::Version) -> (res:
    semver::Version)
    ensures
        res == *v,
;

/// The compiler versions a zksolc verification context compiles with.
#[derive(Debug, Clone)]
pub struct ZkVersion {
    pub zksolc: Version,
    pub solc: Version,
    pub is_zksync_solc: bool,
}

/// Where choosing the solc compiler of a zksolc context stands.
#[derive(Debug)]
pub enum SolcSetup {
    /// A solc binary is configured; its version info is asked for.
    QueryConfigured { solc_path: PathBuf },
    /// No binary is configured; an installed solc of the project's version is looked for.
    FindInstalled { context_version: Version },
    /// None is installed; the project's version is to be installed.
    Install { context_version: Version },
    /// Decided. `solc_binary` is the binary that the project is then set to compile with, where
    /// the project's version was taken (none where a configured binary was queried).
    Ready { solc_version: Version, is_zksync_solc: bool, solc_binary: Option<PathBuf> },
}

/// What the caller is asked to do next for a [`SolcSetup`].
pub enum SolcRequest<'a> {
    /// Read the version info of this solc binary.
    VersionInfo(&'a PathBuf),
    /// Look for an installed solc of this version.
    FindInstalled(&'a Version),
    /// Install a solc of this version.
    Install(&'a Version),
    /// Nothing is left to do.
    Done,
}

/// What the caller found out when it did what was asked.
pub enum SolcReply {
    /// The version of the queried binary, and whether it reports a zksync version.
    VersionInfo { version: Version, has_zksync_version: bool },
    /// The installed solc of the asked version, if there is one.
    Installed(Option<PathBuf>),
    /// The path of the solc that was just installed.
    InstallDone(PathBuf),
}

/// The state that follows `setup` on `reply`; a reply that answers no pending question leaves
/// the state as it is.
pub open spec fn solc_setup_next(setup: SolcSetup, reply: SolcReply) -> SolcSetup {
    match (setup, reply) {
        (
            SolcSetup::QueryConfigured { .. },
            SolcReply::VersionInfo { version, has_zksync_version },
        ) => SolcSetup::Ready {
            solc_version: version,
            is_zksync_solc: has_zksync_version,
            solc_binary: None,
        },
        (SolcSetup::FindInstalled { context_version }, SolcReply::Installed(found)) => match found {
            Some(path) => SolcSetup::Ready {
                solc_version: context_version,
                is_zksync_solc: true,
                solc_binary: Some(path),
            },
            None => SolcSetup::Install { context_version },
        },
        (SolcSetup::Install { context_version }, SolcReply::InstallDone(path)) => SolcSetup::Ready {
            solc_version: context_version,
            is_zksync_solc: true,
            solc_binary: Some(path),
        },
        (setup, _) => setup,
    }
}

/// The state after `replies`, taken in order, starting from `setup`.
pub open spec fn solc_setup_run(setup: SolcSetup, replies: Seq<SolcReply>) -> SolcSetup
    decreases replies.len(),
{
    if replies.len() == 0 {
        setup
    } else {
        solc_setup_run(solc_setup_next(setup, replies[0]), replies.drop_first())
    }
}

impl SolcSetup {
    /// Starts choosing the solc compiler: a configured binary is queried for its version;
    /// otherwise the project's solc version is used, installed first where it is missing.
    pub fn begin(context_version: Version, solc_path: Option<PathBuf>) -> (res: SolcSetup)
        ensures
            res == (match solc_path {
                Some(p) => SolcSetup::QueryConfigured { solc_path: p },
                None => SolcSetup::FindInstalled { context_version },
            }),
    {
        match solc_path {
            Some(p) => SolcSetup::QueryConfigured { solc_path: p },
            None => SolcSetup::FindInstalled { context_version },
        }
    }

    /// What is to be done next.
    pub fn request(&self) -> (res: SolcRequest<'_>)
        ensures
            match *self {
                SolcSetup::QueryConfigured { solc_path } => res == SolcRequest::VersionInfo(
                    &solc_path,
                ),
                SolcSetup::FindInstalled { context_version } => res == SolcRequest::FindInstalled(
                    &context_version,
                ),
                SolcSetup::Install { context_version } => res == SolcRequest::Install(
                    &context_version,
                ),
                SolcSetup::Ready { .. } => res == SolcRequest::Done,
            },
    {
        match self {
            SolcSetup::QueryConfigured { solc_path } => SolcRequest::VersionInfo(solc_path),
            SolcSetup::FindInstalled { context_version } => SolcRequest::FindInstalled(
                context_version,
            ),
            SolcSetup::Install { context_version } => SolcRequest::Install(context_version),
            SolcSetup::Ready { .. } => SolcRequest::Done,
        }
    }

    /// Takes in the answer to the pending request.
    pub fn advance(self, reply: SolcReply) -> (res: SolcSetup)
        ensures
            res == solc_setup_next(self, reply),
    {
        match (self, reply) {
            (
                SolcSetup::QueryConfigured { .. },
                SolcReply::VersionInfo { version, has_zksync_version },
            ) => SolcSetup::Ready {
                solc_version: version,
                is_zksync_solc: has_zksync_version,
                solc_binary: None,
            },
            (SolcSetup::FindInstalled { context_version }, SolcReply::Installed(found)) => {
                match found {
                    Some(path) => SolcSetup::Ready {
                        solc_version: context_version,
                        is_zksync_solc: true,
                        solc_binary: Some(path),
                    },
                    None => SolcSetup::Install { context_version },
                }
            },
            (SolcSetup::Install { context_version }, SolcReply::InstallDone(path)) => {
                SolcSetup::Ready {
                    solc_version: context_version,
                    is_zksync_solc: true,
                    solc_binary: Some(path),
                }
            },
            (setup, _) => setup,
        }
    }
}


/// An output that a verification context compiles its target for.
#[derive(Debug, Clone, Copy, PartialEq, Eq)]
pub enum TargetOutput {
    Abi,
    Metadata,
}

/// Why a compiled target gave no output.
#[derive(Debug, Clone, Copy, PartialEq, Eq)]
pub enum TargetError {
    /// The compiler output holds no artifact for the target.
    ArtifactNotFound(TargetOutput),
    /// The target's artifact lacks the output.
    OutputMissing(TargetOutput),
}

/// The text of each error.
pub open spec fn target_error_text(e: TargetError) -> Seq<char> {
    match e {
        TargetError::ArtifactNotFound(TargetOutput::Abi) => "failed to find target artifact when compiling for abi"@,
        TargetError::ArtifactNotFound(TargetOutput::Metadata) => "failed to find target artifact when compiling for metadata"@,
        TargetError::OutputMissing(_) => "target artifact does not have an ABI"@,
    }
}

impl TargetError {
    /// The error's text. A missing output reads "does not have an ABI" for the metadata too.
    pub fn message(&self) -> (res: &'static str)
        ensures
            res@ == target_error_text(*self),
            res == (match *self {
                TargetError::ArtifactNotFound(TargetOutput::Abi) => "failed to find target artifact when compiling for abi",
                TargetError::ArtifactNotFound(TargetOutput::Metadata) => "failed to find target artifact when compiling for metadata",
                TargetError::OutputMissing(_) => "target artifact does not have an ABI",
            }),
    {
        match self {
            TargetError::ArtifactNotFound(TargetOutput::Abi) => "failed to find target artifact when compiling for abi",
            TargetError::ArtifactNotFound(TargetOutput::Metadata) => "failed to find target artifact when compiling for metadata",
            TargetError::OutputMissing(_) => "target artifact does not have an ABI",
        }
    }
}

/// What compiling the target for `wanted` gives, from the wanted output of the target's
/// artifact (outer `None`: no artifact; inner `None`: the artifact lacks the output).
pub fn select_target_output<T>(found: Option<Option<T>>, wanted: TargetOutput) -> (res: Result<
    T,
    TargetError,
>)
    ensures
        res == (match found {
            None => Err(TargetError::ArtifactNotFound(wanted)),
            Some(None) => Err(TargetError::OutputMissing(wanted)),
            Some(Some(out)) => Ok(out),
        }),
{
    match found {
        None => Err(TargetError::ArtifactNotFound(wanted)),
        Some(None) => Err(TargetError::OutputMissing(wanted)),
        Some(Some(out)) => Ok(out),
    }
}

/// Once decided, a setup stays as it is.
pub proof fn lemma_ready_is_final(setup: SolcSetup, replies: Seq<SolcReply>)
    requires
        setup is Ready,
    ensures
        solc_setup_run(setup, replies) == setup,
    decreases replies.len(),
{
    if replies.len() > 0 {
        lemma_ready_is_final(solc_setup_next(setup, replies[0]), replies.drop_first());
    }
}

/// The states reachable when no solc binary is configured.
pub open spec fn uses_project_solc(setup: SolcSetup, context_version: Version) -> bool {
    ||| setup == SolcSetup::FindInstalled { context_version }
    ||| setup == SolcSetup::Install { context_version }
    ||| setup matches SolcSetup::Ready { solc_version, is_zksync_solc, solc_binary } && solc_version
        == context_version && is_zksync_solc && solc_binary is Some
}

/// Law: without a configured solc binary, whatever the replies, the setup only ever looks for
/// or installs the project's solc version, and once decided it compiles with that version,
/// counts it as zksync's solc, and names the binary found or installed.
pub proof fn lemma_unconfigured_uses_project_solc(
    context_version: Version,
    replies: Seq<SolcReply>,
)
    ensures
        uses_project_solc(
            solc_setup_run(SolcSetup::FindInstalled { context_version }, replies),
            context_version,
        ),
    decreases replies.len(),
{
    lemma_project_solc_kept(SolcSetup::FindInstalled { context_version }, context_version, replies);
}

proof fn lemma_project_solc_kept(setup: SolcSetup, context_version: Version, replies: Seq<SolcReply>)
    requires
        uses_project_solc(setup, context_version),
    ensures
        uses_project_solc(solc_setup_run(setup, replies), context_version),
    decreases replies.len(),
{
    if replies.len() > 0 {
        lemma_project_solc_kept(
            solc_setup_next(setup, replies[0]),
            context_version,
            replies.drop_first(),
        );
    }
}

/// Law: no solc is installed unless the look-up for an installed one found nothing: a setup
/// that starts without a configured binary asks to install only after such a reply.
pub proof fn lemma_install_only_when_missing(context_version: Version, replies: Seq<SolcReply>)
    ensures
        solc_setup_run(SolcSetup::FindInstalled { context_version }, replies) is Install ==> exists|
            i: int,
        |
            0 <= i < replies.len() && #[trigger] replies[i] == SolcReply::Installed(None),
    decreases replies.len(),
{
    let start = SolcSetup::FindInstalled { context_version };
    if replies.len() > 0 {
        let next = solc_setup_next(start, replies[0]);
        let rest = replies.drop_first();
        if next == start {
            lemma_install_only_when_missing(context_version, rest);
            if solc_setup_run(start, replies) is Install {
                let i = choose|i: int| 0 <= i < rest.len() && #[trigger] rest[i] == SolcReply::Installed(None);
                assert(replies[i + 1] == rest[i]);
            }
        } else if next is Install {
            assert(replies[0] == SolcReply::Installed(None));
        } else {
            lemma_ready_is_final(next, rest);
        }
    }
}

/// Law: with a configured solc binary, the setup never looks for nor installs a solc; once
/// decided, its version and whether it is zksync's solc are those that the binary reported, and
/// the project keeps its compiler.
pub proof fn lemma_configured_decides(solc_path: PathBuf, replies: Seq<SolcReply>)
    ensures
        ({
            let end = solc_setup_run(SolcSetup::QueryConfigured { solc_path }, replies);
            ||| end == SolcSetup::QueryConfigured { solc_path }
            ||| end matches SolcSetup::Ready { solc_version, is_zksync_solc, solc_binary }
                && solc_binary is None && exists|i: int|
                0 <= i < replies.len() && #[trigger] replies[i] == SolcReply::VersionInfo {
                    version: solc_version,
                    has_zksync_version: is_zksync_solc,
                }
        }),
    decreases replies.len(),
{
    let start = SolcSetup::QueryConfigured { solc_path };
    if replies.len() > 0 {
        let next = solc_setup_next(start, replies[0]);
        let rest = replies.drop_first();
        if next == start {
            lemma_configured_decides(solc_path, rest);
            let end = solc_setup_run(start, replies);
            if end is Ready {
                let i = choose|i: int| 0 <= i < rest.len() && #[trigger] rest[i] == SolcReply::VersionInfo {
                    version: end->solc_version,
                    has_zksync_version: end->is_zksync_solc,
                };
                assert(replies[i + 1] == rest[i]);
            }
        } else {
            lemma_ready_is_final(next, rest);
            assert(replies[0] == SolcReply::VersionInfo {
                version: next->solc_version,
                has_zksync_version: next->is_zksync_solc,
            });
        }
    }
}


/// Law: a configured binary's version info always decides the setup, whether or not the binary
/// reports a zksync version: the solc version and the zksync flag are those reported, and the
/// project keeps its compiler.
pub proof fn lemma_version_info_decides(
    solc_path: PathBuf,
    version: Version,
    has_zksync_version: bool,
)
    ensures
        solc_setup_next(
            SolcSetup::QueryConfigured { solc_path },
            SolcReply::VersionInfo { version, has_zksync_version },
        ) == (SolcSetup::Ready { solc_version: version, is_zksync_solc: has_zksync_version, solc_binary: None }),
{
}

/// Law: an installed solc of the project's version, once found, decides the setup: it is used
/// with the project's version and counts as zksync's solc.
pub proof fn lemma_found_installed_decides(context_version: Version, path: PathBuf)
    ensures
        solc_setup_next(
            SolcSetup::FindInstalled { context_version },
            SolcReply::Installed(Some(path)),
        ) == (SolcSetup::Ready { solc_version: context_version, is_zksync_solc: true, solc_binary: Some(path) }),
{
}

/// Law: when none is installed, the look-up leads to installing the project's version, and the
/// installed binary then decides the setup.
pub proof fn lemma_missing_solc_installed_decides(context_version: Version, path: PathBuf)
    ensures
        solc_setup_next(SolcSetup::FindInstalled { context_version }, SolcReply::Installed(None))
            == (SolcSetup::Install { context_version }),
        solc_setup_run(
            SolcSetup::FindInstalled { context_version },
            seq![SolcReply::Installed(None), SolcReply::InstallDone(path)],
        ) == (SolcSetup::Ready { solc_version: context_version, is_zksync_solc: true, solc_binary: Some(path) }),
{
    let replies = seq![SolcReply::Installed(None), SolcReply::InstallDone(path)];
    let mid = SolcSetup::Install { context_version };
    let end = SolcSetup::Ready { solc_version: context_version, is_zksync_solc: true, solc_binary: Some(path) };
    assert(replies.drop_first() =~= seq![SolcReply::InstallDone(path)]);
    assert(replies.drop_first().drop_first() =~= Seq::<SolcReply>::empty());
    assert(solc_setup_run(end, replies.drop_first().drop_first()) == end);
    assert(solc_setup_run(mid, replies.drop_first()) == end);
}

/// `reply` is of the kind that the pending request of `setup` asks for.
pub open spec fn answers_request(setup: SolcSetup, reply: SolcReply) -> bool {
    match (setup, reply) {
        (SolcSetup::QueryConfigured { .. }, SolcReply::VersionInfo { .. }) => true,
        (SolcSetup::FindInstalled { .. }, SolcReply::Installed(_)) => true,
        (SolcSetup::Install { .. }, SolcReply::InstallDone(_)) => true,
        _ => false,
    }
}

/// The most requests that can still be pending.
pub open spec fn requests_left(setup: SolcSetup) -> nat {
    match setup {
        SolcSetup::QueryConfigured { .. } => 1,
        SolcSetup::FindInstalled { .. } => 2,
        SolcSetup::Install { .. } => 1,
        SolcSetup::Ready { .. } => 0,
    }
}

/// Law: every reply that answers the pending request brings the setup closer to a decision, so
/// the requests end after at most two answers.
pub proof fn lemma_answer_makes_progress(setup: SolcSetup, reply: SolcReply)
    requires
        answers_request(setup, reply),
    ensures
        requests_left(solc_setup_next(setup, reply)) < requests_left(setup),
{
}

} // verus!
