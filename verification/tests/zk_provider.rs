use semver::Version;
use std::path::PathBuf;
use zksync_verify::zk_provider::{
    select_target_output, SolcReply, SolcRequest, SolcSetup, TargetError, TargetOutput, ZkVersion,
};

fn v(s: &str) -> Version {
    Version::parse(s).unwrap()
}

#[test]
fn configured_solc_is_queried_and_decides() {
    let path = PathBuf::from("/opt/solc-zk");
    let setup = SolcSetup::begin(v("0.8.24"), Some(path.clone()));
    match setup.request() {
        SolcRequest::VersionInfo(p) => assert_eq!(p, &path),
        _ => panic!("expected a version query"),
    }
    let setup = setup.advance(SolcReply::VersionInfo { version: v("0.8.26"), has_zksync_version: false });
    match &setup {
        SolcSetup::Ready { solc_version, is_zksync_solc, solc_binary } => {
            assert_eq!(solc_version, &v("0.8.26"));
            assert!(!is_zksync_solc);
            assert!(solc_binary.is_none());
        }
        _ => panic!("expected a decision"),
    }
    assert!(matches!(setup.request(), SolcRequest::Done));
}

#[test]
fn installed_solc_of_project_version_is_used() {
    let setup = SolcSetup::begin(v("0.8.20"), None);
    match setup.request() {
        SolcRequest::FindInstalled(ver) => assert_eq!(ver, &v("0.8.20")),
        _ => panic!("expected a look-up"),
    }
    let found = PathBuf::from("/home/u/.svm/0.8.20/solc");
    let setup = setup.advance(SolcReply::Installed(Some(found.clone())));
    match setup {
        SolcSetup::Ready { solc_version, is_zksync_solc, solc_binary } => {
            assert_eq!(solc_version, v("0.8.20"));
            assert!(is_zksync_solc);
            assert_eq!(solc_binary, Some(found));
        }
        _ => panic!("expected a decision"),
    }
}

#[test]
fn missing_solc_is_installed() {
    let setup = SolcSetup::begin(v("0.8.19"), None);
    let setup = setup.advance(SolcReply::Installed(None));
    match setup.request() {
        SolcRequest::Install(ver) => assert_eq!(ver, &v("0.8.19")),
        _ => panic!("expected an install"),
    }
    let installed = PathBuf::from("/tmp/solc-0.8.19");
    let setup = setup.advance(SolcReply::InstallDone(installed.clone()));
    match setup {
        SolcSetup::Ready { solc_version, is_zksync_solc, solc_binary } => {
            assert_eq!(solc_version, v("0.8.19"));
            assert!(is_zksync_solc);
            assert_eq!(solc_binary, Some(installed));
        }
        _ => panic!("expected a decision"),
    }
}

#[test]
fn unrelated_reply_changes_nothing() {
    let setup = SolcSetup::begin(v("0.8.19"), None);
    let setup = setup.advance(SolcReply::InstallDone(PathBuf::from("/x")));
    assert!(matches!(setup, SolcSetup::FindInstalled { .. }));
    let setup = SolcSetup::begin(v("0.8.19"), Some(PathBuf::from("/s")));
    let setup = setup.advance(SolcReply::Installed(None));
    assert!(matches!(setup, SolcSetup::QueryConfigured { .. }));
    let ready = SolcSetup::Ready { solc_version: v("1.0.0"), is_zksync_solc: true, solc_binary: None };
    let ready = ready.advance(SolcReply::VersionInfo { version: v("2.0.0"), has_zksync_version: false });
    match ready {
        SolcSetup::Ready { solc_version, .. } => assert_eq!(solc_version, v("1.0.0")),
        _ => panic!("a decision stays"),
    }
}

#[test]
fn zk_version_clones() {
    let z = ZkVersion { zksolc: v("1.5.0"), solc: v("0.8.24"), is_zksync_solc: true };
    let c = z.clone();
    assert_eq!(c.zksolc, v("1.5.0"));
    assert_eq!(c.solc, v("0.8.24"));
    assert!(c.is_zksync_solc);
}

#[test]
fn target_output_selected() {
    assert_eq!(select_target_output(Some(Some(7u32)), TargetOutput::Abi), Ok(7));
    assert_eq!(
        select_target_output::<u32>(None, TargetOutput::Abi),
        Err(TargetError::ArtifactNotFound(TargetOutput::Abi))
    );
    assert_eq!(
        select_target_output::<u32>(Some(None), TargetOutput::Metadata),
        Err(TargetError::OutputMissing(TargetOutput::Metadata))
    );
}

#[test]
fn target_error_messages() {
    assert_eq!(
        TargetError::ArtifactNotFound(TargetOutput::Abi).message(),
        "failed to find target artifact when compiling for abi"
    );
    assert_eq!(
        TargetError::ArtifactNotFound(TargetOutput::Metadata).message(),
        "failed to find target artifact when compiling for metadata"
    );
    assert_eq!(TargetError::OutputMissing(TargetOutput::Abi).message(), "target artifact does not have an ABI");
    assert_eq!(
        TargetError::OutputMissing(TargetOutput::Metadata).message(),
        "target artifact does not have an ABI"
    );
}
