use postgresql_embedded::install::{
    is_cache_hit, plan_install, InstallStep, InstallationRecord, ReleaseDescriptor,
};

fn release(checksum: &str) -> ReleaseDescriptor {
    ReleaseDescriptor {
        version: "16.3.0".to_string(),
        platform: "x86_64-unknown-linux-gnu".to_string(),
        checksum: checksum.to_string(),
    }
}

#[test]
fn missing_record_installs_everything_in_order() {
    let steps = plan_install(&None, &release("abc"));
    assert_eq!(
        steps,
        vec![
            InstallStep::AcquireLock,
            InstallStep::Download,
            InstallStep::VerifyChecksum,
            InstallStep::ExtractToTemporary,
            InstallStep::RenameIntoPlace,
            InstallStep::WriteRecord,
            InstallStep::ReleaseLock,
        ]
    );
}

#[test]
fn second_install_is_a_cache_hit() {
    let release = release("abc");
    let first = plan_install(&None, &release);
    assert_eq!(first.iter().filter(|s| **s == InstallStep::Download).count(), 1);
    let record = Some(InstallationRecord {
        version: release.version.clone(),
        checksum: release.checksum.clone(),
    });
    assert!(is_cache_hit(&record, &release));
    assert!(plan_install(&record, &release).is_empty());
}

#[test]
fn record_with_other_checksum_is_a_miss() {
    let record = Some(InstallationRecord {
        version: "16.3.0".to_string(),
        checksum: "old".to_string(),
    });
    assert!(!is_cache_hit(&record, &release("new")));
    assert_eq!(plan_install(&record, &release("new")).len(), 7);
}

#[test]
fn record_is_written_after_contents_are_in_place() {
    let steps = plan_install(&None, &release("abc"));
    let position = |step: InstallStep| steps.iter().position(|s| *s == step).unwrap();
    assert!(position(InstallStep::VerifyChecksum) < position(InstallStep::ExtractToTemporary));
    assert!(position(InstallStep::ExtractToTemporary) < position(InstallStep::RenameIntoPlace));
    assert!(position(InstallStep::RenameIntoPlace) < position(InstallStep::WriteRecord));
    assert_eq!(steps.last(), Some(&InstallStep::ReleaseLock));
}
