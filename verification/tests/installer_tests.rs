use snaplate::installer::EngineInstallState;
use snaplate::installer::EngineInstaller;
use snaplate::installer::InstallPhase;

#[test]
fn presence_on_disk_is_the_source_of_truth() {
    let present = EngineInstaller::from_presence(true);
    assert_eq!(*present.current_state(), EngineInstallState::Installed);
    let absent = EngineInstaller::from_presence(false);
    assert_eq!(*absent.current_state(), EngineInstallState::NotInstalled);
}

#[test]
fn a_full_run_is_monotone_and_completes_once() {
    let mut inst = EngineInstaller::from_presence(false);
    inst.start_download(100);
    let mut last_done = 0u64;
    let mut completed = 0usize;
    let chunks = [10u64, 40, 25, 25];
    for c in chunks {
        let ev = inst.on_chunk(c);
        assert_eq!(ev.phase, InstallPhase::Downloading);
        assert!(ev.bytes_done >= last_done);
        assert_eq!(ev.bytes_total, 100);
        last_done = ev.bytes_done;
    }
    assert_eq!(last_done, 100);
    let ev = inst.on_download_complete();
    assert_eq!(ev.phase, InstallPhase::Extracting);
    assert_eq!(ev.bytes_done, 100);
    let ev = inst.on_extracted(100, 100);
    if ev.phase == InstallPhase::Completed {
        completed += 1;
    }
    assert_eq!(completed, 1);
    assert_eq!(*inst.current_state(), EngineInstallState::Installed);
}

#[test]
fn unknown_payload_size_still_reports_progress() {
    let mut inst = EngineInstaller::from_presence(false);
    inst.start_download(0);
    let ev = inst.on_chunk(512);
    assert_eq!(ev.bytes_done, 512);
    assert_eq!(ev.bytes_total, 0);
    assert_eq!(ev.phase, InstallPhase::Downloading);
}

#[test]
fn a_failure_is_terminal_until_a_fresh_attempt() {
    let mut inst = EngineInstaller::from_presence(false);
    inst.start_download(10);
    inst.on_chunk(5);
    let ev = inst.on_failure(String::from("connection reset"));
    assert_eq!(ev.phase, InstallPhase::Failed);
    assert_eq!(
        *inst.current_state(),
        EngineInstallState::Failed { reason: String::from("connection reset") }
    );
    // A new attempt starts over from zero.
    inst.start_download(10);
    let ev = inst.on_chunk(3);
    assert_eq!(ev.bytes_done, 3);
}

#[test]
fn failure_during_extraction_uses_the_same_channel() {
    let mut inst = EngineInstaller::from_presence(false);
    inst.start_download(4);
    inst.on_chunk(4);
    inst.on_download_complete();
    let ev = inst.on_failure(String::from("corrupt archive"));
    assert_eq!(ev.phase, InstallPhase::Failed);
}
