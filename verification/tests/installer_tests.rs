use nvim_updater::error::ErrorKind;
use nvim_updater::installer::{
    InstallAction, InstallEvent, InstallPhase, Installer, EXECUTABLE_MODE, EXECUTE_BITS,
};

const DESTINATION: &str = "/opt/neovim/nvim.appimage";

fn streaming(total: u64) -> Installer {
    let mut installer = Installer::new(DESTINATION);
    assert_eq!(
        installer.step(InstallEvent::ResponseReceived { content_length: Some(total) }),
        InstallAction::OpenDestination
    );
    assert_eq!(installer.step(InstallEvent::DestinationOpened), InstallAction::NextChunk);
    installer
}

fn write_chunk(installer: &mut Installer, len: u64) -> InstallAction {
    assert_eq!(installer.step(InstallEvent::ChunkReceived { len }), InstallAction::WriteChunk);
    assert_eq!(installer.phase(), InstallPhase::Writing);
    installer.step(InstallEvent::ChunkWritten)
}

fn failed_with(action: InstallAction, kind: ErrorKind, rendered: &str) {
    match action {
        InstallAction::Fail(e) => {
            assert_eq!(e.kind(), kind);
            assert_eq!(e.render(), rendered);
        }
        other => panic!("{:?}", other),
    }
}

#[test]
fn a_new_installation_waits_for_the_response() {
    let installer = Installer::new(DESTINATION);
    assert_eq!(installer.phase(), InstallPhase::Requesting);
    assert_eq!(installer.total(), 0);
    assert_eq!(installer.position(), 0);
    assert_eq!(installer.mode(), None);
}

#[test]
fn install_writes_every_chunk_and_sets_the_mode() {
    let mut installer = streaming(10);
    assert_eq!(installer.total(), 10);
    assert_eq!(write_chunk(&mut installer, 4), InstallAction::Advance { position: 4 });
    assert_eq!(write_chunk(&mut installer, 0), InstallAction::Advance { position: 4 });
    assert_eq!(write_chunk(&mut installer, 6), InstallAction::Advance { position: 10 });
    assert_eq!(installer.phase(), InstallPhase::Streaming);
    assert_eq!(installer.mode(), None);
    assert_eq!(
        installer.step(InstallEvent::StreamEnded),
        InstallAction::SetPermissions { mode: 0o755 }
    );
    assert_eq!(installer.phase(), InstallPhase::Finalizing);
    assert_eq!(installer.step(InstallEvent::PermissionsSet), InstallAction::Done);
    assert_eq!(installer.phase(), InstallPhase::Installed);
    assert_eq!(installer.position(), 10);
    assert_eq!(installer.mode(), Some(0o755));
}

#[test]
fn the_mode_lets_everyone_execute() {
    assert_eq!(EXECUTABLE_MODE, 0o755);
    assert_eq!(EXECUTABLE_MODE & EXECUTE_BITS, 0o111);
    assert_eq!(EXECUTABLE_MODE & 0o600, 0o600);
}

#[test]
fn progress_never_exceeds_the_announced_length() {
    let mut installer = streaming(10);
    assert_eq!(write_chunk(&mut installer, 7), InstallAction::Advance { position: 7 });
    assert_eq!(write_chunk(&mut installer, 7), InstallAction::Advance { position: 10 });
    assert_eq!(write_chunk(&mut installer, 7), InstallAction::Advance { position: 10 });
    assert_eq!(write_chunk(&mut installer, u64::MAX), InstallAction::Advance { position: 10 });
    assert_eq!(installer.position(), 10);
}

#[test]
fn progress_does_not_overflow() {
    let mut installer = streaming(u64::MAX);
    assert_eq!(write_chunk(&mut installer, u64::MAX - 1), InstallAction::Advance { position: u64::MAX - 1 });
    assert_eq!(write_chunk(&mut installer, 5), InstallAction::Advance { position: u64::MAX });
}

#[test]
fn an_empty_stream_is_installed_too() {
    let mut installer = streaming(0);
    assert_eq!(installer.step(InstallEvent::StreamEnded), InstallAction::SetPermissions { mode: 0o755 });
    assert_eq!(installer.step(InstallEvent::PermissionsSet), InstallAction::Done);
    assert_eq!(installer.position(), 0);
}

#[test]
fn a_request_that_fails_is_a_network_error() {
    let mut installer = Installer::new(DESTINATION);
    let action = installer.step(InstallEvent::RequestFailed { cause: "connection refused".to_string() });
    failed_with(action, ErrorKind::Network, "Download GET request failed: connection refused");
    assert_eq!(installer.phase(), InstallPhase::Failed);
}

#[test]
fn a_response_without_length_is_a_network_error() {
    let mut installer = Installer::new(DESTINATION);
    let action = installer.step(InstallEvent::ResponseReceived { content_length: None });
    failed_with(action, ErrorKind::Network, "Failed to get size of response body.");
    assert_eq!(installer.phase(), InstallPhase::Failed);
}

#[test]
fn a_destination_that_cannot_be_opened_is_an_io_error() {
    let mut installer = Installer::new(DESTINATION);
    installer.step(InstallEvent::ResponseReceived { content_length: Some(3) });
    let action = installer.step(InstallEvent::OpenFailed { cause: "read-only file system".to_string() });
    failed_with(action, ErrorKind::Io, "Failed to access '/opt/neovim/nvim.appimage': read-only file system");
}

#[test]
fn a_stream_that_breaks_leaves_the_destination_not_executable() {
    let mut installer = streaming(10);
    write_chunk(&mut installer, 4);
    let action = installer.step(InstallEvent::ChunkFailed { cause: "reset by peer".to_string() });
    failed_with(action, ErrorKind::Network, "Error while downloading '/opt/neovim/nvim.appimage': reset by peer");
    assert_eq!(installer.phase(), InstallPhase::Failed);
    assert_eq!(installer.position(), 4);
    assert_eq!(installer.mode(), None);
}

#[test]
fn a_chunk_that_cannot_be_written_is_an_io_error() {
    let mut installer = streaming(10);
    installer.step(InstallEvent::ChunkReceived { len: 4 });
    let action = installer.step(InstallEvent::WriteFailed { cause: "no space left".to_string() });
    failed_with(action, ErrorKind::Io, "Error while writing to '/opt/neovim/nvim.appimage': no space left");
    assert_eq!(installer.position(), 0);
    assert_eq!(installer.mode(), None);
}

#[test]
fn permissions_that_cannot_be_set_are_a_permission_error() {
    let mut installer = streaming(2);
    write_chunk(&mut installer, 2);
    installer.step(InstallEvent::StreamEnded);
    let action = installer.step(InstallEvent::PermissionsFailed { cause: "not permitted".to_string() });
    failed_with(
        action,
        ErrorKind::Permission,
        "Failed to set file permissions for '/opt/neovim/nvim.appimage': not permitted",
    );
    assert_eq!(installer.phase(), InstallPhase::Failed);
    assert_eq!(installer.mode(), None);
}

#[test]
fn each_phase_accepts_its_own_events_only() {
    let events = || {
        vec![
            InstallEvent::ResponseReceived { content_length: Some(1) },
            InstallEvent::RequestFailed { cause: String::new() },
            InstallEvent::DestinationOpened,
            InstallEvent::OpenFailed { cause: String::new() },
            InstallEvent::ChunkReceived { len: 1 },
            InstallEvent::ChunkFailed { cause: String::new() },
            InstallEvent::StreamEnded,
            InstallEvent::ChunkWritten,
            InstallEvent::WriteFailed { cause: String::new() },
            InstallEvent::PermissionsSet,
            InstallEvent::PermissionsFailed { cause: String::new() },
        ]
    };
    let accepted = |installer: &Installer| -> Vec<bool> { events().iter().map(|e| installer.accepts(e)).collect() };
    let t = true;
    let f = false;
    let mut installer = Installer::new(DESTINATION);
    assert_eq!(accepted(&installer), vec![t, t, f, f, f, f, f, f, f, f, f]);
    installer.step(InstallEvent::ResponseReceived { content_length: Some(1) });
    assert_eq!(accepted(&installer), vec![f, f, t, t, f, f, f, f, f, f, f]);
    installer.step(InstallEvent::DestinationOpened);
    assert_eq!(accepted(&installer), vec![f, f, f, f, t, t, t, f, f, f, f]);
    installer.step(InstallEvent::ChunkReceived { len: 1 });
    assert_eq!(accepted(&installer), vec![f, f, f, f, f, f, f, t, t, f, f]);
    installer.step(InstallEvent::ChunkWritten);
    installer.step(InstallEvent::StreamEnded);
    assert_eq!(accepted(&installer), vec![f, f, f, f, f, f, f, f, f, t, t]);
    installer.step(InstallEvent::PermissionsSet);
    assert_eq!(accepted(&installer), vec![f; 11]);
    let mut failed = Installer::new(DESTINATION);
    failed.step(InstallEvent::RequestFailed { cause: String::new() });
    assert_eq!(accepted(&failed), vec![f; 11]);
}
