use lanzaboote::sequencer::{Action, BootFailure, Event, Phase, Sequencer};

// Lay out a minimal executable image with one section holding `content`.
fn image_with_section(name: &[u8], content: &[u8]) -> Vec<u8> {
    let total = 160 + content.len();
    let mut img = vec![0u8; total];
    img[0] = 0x4d;
    img[1] = 0x5a;
    img[60..64].copy_from_slice(&64u32.to_le_bytes());
    img[64] = 0x50;
    img[65] = 0x45;
    img[70..72].copy_from_slice(&1u16.to_le_bytes());
    img[88..88 + name.len()].copy_from_slice(name);
    img[104..108].copy_from_slice(&(content.len() as u32).to_le_bytes());
    img[108..112].copy_from_slice(&160u32.to_le_bytes());
    img[160..].copy_from_slice(content);
    img
}

fn ok() -> Event {
    Event::StepDone(Ok(()))
}

// Walk a fresh sequencer through the steps before the device-path query.
fn advance_to_device_path(seq: &mut Sequencer) {
    assert_eq!(seq.initial_action(), Action::InitServices);
    assert_eq!(seq.step(ok()), Action::ShowBanner);
    assert_eq!(seq.step(ok()), Action::OpenOwnFileSystem);
    assert_eq!(seq.step(ok()), Action::OpenOwnVolume);
    assert_eq!(seq.step(ok()), Action::OpenLoadedImage { exclusive: true });
    assert_eq!(seq.step(ok()), Action::QueryDevicePath);
}

// Walk a fresh sequencer up to the whole-file read of its own image.
fn advance_to_own_read(seq: &mut Sequencer) {
    advance_to_device_path(seq);
    assert_eq!(seq.step(Event::PresenceChecked(true)), Action::FindTextConverter);
    assert_eq!(seq.step(ok()), Action::OpenTextConverter);
    assert_eq!(
        seq.step(ok()),
        Action::ConvertDevicePath { display_only: false, allow_shortcuts: false }
    );
    let own_path = String::from("\\EFI\\BOOT\\stub.efi");
    assert_eq!(
        seq.step(Event::PathConverted(Ok(own_path.clone()))),
        Action::OpenOwnFile { path: own_path, read_only: true }
    );
    assert_eq!(seq.step(ok()), Action::CheckOwnRegular);
    assert_eq!(seq.step(Event::PresenceChecked(true)), Action::ReadOwnFile);
}

#[test]
fn self_inspect_logs_metadata_section() {
    let img = image_with_section(b".osrel", b"ID=test\n");
    let mut seq = Sequencer::new();
    advance_to_own_read(&mut seq);
    let action = seq.step(Event::FileRead(Ok(img)));
    assert_eq!(action, Action::LogMetadata(String::from("ID=test\n")));
    assert_eq!(seq.step(Event::MetadataLogged), Action::OpenChainFileSystem);
}

#[test]
fn self_inspect_logs_placeholder_for_invalid_utf8() {
    let img = image_with_section(b".osrel", &[0xff, 0xfe, 0xfd]);
    let mut seq = Sequencer::new();
    advance_to_own_read(&mut seq);
    let action = seq.step(Event::FileRead(Ok(img)));
    assert_eq!(action, Action::LogMetadata(String::from("???")));
}

#[test]
fn self_inspect_skips_logging_without_section() {
    let img = image_with_section(b".other", b"ID=test\n");
    let mut seq = Sequencer::new();
    advance_to_own_read(&mut seq);
    assert_eq!(seq.step(Event::FileRead(Ok(img))), Action::OpenChainFileSystem);
}

#[test]
fn full_sequence_reaches_start() {
    let img = image_with_section(b".osrel", b"ID=test\n");
    let kernel = vec![0x4d, 0x5a, 9, 9, 9];
    let mut seq = Sequencer::new();
    advance_to_own_read(&mut seq);
    assert_eq!(
        seq.step(Event::FileRead(Ok(img))),
        Action::LogMetadata(String::from("ID=test\n"))
    );
    assert_eq!(seq.step(Event::MetadataLogged), Action::OpenChainFileSystem);
    assert_eq!(seq.step(ok()), Action::OpenChainVolume);
    assert_eq!(
        seq.step(ok()),
        Action::OpenChainFile { path: String::from("linux.efi"), read_only: true }
    );
    assert_eq!(seq.step(ok()), Action::CheckChainRegular);
    assert_eq!(seq.step(Event::PresenceChecked(true)), Action::ReadChainFile);
    assert_eq!(
        seq.step(Event::FileRead(Ok(kernel.clone()))),
        Action::LoadImage(kernel)
    );
    assert_eq!(seq.step(ok()), Action::StartImage);
    assert_eq!(seq.phase, Phase::AwaitStart);
}

#[test]
fn missing_device_path_aborts_before_chainload() {
    let mut seq = Sequencer::new();
    advance_to_device_path(&mut seq);
    let action = seq.step(Event::PresenceChecked(false));
    assert_eq!(action, Action::Fail(BootFailure::MissingDevicePath));
    assert_eq!(seq.phase, Phase::Terminal(BootFailure::MissingDevicePath));
}

#[test]
fn platform_failure_during_locate_aborts() {
    let mut seq = Sequencer::new();
    assert_eq!(seq.initial_action(), Action::InitServices);
    assert_eq!(seq.step(ok()), Action::ShowBanner);
    assert_eq!(seq.step(ok()), Action::OpenOwnFileSystem);
    let action = seq.step(Event::StepDone(Err(0x8000_0000_0000_000e)));
    assert_eq!(action, Action::Fail(BootFailure::Platform(0x8000_0000_0000_000e)));
    assert_eq!(
        seq.phase,
        Phase::Terminal(BootFailure::Platform(0x8000_0000_0000_000e))
    );
}

#[test]
fn empty_next_stage_still_reaches_load_then_fails() {
    let mut seq = Sequencer { phase: Phase::AwaitChainRead };
    let action = seq.step(Event::FileRead(Ok(Vec::new())));
    match action {
        Action::LoadImage(buf) => assert!(buf.is_empty()),
        other => panic!("expected a load action, got {:?}", other),
    }
    let action = seq.step(Event::StepDone(Err(2)));
    assert_eq!(action, Action::Fail(BootFailure::Platform(2)));
    assert_eq!(seq.phase, Phase::Terminal(BootFailure::Platform(2)));
}

#[test]
fn read_failure_of_own_image_aborts() {
    let mut seq = Sequencer::new();
    advance_to_own_read(&mut seq);
    let action = seq.step(Event::FileRead(Err(7)));
    assert_eq!(action, Action::Fail(BootFailure::Platform(7)));
    assert_eq!(seq.phase, Phase::Terminal(BootFailure::Platform(7)));
}

#[test]
fn file_object_not_regular_aborts() {
    let mut seq = Sequencer { phase: Phase::AwaitOwnRegular };
    let action = seq.step(Event::PresenceChecked(false));
    assert_eq!(action, Action::Fail(BootFailure::NotARegularFile));
    assert_eq!(seq.phase, Phase::Terminal(BootFailure::NotARegularFile));
}

#[test]
fn start_image_returning_is_a_failure() {
    let mut seq = Sequencer { phase: Phase::AwaitStart };
    let action = seq.step(ok());
    assert_eq!(action, Action::Fail(BootFailure::ReturnedFromImage));
    assert_eq!(seq.phase, Phase::Terminal(BootFailure::ReturnedFromImage));
}

#[test]
fn path_conversion_failure_aborts() {
    let mut seq = Sequencer { phase: Phase::AwaitConvertedPath };
    let action = seq.step(Event::PathConverted(Err(9)));
    assert_eq!(action, Action::Fail(BootFailure::Platform(9)));
    assert_eq!(seq.phase, Phase::Terminal(BootFailure::Platform(9)));
}

#[test]
fn failure_statuses_are_non_success() {
    assert_eq!(BootFailure::Platform(5).status(), 5);
    assert_eq!(BootFailure::MissingDevicePath.status(), 0x8000_0000_0000_000e);
    assert_eq!(BootFailure::NotARegularFile.status(), 0x8000_0000_0000_0002);
    assert_eq!(BootFailure::ReturnedFromImage.status(), 0x8000_0000_0000_0015);
}

#[test]
fn start_image_platform_failure_aborts() {
    let mut seq = Sequencer { phase: Phase::AwaitStart };
    let action = seq.step(Event::StepDone(Err(1)));
    assert_eq!(action, Action::Fail(BootFailure::Platform(1)));
    assert_eq!(seq.phase, Phase::Terminal(BootFailure::Platform(1)));
}
