//! The boot sequence as a checked state machine.
//!
//! The stub's run is strictly linear: initialize services, show the banner,
//! locate the running image's own file through the firmware's device-path
//! services, read it whole and log its metadata section, then open, read,
//! load and start the fixed next-stage image. Every platform call is issued
//! by an unverified shell; this module decides, for each reported outcome,
//! what happens next. The first failure anywhere aborts the whole sequence:
//! the machine goes terminal carrying the failure, and a terminal machine
//! never moves again. There is no successful terminal state — success means
//! the started image never handed control back.
//!
//! The shell drives the loop: it performs the [`Action`] the machine asked
//! for, reports the outcome as an [`Event`], and obeys the next [`Action`]
//! that [`Sequencer::step`] hands out, until it is told to fail.

use vstd::prelude::*;
use vstd::string::StringExecFns;
use vstd::utf8::{decode_utf8, valid_utf8};
use crate::pe::{pe_section, spec_pe_section};

verus! {

/// Why a boot attempt ended without transferring control. Every terminal
/// outcome of the sequence is one of these; there is no successful terminal
/// outcome, because success means control left the stub for good.
#[derive(Clone, Copy, Debug, PartialEq, Eq, Structural)]
pub enum BootFailure {
    /// A platform service reported this raw status; it is surfaced verbatim.
    Platform(u64),
    /// The loaded-image information holds no device path for the image.
    MissingDevicePath,
    /// An opened file object was not a regular file.
    NotARegularFile,
    /// The started next-stage image handed control back.
    ReturnedFromImage,
}

/// The raw status the stub returns to the platform loader for a failure:
/// a platform-reported status verbatim, and the platform-defined error code
/// — error bit plus not-found, invalid-parameter or aborted — for the
/// stub's own findings.
pub open spec fn spec_failure_status(f: BootFailure) -> u64 {
    match f {
        BootFailure::Platform(s) => s,
        BootFailure::MissingDevicePath => 0x8000_0000_0000_000eu64,
        BootFailure::NotARegularFile => 0x8000_0000_0000_0002u64,
        BootFailure::ReturnedFromImage => 0x8000_0000_0000_0015u64,
    }
}

impl BootFailure {
    /// The raw status to return for this failure. For every failure of the
    /// stub's own it is a non-success status; a platform-reported status is
    /// surfaced verbatim.
    pub fn status(&self) -> (r: u64)
        ensures
            r == spec_failure_status(*self),
            !(*self matches BootFailure::Platform(_)) ==> r != 0,
    {
        match self {
            BootFailure::Platform(s) => *s,
            BootFailure::MissingDevicePath => 0x8000_0000_0000_000e,
            BootFailure::NotARegularFile => 0x8000_0000_0000_0002,
            BootFailure::ReturnedFromImage => 0x8000_0000_0000_0015,
        }
    }
}

/// What the machine is waiting for: each phase names the platform action it
/// has asked the shell to perform, or the terminal outcome.
#[derive(Clone, Copy, Debug, PartialEq, Eq, Structural)]
pub enum Phase {
    /// Platform service bindings are being initialized.
    AwaitInit,
    /// The console banner is being drawn.
    AwaitBanner,
    /// The filesystem of the running image's origin volume is being opened.
    AwaitOwnFs,
    /// The root directory of that volume is being opened.
    AwaitOwnVolume,
    /// The loaded-image information is being acquired, in exclusive mode.
    AwaitLoadedImage,
    /// The loaded-image information is being asked for the image's device path.
    AwaitDevicePath,
    /// A handle for the device-path-to-text service is being looked up.
    AwaitTextHandle,
    /// The device-path-to-text service is being opened on that handle.
    AwaitTextProtocol,
    /// The device path is being converted to an open-path text.
    AwaitConvertedPath,
    /// The running image's own file is being opened on the volume root.
    AwaitOwnOpen,
    /// The opened file object is being checked to be a regular file.
    AwaitOwnRegular,
    /// The running image's own file is being read whole.
    AwaitOwnRead,
    /// The extracted metadata text is being logged.
    AwaitLogAck,
    /// The filesystem of the origin volume is being opened for the chainload.
    AwaitChainFs,
    /// The root directory is being opened for the chainload.
    AwaitChainVolume,
    /// The next-stage file is being opened by its fixed name.
    AwaitChainOpen,
    /// The next-stage file object is being checked to be a regular file.
    AwaitChainRegular,
    /// The next-stage file is being read whole.
    AwaitChainRead,
    /// The next-stage buffer is being loaded as an image.
    AwaitLoad,
    /// The loaded image is being started; a return means failure.
    AwaitStart,
    /// The sequence ended without transferring control.
    Terminal(BootFailure),
}

/// What the shell reports back after performing an action.
#[derive(Debug, PartialEq, Eq)]
pub enum Event {
    /// A step that yields no value ended with this platform result.
    StepDone(Result<(), u64>),
    /// A queried object was present (`true`) or absent (`false`).
    PresenceChecked(bool),
    /// The device path was converted to this open-path text, or the
    /// conversion failed with this platform status.
    PathConverted(Result<String, u64>),
    /// A whole-file read ended with these bytes, or this platform status.
    FileRead(Result<Vec<u8>, u64>),
    /// The metadata text has been logged.
    MetadataLogged,
}

/// What the shell must do next.
#[derive(Debug, PartialEq, Eq)]
pub enum Action {
    /// Initialize the platform service bindings.
    InitServices,
    /// Clear the console and draw the banner.
    ShowBanner,
    /// Open the filesystem the running image was loaded from.
    OpenOwnFileSystem,
    /// Open that filesystem's root directory.
    OpenOwnVolume,
    /// Acquire the running image's loaded-image information. Exclusive mode
    /// is demanded: shared mode has been seen denied by platforms.
    OpenLoadedImage { exclusive: bool },
    /// Ask the loaded-image information for the image's device path.
    QueryDevicePath,
    /// Look up a handle offering device-path-to-text conversion.
    FindTextConverter,
    /// Open the device-path-to-text service on that handle.
    OpenTextConverter,
    /// Convert the device path to text. The long, unambiguous form is
    /// demanded: display-only off and shortcuts off.
    ConvertDevicePath { display_only: bool, allow_shortcuts: bool },
    /// Open exactly this path against the volume root; read-only is demanded.
    OpenOwnFile { path: String, read_only: bool },
    /// Check that the opened file object is a regular file.
    CheckOwnRegular,
    /// Read the running image's own file whole.
    ReadOwnFile,
    /// Log this metadata text.
    LogMetadata(String),
    /// Open the filesystem again for the chainload.
    OpenChainFileSystem,
    /// Open the root directory again for the chainload.
    OpenChainVolume,
    /// Open exactly this path — the fixed next-stage name — against the
    /// volume root; read-only is demanded.
    OpenChainFile { path: String, read_only: bool },
    /// Check that the next-stage file object is a regular file.
    CheckChainRegular,
    /// Read the next-stage file whole.
    ReadChainFile,
    /// Load this buffer as the next-stage image.
    LoadImage(Vec<u8>),
    /// Start the loaded image; control should not come back.
    StartImage,
    /// Stop: return a non-success status for this failure.
    Fail(BootFailure),
}

/// Name of the metadata section of the running image: `.osrel`.
pub open spec fn osrel_name() -> Seq<u8> {
    seq![0x2eu8, 0x6fu8, 0x73u8, 0x72u8, 0x65u8, 0x6cu8]
}

/// The `.osrel` section name as bytes.
pub fn osrel_name_bytes() -> (r: Vec<u8>)
    ensures
        r@ == osrel_name(),
{
    let mut v: Vec<u8> = Vec::new();
    v.push(0x2e);
    v.push(0x6f);
    v.push(0x73);
    v.push(0x72);
    v.push(0x65);
    v.push(0x6c);
    proof {
        assert(v@ =~= osrel_name());
    }
    v
}

/// Name of the next-stage image file on the origin volume: `linux.efi`.
/// The stub knows no other location; there is no override mechanism.
pub open spec fn chain_file_name() -> Seq<char> {
    "linux.efi"@
}

/// The next-stage file name as a value.
pub fn chain_file_name_text() -> (r: String)
    ensures
        r@ == chain_file_name(),
{
    String::from_str("linux.efi")
}

/// The text logged in place of metadata that is not valid UTF-8.
pub open spec fn placeholder_text() -> Seq<char> {
    "???"@
}

/// The placeholder text as a value.
fn make_placeholder() -> (r: String)
    ensures
        r@ == placeholder_text(),
{
    String::from_str("???")
}

/// The text logged for a running image with the given bytes, provided its
/// metadata section was found: the section decoded as UTF-8, or the fixed
/// placeholder when the bytes are not valid UTF-8.
pub open spec fn metadata_text(img: Seq<u8>) -> Seq<char> {
    match spec_pe_section(img, osrel_name()) {
        Some(range) => {
            let bytes = img.subrange(range.0, range.0 + range.1);
            if valid_utf8(bytes) {
                decode_utf8(bytes)
            } else {
                placeholder_text()
            }
        },
        None => placeholder_text(),
    }
}

/// Decode bytes as UTF-8 text, or nothing when they are not valid UTF-8.
///
/// Relies on `core::str::from_utf8`: it succeeds exactly on valid UTF-8 and
/// returns the text those bytes encode.
#[verifier::external_body]
fn try_utf8(b: &[u8]) -> (r: Option<String>)
    ensures
        r is Some <==> valid_utf8(b@),
        r matches Some(s) ==> s@ == decode_utf8(b@),
{
    core::str::from_utf8(b).ok().map(|s| s.to_string())
}

/// Decode metadata bytes to text, degrading to the fixed placeholder when
/// they are not valid UTF-8 — never an abort, metadata is informational only.
fn utf8_or_placeholder(b: &[u8]) -> (r: String)
    ensures
        r@ == (if valid_utf8(b@) {
            decode_utf8(b@)
        } else {
            placeholder_text()
        }),
{
    match try_utf8(b) {
        Some(s) => s,
        None => make_placeholder(),
    }
}

/// Whether an event is the one the machine is waiting for in this phase.
/// A terminal machine accepts nothing.
pub open spec fn accepts(p: Phase, e: Event) -> bool {
    match (p, e) {
        (Phase::AwaitInit, Event::StepDone(_)) => true,
        (Phase::AwaitBanner, Event::StepDone(_)) => true,
        (Phase::AwaitOwnFs, Event::StepDone(_)) => true,
        (Phase::AwaitOwnVolume, Event::StepDone(_)) => true,
        (Phase::AwaitLoadedImage, Event::StepDone(_)) => true,
        (Phase::AwaitDevicePath, Event::PresenceChecked(_)) => true,
        (Phase::AwaitTextHandle, Event::StepDone(_)) => true,
        (Phase::AwaitTextProtocol, Event::StepDone(_)) => true,
        (Phase::AwaitConvertedPath, Event::PathConverted(_)) => true,
        (Phase::AwaitOwnOpen, Event::StepDone(_)) => true,
        (Phase::AwaitOwnRegular, Event::PresenceChecked(_)) => true,
        (Phase::AwaitOwnRead, Event::FileRead(_)) => true,
        (Phase::AwaitLogAck, Event::MetadataLogged) => true,
        (Phase::AwaitChainFs, Event::StepDone(_)) => true,
        (Phase::AwaitChainVolume, Event::StepDone(_)) => true,
        (Phase::AwaitChainOpen, Event::StepDone(_)) => true,
        (Phase::AwaitChainRegular, Event::PresenceChecked(_)) => true,
        (Phase::AwaitChainRead, Event::FileRead(_)) => true,
        (Phase::AwaitLoad, Event::StepDone(_)) => true,
        (Phase::AwaitStart, Event::StepDone(_)) => true,
        _ => false,
    }
}

/// Go on to `next` on success; abort with the platform's own status on failure.
pub open spec fn advance_or_abort(r: Result<(), u64>, next: Phase) -> Phase {
    match r {
        Ok(_) => next,
        Err(s) => Phase::Terminal(BootFailure::Platform(s)),
    }
}

/// The phase after taking `e` in phase `p`. An event the phase does not
/// accept moves nothing; in particular a terminal phase is final.
pub open spec fn next_phase(p: Phase, e: Event) -> Phase {
    if !accepts(p, e) {
        p
    } else {
        match (p, e) {
            (Phase::AwaitInit, Event::StepDone(r)) => advance_or_abort(r, Phase::AwaitBanner),
            (Phase::AwaitBanner, Event::StepDone(r)) => advance_or_abort(r, Phase::AwaitOwnFs),
            (Phase::AwaitOwnFs, Event::StepDone(r)) => advance_or_abort(r, Phase::AwaitOwnVolume),
            (Phase::AwaitOwnVolume, Event::StepDone(r)) => advance_or_abort(
                r,
                Phase::AwaitLoadedImage,
            ),
            (Phase::AwaitLoadedImage, Event::StepDone(r)) => advance_or_abort(
                r,
                Phase::AwaitDevicePath,
            ),
            (Phase::AwaitDevicePath, Event::PresenceChecked(found)) => if found {
                Phase::AwaitTextHandle
            } else {
                Phase::Terminal(BootFailure::MissingDevicePath)
            },
            (Phase::AwaitTextHandle, Event::StepDone(r)) => advance_or_abort(
                r,
                Phase::AwaitTextProtocol,
            ),
            (Phase::AwaitTextProtocol, Event::StepDone(r)) => advance_or_abort(
                r,
                Phase::AwaitConvertedPath,
            ),
            (Phase::AwaitConvertedPath, Event::PathConverted(r)) => match r {
                Ok(_) => Phase::AwaitOwnOpen,
                Err(s) => Phase::Terminal(BootFailure::Platform(s)),
            },
            (Phase::AwaitOwnOpen, Event::StepDone(r)) => advance_or_abort(
                r,
                Phase::AwaitOwnRegular,
            ),
            (Phase::AwaitOwnRegular, Event::PresenceChecked(regular)) => if regular {
                Phase::AwaitOwnRead
            } else {
                Phase::Terminal(BootFailure::NotARegularFile)
            },
            (Phase::AwaitOwnRead, Event::FileRead(r)) => match r {
                Ok(bytes) => if spec_pe_section(bytes@, osrel_name()) is Some {
                    Phase::AwaitLogAck
                } else {
                    Phase::AwaitChainFs
                },
                Err(s) => Phase::Terminal(BootFailure::Platform(s)),
            },
            (Phase::AwaitLogAck, Event::MetadataLogged) => Phase::AwaitChainFs,
            (Phase::AwaitChainFs, Event::StepDone(r)) => advance_or_abort(
                r,
                Phase::AwaitChainVolume,
            ),
            (Phase::AwaitChainVolume, Event::StepDone(r)) => advance_or_abort(
                r,
                Phase::AwaitChainOpen,
            ),
            (Phase::AwaitChainOpen, Event::StepDone(r)) => advance_or_abort(
                r,
                Phase::AwaitChainRegular,
            ),
            (Phase::AwaitChainRegular, Event::PresenceChecked(regular)) => if regular {
                Phase::AwaitChainRead
            } else {
                Phase::Terminal(BootFailure::NotARegularFile)
            },
            (Phase::AwaitChainRead, Event::FileRead(r)) => match r {
                Ok(_) => Phase::AwaitLoad,
                Err(s) => Phase::Terminal(BootFailure::Platform(s)),
            },
            (Phase::AwaitLoad, Event::StepDone(r)) => advance_or_abort(r, Phase::AwaitStart),
            (Phase::AwaitStart, Event::StepDone(r)) => match r {
                Ok(_) => Phase::Terminal(BootFailure::ReturnedFromImage),
                Err(s) => Phase::Terminal(BootFailure::Platform(s)),
            },
            _ => p,
        }
    }
}

/// The action a step must emit: the one the phase it moved to waits for,
/// with the data that flows from the event into it — the metadata text for
/// the log step, the file's bytes for the load step, the failure for an abort.
pub open spec fn action_matches(p: Phase, e: Event, a: Action) -> bool {
    match next_phase(p, e) {
        Phase::AwaitInit => a == Action::InitServices,
        Phase::AwaitBanner => a == Action::ShowBanner,
        Phase::AwaitOwnFs => a == Action::OpenOwnFileSystem,
        Phase::AwaitOwnVolume => a == Action::OpenOwnVolume,
        Phase::AwaitLoadedImage => a == (Action::OpenLoadedImage { exclusive: true }),
        Phase::AwaitDevicePath => a == Action::QueryDevicePath,
        Phase::AwaitTextHandle => a == Action::FindTextConverter,
        Phase::AwaitTextProtocol => a == Action::OpenTextConverter,
        Phase::AwaitConvertedPath => a == (Action::ConvertDevicePath {
            display_only: false,
            allow_shortcuts: false,
        }),
        Phase::AwaitOwnOpen => e matches Event::PathConverted(r) && r matches Ok(text)
            && a matches Action::OpenOwnFile { path, read_only } && path@ == text@ && read_only,
        Phase::AwaitOwnRegular => a == Action::CheckOwnRegular,
        Phase::AwaitOwnRead => a == Action::ReadOwnFile,
        Phase::AwaitLogAck => e matches Event::FileRead(r) && r matches Ok(bytes) && a matches Action::LogMetadata(s)
            && s@ == metadata_text(bytes@),
        Phase::AwaitChainFs => a == Action::OpenChainFileSystem,
        Phase::AwaitChainVolume => a == Action::OpenChainVolume,
        Phase::AwaitChainOpen => a matches Action::OpenChainFile { path, read_only } && path@
            == chain_file_name() && read_only,
        Phase::AwaitChainRegular => a == Action::CheckChainRegular,
        Phase::AwaitChainRead => a == Action::ReadChainFile,
        Phase::AwaitLoad => e matches Event::FileRead(r) && r matches Ok(bytes) && a matches Action::LoadImage(buf)
            && buf@ == bytes@,
        Phase::AwaitStart => a == Action::StartImage,
        Phase::Terminal(f) => a == Action::Fail(f),
    }
}

/// The boot sequence, from service initialization to transfer of control.
pub struct Sequencer {
    /// What the machine is waiting for.
    pub phase: Phase,
}

impl Sequencer {
    /// A fresh sequence; its first demand is initializing the services.
    pub fn new() -> (s: Self)
        ensures
            s.phase == Phase::AwaitInit,
    {
        Sequencer { phase: Phase::AwaitInit }
    }

    /// The first action of a fresh sequence.
    pub fn initial_action(&self) -> (a: Action)
        requires
            self.phase == Phase::AwaitInit,
        ensures
            a == Action::InitServices,
    {
        Action::InitServices
    }

    /// Abort: go terminal with `f` and tell the shell to fail.
    fn abort(&mut self, f: BootFailure) -> (a: Action)
        ensures
            final(self).phase == Phase::Terminal(f),
            a == Action::Fail(f),
    {
        self.phase = Phase::Terminal(f);
        Action::Fail(f)
    }

    /// Take the outcome the shell reported and say what to do next.
    pub fn step(&mut self, e: Event) -> (a: Action)
        requires
            accepts(old(self).phase, e),
        ensures
            final(self).phase == next_phase(old(self).phase, e),
            action_matches(old(self).phase, e, a),
    {
        let ph = self.phase;
        match (ph, e) {
            (Phase::AwaitInit, Event::StepDone(r)) => match r {
                Ok(_) => {
                    self.phase = Phase::AwaitBanner;
                    Action::ShowBanner
                },
                Err(s) => self.abort(BootFailure::Platform(s)),
            },
            (Phase::AwaitBanner, Event::StepDone(r)) => match r {
                Ok(_) => {
                    self.phase = Phase::AwaitOwnFs;
                    Action::OpenOwnFileSystem
                },
                Err(s) => self.abort(BootFailure::Platform(s)),
            },
            (Phase::AwaitOwnFs, Event::StepDone(r)) => match r {
                Ok(_) => {
                    self.phase = Phase::AwaitOwnVolume;
                    Action::OpenOwnVolume
                },
                Err(s) => self.abort(BootFailure::Platform(s)),
            },
            (Phase::AwaitOwnVolume, Event::StepDone(r)) => match r {
                Ok(_) => {
                    self.phase = Phase::AwaitLoadedImage;
                    Action::OpenLoadedImage { exclusive: true }
                },
                Err(s) => self.abort(BootFailure::Platform(s)),
            },
            (Phase::AwaitLoadedImage, Event::StepDone(r)) => match r {
                Ok(_) => {
                    self.phase = Phase::AwaitDevicePath;
                    Action::QueryDevicePath
                },
                Err(s) => self.abort(BootFailure::Platform(s)),
            },
            (Phase::AwaitDevicePath, Event::PresenceChecked(found)) => if found {
                self.phase = Phase::AwaitTextHandle;
                Action::FindTextConverter
            } else {
                self.abort(BootFailure::MissingDevicePath)
            },
            (Phase::AwaitTextHandle, Event::StepDone(r)) => match r {
                Ok(_) => {
                    self.phase = Phase::AwaitTextProtocol;
                    Action::OpenTextConverter
                },
                Err(s) => self.abort(BootFailure::Platform(s)),
            },
            (Phase::AwaitTextProtocol, Event::StepDone(r)) => match r {
                Ok(_) => {
                    self.phase = Phase::AwaitConvertedPath;
                    Action::ConvertDevicePath { display_only: false, allow_shortcuts: false }
                },
                Err(s) => self.abort(BootFailure::Platform(s)),
            },
            (Phase::AwaitConvertedPath, Event::PathConverted(r)) => match r {
                Ok(text) => {
                    self.phase = Phase::AwaitOwnOpen;
                    Action::OpenOwnFile { path: text, read_only: true }
                },
                Err(s) => self.abort(BootFailure::Platform(s)),
            },
            (Phase::AwaitOwnOpen, Event::StepDone(r)) => match r {
                Ok(_) => {
                    self.phase = Phase::AwaitOwnRegular;
                    Action::CheckOwnRegular
                },
                Err(s) => self.abort(BootFailure::Platform(s)),
            },
            (Phase::AwaitOwnRegular, Event::PresenceChecked(regular)) => if regular {
                self.phase = Phase::AwaitOwnRead;
                Action::ReadOwnFile
            } else {
                self.abort(BootFailure::NotARegularFile)
            },
            (Phase::AwaitOwnRead, Event::FileRead(r)) => match r {
                Ok(bytes) => {
                    let name = osrel_name_bytes();
                    match pe_section(bytes.as_slice(), name.as_slice()) {
                        Some(sec) => {
                            let text = utf8_or_placeholder(sec);
                            self.phase = Phase::AwaitLogAck;
                            Action::LogMetadata(text)
                        },
                        None => {
                            self.phase = Phase::AwaitChainFs;
                            Action::OpenChainFileSystem
                        },
                    }
                },
                Err(s) => self.abort(BootFailure::Platform(s)),
            },
            (Phase::AwaitLogAck, Event::MetadataLogged) => {
                self.phase = Phase::AwaitChainFs;
                Action::OpenChainFileSystem
            },
            (Phase::AwaitChainFs, Event::StepDone(r)) => match r {
                Ok(_) => {
                    self.phase = Phase::AwaitChainVolume;
                    Action::OpenChainVolume
                },
                Err(s) => self.abort(BootFailure::Platform(s)),
            },
            (Phase::AwaitChainVolume, Event::StepDone(r)) => match r {
                Ok(_) => {
                    self.phase = Phase::AwaitChainOpen;
                    Action::OpenChainFile { path: chain_file_name_text(), read_only: true }
                },
                Err(s) => self.abort(BootFailure::Platform(s)),
            },
            (Phase::AwaitChainOpen, Event::StepDone(r)) => match r {
                Ok(_) => {
                    self.phase = Phase::AwaitChainRegular;
                    Action::CheckChainRegular
                },
                Err(s) => self.abort(BootFailure::Platform(s)),
            },
            (Phase::AwaitChainRegular, Event::PresenceChecked(regular)) => if regular {
                self.phase = Phase::AwaitChainRead;
                Action::ReadChainFile
            } else {
                self.abort(BootFailure::NotARegularFile)
            },
            (Phase::AwaitChainRead, Event::FileRead(r)) => match r {
                Ok(bytes) => {
                    self.phase = Phase::AwaitLoad;
                    Action::LoadImage(bytes)
                },
                Err(s) => self.abort(BootFailure::Platform(s)),
            },
            (Phase::AwaitLoad, Event::StepDone(r)) => match r {
                Ok(_) => {
                    self.phase = Phase::AwaitStart;
                    Action::StartImage
                },
                Err(s) => self.abort(BootFailure::Platform(s)),
            },
            (Phase::AwaitStart, Event::StepDone(r)) => match r {
                Ok(_) => self.abort(BootFailure::ReturnedFromImage),
                Err(s) => self.abort(BootFailure::Platform(s)),
            },
            _ => vstd::pervasive::unreached(),
        }
    }
}

/// A run of the machine: the phase reached after taking `events` in order.
pub open spec fn run(p: Phase, events: Seq<Event>) -> Phase
    decreases events.len(),
{
    if events.len() == 0 {
        p
    } else {
        run(next_phase(p, events.first()), events.drop_first())
    }
}

/// A terminal machine is final: it accepts no event, and no run of any
/// further events moves it.
pub proof fn lemma_terminal_is_final(f: BootFailure, events: Seq<Event>)
    ensures
        forall|e: Event| !accepts(Phase::Terminal(f), e),
        run(Phase::Terminal(f), events) == Phase::Terminal(f),
    decreases events.len(),
{
    if events.len() > 0 {
        lemma_terminal_is_final(f, events.drop_first());
    }
}

/// Every platform failure report aborts the whole sequence at once: wherever
/// the machine stands, a failed outcome makes it terminal with that very
/// status, and the emitted action is the abort. There is no retry and no
/// partial continuation.
pub proof fn lemma_platform_failure_aborts(p: Phase, e: Event, s: u64, a: Action)
    requires
        accepts(p, e),
        e == Event::StepDone(Result::<(), u64>::Err(s)) || e == Event::FileRead(
            Result::<Vec<u8>, u64>::Err(s),
        ) || e == Event::PathConverted(Result::<String, u64>::Err(s)),
    ensures
        next_phase(p, e) == Phase::Terminal(BootFailure::Platform(s)),
        action_matches(p, e, a) ==> a == Action::Fail(BootFailure::Platform(s)),
{
}

/// A failed device-path query aborts before anything of the chainload is
/// ever attempted: the machine goes terminal at once with a non-success
/// outcome, the emitted action is the abort, and no sequence of later events
/// reaches any other phase.
pub proof fn lemma_missing_device_path_aborts(a: Action, events: Seq<Event>)
    ensures
        next_phase(Phase::AwaitDevicePath, Event::PresenceChecked(false)) == Phase::Terminal(
            BootFailure::MissingDevicePath,
        ),
        action_matches(Phase::AwaitDevicePath, Event::PresenceChecked(false), a) ==> a
            == Action::Fail(BootFailure::MissingDevicePath),
        run(next_phase(Phase::AwaitDevicePath, Event::PresenceChecked(false)), events)
            == Phase::Terminal(BootFailure::MissingDevicePath),
        spec_failure_status(BootFailure::MissingDevicePath) != 0,
{
    lemma_terminal_is_final(BootFailure::MissingDevicePath, events);
}

/// A zero-length next-stage file is not special-cased away: its empty buffer
/// is still handed to the platform's load step, and when the platform rejects
/// it, the run ends terminal with the platform's own status — a non-success
/// outcome, not a crash.
pub proof fn lemma_empty_next_stage_loads_then_fails(buf: Vec<u8>, s: u64, a: Action, a2: Action)
    requires
        buf@.len() == 0,
    ensures
        next_phase(Phase::AwaitChainRead, Event::FileRead(Result::<Vec<u8>, u64>::Ok(buf)))
            == Phase::AwaitLoad,
        action_matches(Phase::AwaitChainRead, Event::FileRead(Result::<Vec<u8>, u64>::Ok(buf)), a)
            ==> (a matches Action::LoadImage(b) && b@.len() == 0),
        next_phase(Phase::AwaitLoad, Event::StepDone(Result::<(), u64>::Err(s))) == Phase::Terminal(
            BootFailure::Platform(s),
        ),
        action_matches(Phase::AwaitLoad, Event::StepDone(Result::<(), u64>::Err(s)), a2) ==> a2
            == Action::Fail(BootFailure::Platform(s)),
{
}

/// Metadata whose section is present but not valid UTF-8 degrades to the
/// fixed placeholder instead of aborting the sequence.
pub proof fn lemma_invalid_utf8_degrades(img: Seq<u8>, range: (int, int))
    requires
        spec_pe_section(img, osrel_name()) == Some(range),
        !valid_utf8(img.subrange(range.0, range.0 + range.1)),
    ensures
        metadata_text(img) == placeholder_text(),
{
}

} // verus!
