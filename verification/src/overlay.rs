//! The overlay process seen from the tracker: the commands it takes, how a
//! command travels to it, where its executable is looked for, and when it is
//! started, stopped and written to.

use crate::model::{CurrentRoundInfo, RoundView, VrOverlayPosition};
use crate::terror::{
    info_views, overlay_terrors, terrors_given, TerrorData, TerrorView, VrTerrorInfo,
};
use crate::text::views;
use base64::Engine;
use vstd::prelude::*;
use vstd::string::StringExecFns;

verus! {

/// A command for the overlay.
#[derive(Debug, Clone, PartialEq, Eq)]
pub enum VrCommand {
    UpdateTerrors { terrors: Vec<VrTerrorInfo>, round_type: String },
    SetPosition { position: VrOverlayPosition },
    Clear,
    Quit,
}

pub enum VrCommandView {
    UpdateTerrors { terrors: Seq<TerrorView>, round_type: Seq<char> },
    SetPosition { position: VrOverlayPosition },
    Clear,
    Quit,
}

impl View for VrCommand {
    type V = VrCommandView;

    open spec fn view(&self) -> VrCommandView {
        match self {
            VrCommand::UpdateTerrors { terrors, round_type } => VrCommandView::UpdateTerrors {
                terrors: info_views(terrors@),
                round_type: round_type@,
            },
            VrCommand::SetPosition { position } => VrCommandView::SetPosition {
                position: *position,
            },
            VrCommand::Clear => VrCommandView::Clear,
            VrCommand::Quit => VrCommandView::Quit,
        }
    }
}

/// The value of the `--position` argument that the overlay is started with.
pub fn position_arg(position: VrOverlayPosition) -> (r: &'static str)
    ensures
        r@ == (match position {
            VrOverlayPosition::RightHand => "right"@,
            VrOverlayPosition::LeftHand => "left"@,
            VrOverlayPosition::Above => "above"@,
        }),
{
    match position {
        VrOverlayPosition::RightHand => "right",
        VrOverlayPosition::LeftHand => "left",
        VrOverlayPosition::Above => "above",
    }
}

/// The position that a settings form names; the right hand for any name
/// that is not known.
pub open spec fn named_position(name: Seq<char>) -> VrOverlayPosition {
    if name == "LeftHand"@ {
        VrOverlayPosition::LeftHand
    } else if name == "Above"@ {
        VrOverlayPosition::Above
    } else {
        VrOverlayPosition::RightHand
    }
}

/// Reads a position by its name.
pub fn parse_position(name: &str) -> (r: VrOverlayPosition)
    ensures
        r == named_position(name@),
{
    let given = name.to_owned();
    if given == "LeftHand".to_owned() {
        VrOverlayPosition::LeftHand
    } else if given == "Above".to_owned() {
        VrOverlayPosition::Above
    } else {
        VrOverlayPosition::RightHand
    }
}

/// The text that `base64`'s standard engine, with padding, encodes bytes to.
pub uninterp spec fn base64_standard(bytes: Seq<u8>) -> Seq<char>;

/// `Engine::encode` on `general_purpose::STANDARD` encodes bytes with the
/// standard alphabet and padding. It panics only where the encoded length
/// does not fit a `usize`, which no slice is long enough for.
#[verifier::external_body]
fn base64_encode(bytes: &[u8]) -> (r: String)
    ensures
        r@ == base64_standard(bytes@),
{
    base64::engine::general_purpose::STANDARD.encode(bytes)
}

/// What marks a line as an encoded command.
pub const FRAME_PREFIX: &'static str = "b64:";

/// The line that carries a serialised command: the prefix, the payload in
/// base64, and a line feed.
pub open spec fn command_line(payload: Seq<u8>) -> Seq<char> {
    (FRAME_PREFIX@ + base64_standard(payload)).push('\n')
}

/// Frames a serialised command as one line for the overlay's input.
pub fn frame_command(payload: &[u8]) -> (r: String)
    ensures
        r@ == command_line(payload@),
{
    let mut line = FRAME_PREFIX.to_owned();
    let encoded = base64_encode(payload);
    line.append(encoded.as_str());
    line.push('\n');
    line
}


/// The round type that the overlay is told when the round has none.
pub const SHOWN_DEFAULT_ROUND_TYPE: &'static str = "Classic";

/// The round type that the overlay is told for a round.
pub open spec fn shown_type(round: RoundView) -> Seq<char> {
    match round.round_type {
        Some(t) => t,
        None => SHOWN_DEFAULT_ROUND_TYPE@,
    }
}

/// `command` tells the overlay the killers of `round`, each as `lookup` may
/// give it, and the round type.
pub open spec fn is_update_for<L: Fn(u32, &str) -> TerrorData>(
    lookup: &L,
    round: RoundView,
    command: VrCommandView,
) -> bool {
    match command {
        VrCommandView::UpdateTerrors { terrors, round_type } => round_type == shown_type(round)
            && terrors_given(lookup, round.killers, shown_type(round), terrors),
        _ => false,
    }
}

/// The command that shows the killers of a round.
pub fn update_terrors<L: Fn(u32, &str) -> TerrorData>(round: &CurrentRoundInfo, lookup: &L) -> (r:
    VrCommand)
    requires
        forall|id: u32, rt: &str| call_requires(*lookup, (id, rt)),
    ensures
        is_update_for(lookup, round@, r@),
{
    let round_type = match &round.round_type {
        Some(t) => t.clone(),
        None => SHOWN_DEFAULT_ROUND_TYPE.to_owned(),
    };
    let terrors = overlay_terrors(&round.killers, round_type.as_str(), lookup);
    VrCommand::UpdateTerrors { terrors, round_type }
}

/// Where a candidate path for the overlay's executable starts.
#[derive(Debug, Clone, Copy, PartialEq, Eq, Structural)]
pub enum CandidateBase {
    /// The directory of the running executable.
    ExecutableDir,
    /// The directory of bundled resources.
    ResourceDir,
    /// A name resolved against the bundled resources.
    ResourceLookup,
}

/// A place to look for the overlay's executable: a base and the path below it.
#[derive(Debug, Clone, PartialEq, Eq)]
pub struct OverlayCandidate {
    pub base: CandidateBase,
    pub path: Vec<String>,
}

pub struct CandidateView {
    pub base: CandidateBase,
    pub path: Seq<Seq<char>>,
}

impl View for OverlayCandidate {
    type V = CandidateView;

    open spec fn view(&self) -> CandidateView {
        CandidateView { base: self.base, path: views(self.path@) }
    }
}

/// The views of a list of candidates.
pub open spec fn candidate_views(v: Seq<OverlayCandidate>) -> Seq<CandidateView> {
    v.map_values(|c: OverlayCandidate| c@)
}

/// The places where the overlay's executable is looked for, in order: beside
/// the running executable, then in the resource directory and its `binaries`
/// directory under the names of the platform, then by a resource lookup.
pub open spec fn candidate_order(windows: bool) -> Seq<CandidateView> {
    let beside = CandidateView {
        base: CandidateBase::ExecutableDir,
        path: seq!["vr-overlay.exe"@],
    };
    let lookup = CandidateView {
        base: CandidateBase::ResourceLookup,
        path: seq!["vr-overlay.exe"@],
    };
    if windows {
        seq![
            beside,
            CandidateView { base: CandidateBase::ResourceDir, path: seq!["vr-overlay.exe"@] },
            CandidateView {
                base: CandidateBase::ResourceDir,
                path: seq!["binaries"@, "vr-overlay.exe"@],
            },
            CandidateView {
                base: CandidateBase::ResourceDir,
                path: seq!["binaries"@, "vr-overlay-x86_64-pc-windows-msvc.exe"@],
            },
            lookup,
        ]
    } else {
        seq![
            beside,
            CandidateView { base: CandidateBase::ResourceDir, path: seq!["vr-overlay"@] },
            CandidateView {
                base: CandidateBase::ResourceDir,
                path: seq!["binaries"@, "vr-overlay"@],
            },
            lookup,
        ]
    }
}

fn candidate(base: CandidateBase, first: &str, second: Option<&str>) -> (r: OverlayCandidate)
    ensures
        r@.base == base,
        r@.path == (match second {
            Some(s) => seq![first@, s@],
            None => seq![first@],
        }),
{
    let mut path: Vec<String> = Vec::new();
    path.push(first.to_owned());
    match second {
        Some(s) => {
            path.push(s.to_owned());
        },
        None => {},
    }
    OverlayCandidate { base, path }
}

/// Lists the places where the overlay's executable is looked for.
pub fn overlay_candidates(windows: bool) -> (r: Vec<OverlayCandidate>)
    ensures
        candidate_views(r@) == candidate_order(windows),
{
    let mut out: Vec<OverlayCandidate> = Vec::new();
    out.push(candidate(CandidateBase::ExecutableDir, "vr-overlay.exe", None));
    if windows {
        out.push(candidate(CandidateBase::ResourceDir, "vr-overlay.exe", None));
        out.push(candidate(CandidateBase::ResourceDir, "binaries", Some("vr-overlay.exe")));
        out.push(
            candidate(
                CandidateBase::ResourceDir,
                "binaries",
                Some("vr-overlay-x86_64-pc-windows-msvc.exe"),
            ),
        );
    } else {
        out.push(candidate(CandidateBase::ResourceDir, "vr-overlay", None));
        out.push(candidate(CandidateBase::ResourceDir, "binaries", Some("vr-overlay")));
    }
    out.push(candidate(CandidateBase::ResourceLookup, "vr-overlay.exe", None));
    out
}

/// Picks the first candidate that exists.
pub fn first_existing(exists: &Vec<bool>) -> (r: Option<usize>)
    ensures
        match r {
            Some(i) => i < exists.len() && exists@[i as int] && forall|j: int|
                0 <= j < i ==> !exists@[j],
            None => forall|j: int| 0 <= j < exists.len() ==> !exists@[j],
        },
{
    let mut i: usize = 0;
    while i < exists.len()
        invariant
            i <= exists.len(),
            forall|j: int| 0 <= j < i ==> !exists@[j],
        decreases exists.len() - i,
    {
        if exists[i] {
            return Some(i);
        }
        i += 1;
    }
    None
}

/// Whether the overlay process is held.
#[derive(Debug, Clone, Copy, PartialEq, Eq, Structural)]
pub enum OverlayStatus {
    Stopped,
    Running,
}

/// Why an operation on the overlay failed.
#[derive(Debug, Clone, Copy, PartialEq, Eq, Structural)]
pub enum OverlayError {
    /// No candidate path holds the executable.
    NotFound,
    /// The executable was found and could not be started.
    SpawnFailed,
    /// A command could not be written to the overlay.
    Io,
}

/// What is asked of the supervisor, or reported back to it.
#[derive(Debug, Clone, Copy, PartialEq, Eq, Structural)]
pub enum SupervisorEvent {
    StartRequested,
    BinaryMissing,
    SpawnFailed,
    Spawned,
    StopRequested,
    SendRequested,
    WriteFailed,
}

/// What the supervisor's caller does next.
#[derive(Debug, Clone, Copy, PartialEq, Eq, Structural)]
pub enum SupervisorAction {
    Nothing,
    /// Look for the executable and start it with its pipes captured.
    Launch,
    /// Send the quit command, wait `STOP_GRACE_MILLIS`, then kill and reap.
    QuitThenKill,
    /// Write one framed command and flush.
    WriteLine,
    Fail(OverlayError),
}

/// How long a stopping overlay is given before it is killed.
pub const STOP_GRACE_MILLIS: u64 = 100;

/// The supervisor's next status and action. Starting a running overlay,
/// and stopping or writing to a stopped one, do nothing. A failed start
/// leaves it stopped; a failed write leaves it running.
pub open spec fn supervised(status: OverlayStatus, event: SupervisorEvent) -> (
    OverlayStatus,
    SupervisorAction,
) {
    match (status, event) {
        (OverlayStatus::Stopped, SupervisorEvent::StartRequested) => (
            OverlayStatus::Stopped,
            SupervisorAction::Launch,
        ),
        (OverlayStatus::Stopped, SupervisorEvent::BinaryMissing) => (
            OverlayStatus::Stopped,
            SupervisorAction::Fail(OverlayError::NotFound),
        ),
        (OverlayStatus::Stopped, SupervisorEvent::SpawnFailed) => (
            OverlayStatus::Stopped,
            SupervisorAction::Fail(OverlayError::SpawnFailed),
        ),
        (OverlayStatus::Stopped, SupervisorEvent::Spawned) => (
            OverlayStatus::Running,
            SupervisorAction::Nothing,
        ),
        (OverlayStatus::Running, SupervisorEvent::StopRequested) => (
            OverlayStatus::Stopped,
            SupervisorAction::QuitThenKill,
        ),
        (OverlayStatus::Running, SupervisorEvent::SendRequested) => (
            OverlayStatus::Running,
            SupervisorAction::WriteLine,
        ),
        (OverlayStatus::Running, SupervisorEvent::WriteFailed) => (
            OverlayStatus::Running,
            SupervisorAction::Fail(OverlayError::Io),
        ),
        _ => (status, SupervisorAction::Nothing),
    }
}

/// Decides what the supervisor does on an event.
pub fn supervise(status: OverlayStatus, event: SupervisorEvent) -> (r: (
    OverlayStatus,
    SupervisorAction,
))
    ensures
        r == supervised(status, event),
{
    match status {
        OverlayStatus::Stopped => match event {
            SupervisorEvent::StartRequested => (OverlayStatus::Stopped, SupervisorAction::Launch),
            SupervisorEvent::BinaryMissing => (
                OverlayStatus::Stopped,
                SupervisorAction::Fail(OverlayError::NotFound),
            ),
            SupervisorEvent::SpawnFailed => (
                OverlayStatus::Stopped,
                SupervisorAction::Fail(OverlayError::SpawnFailed),
            ),
            SupervisorEvent::Spawned => (OverlayStatus::Running, SupervisorAction::Nothing),
            _ => (OverlayStatus::Stopped, SupervisorAction::Nothing),
        },
        OverlayStatus::Running => match event {
            SupervisorEvent::StopRequested => (
                OverlayStatus::Stopped,
                SupervisorAction::QuitThenKill,
            ),
            SupervisorEvent::SendRequested => (OverlayStatus::Running, SupervisorAction::WriteLine),
            SupervisorEvent::WriteFailed => (
                OverlayStatus::Running,
                SupervisorAction::Fail(OverlayError::Io),
            ),
            _ => (OverlayStatus::Running, SupervisorAction::Nothing),
        },
    }
}

/// The message that a failure is reported with.
pub fn error_message(error: OverlayError) -> (r: &'static str)
    ensures
        r@ == (match error {
            OverlayError::NotFound => "VR overlay binary not found"@,
            OverlayError::SpawnFailed => "Failed to start VR overlay"@,
            OverlayError::Io => "Failed to write VR command"@,
        }),
{
    match error {
        OverlayError::NotFound => "VR overlay binary not found",
        OverlayError::SpawnFailed => "Failed to start VR overlay",
        OverlayError::Io => "Failed to write VR command",
    }
}

} // verus!
