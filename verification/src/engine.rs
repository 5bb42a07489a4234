//! The swap state machine.
//!
//! A [`SwapEngine`] drives one bundle replacement from start to finish
//! without touching the filesystem itself. It hands the driver one
//! [`Action`] at a time; the driver performs it and reports what happened
//! as an [`Event`]; [`SwapEngine::step`] then decides the next action.
//! The whole decision table is the spec function [`step_v`], which every
//! step is proved to follow exactly:
//!
//! - extraction failure is fatal (`Extraction`), never escalated;
//! - a rename failure classified as anything but permission-denied is
//!   fatal (`SwapFailed`), never escalated;
//! - a permission-denied rename failure asks the user once; a decline is
//!   `ElevationDeclined`, consent runs the single privileged command;
//! - a non-zero privileged exit is `ElevationFailed` with that exit code;
//! - whatever the outcome, both staging directories are removed before
//!   the engine finishes, and cleanup never changes the outcome.

use vstd::prelude::*;

use crate::errors::ApplyError;
use crate::errors::ApplyErrorV;
use crate::errors::RenameError;
use crate::errors::RenameErrorKind;
use crate::errors::RenameErrorV;
use crate::location::InstallLocation;
use crate::location::LocationV;
use crate::location::Manifest;
use crate::location::ManifestV;
use crate::script::build_elevated_script;
use crate::script::elevated_script_view;
use crate::script::interpret_elevated_exit;

verus! {

/// Where the operation stands. The phases form a line with two early
/// exits and one fork (consent), and every path ends in `CleaningUp`
/// followed by `Finished`.
#[derive(Clone, Copy, PartialEq, Eq, Structural, Debug)]
pub enum Phase {
    /// The payload is being extracted into the new staging directory.
    Extracting,
    /// The unprivileged rename pair is being attempted.
    Swapping,
    /// A permission denial was hit; the consent prompt is up.
    AwaitingConsent,
    /// Consent was granted; the privileged command is running.
    RunningElevated,
    /// The outcome is decided; both staging directories are being removed.
    CleaningUp,
    /// Nothing is left to do.
    Finished,
}

/// What the driver must do next. Paths and display strings are carried
/// along so the driver needs no other source of truth.
pub enum Action {
    /// Create `staging_new` and extract the package payload into it.
    Extract { staging_new: String },
    /// Rename `root` to `staging_old`, then `staging_new` to `root`, in
    /// that exact order.
    Swap { root: String, staging_new: String, staging_old: String },
    /// Show the elevation consent prompt with this title and version.
    AskConsent { title: String, version: String },
    /// Run this command line through the platform's interactive
    /// elevation mechanism and wait for it to exit.
    RunElevated { script: String },
    /// Best-effort remove both staging directories; removal errors are
    /// not reported back.
    Cleanup { staging_new: String, staging_old: String },
    /// The run is over; collect the result with [`SwapEngine::finish`].
    Done,
}

/// Mathematical view of an [`Action`].
#[verifier::ext_equal]
pub ghost enum ActionV {
    Extract { staging_new: Seq<char> },
    Swap { root: Seq<char>, staging_new: Seq<char>, staging_old: Seq<char> },
    AskConsent { title: Seq<char>, version: Seq<char> },
    RunElevated { script: Seq<char> },
    Cleanup { staging_new: Seq<char>, staging_old: Seq<char> },
    Done,
}

impl View for Action {
    type V = ActionV;

    open spec fn view(&self) -> ActionV {
        match self {
            Action::Extract { staging_new } => ActionV::Extract { staging_new: staging_new@ },
            Action::Swap { root, staging_new, staging_old } => ActionV::Swap {
                root: root@,
                staging_new: staging_new@,
                staging_old: staging_old@,
            },
            Action::AskConsent { title, version } => ActionV::AskConsent {
                title: title@,
                version: version@,
            },
            Action::RunElevated { script } => ActionV::RunElevated { script: script@ },
            Action::Cleanup { staging_new, staging_old } => ActionV::Cleanup {
                staging_new: staging_new@,
                staging_old: staging_old@,
            },
            Action::Done => ActionV::Done,
        }
    }
}

/// What the driver reports back after performing an action.
#[allow(inconsistent_fields)]
pub enum Event {
    /// Outcome of `Extract`: `Err` carries the underlying message.
    Extracted { outcome: Result<(), String> },
    /// Outcome of `Swap`: `Err` carries the classified rename failure.
    Swapped { outcome: Result<(), RenameError> },
    /// Outcome of `AskConsent`: whether the user granted elevation. A
    /// failure of the prompt itself counts as not granted.
    ConsentAnswered { granted: bool },
    /// Outcome of `RunElevated`: whether the process reported success,
    /// and its raw exit code.
    ElevatedDone { exit_ok: bool, exit_code: i32 },
    /// Outcome of `Cleanup`. It carries nothing: removal failures — in
    /// particular removing an already-absent directory — are swallowed
    /// and can never displace the recorded outcome.
    CleanupDone,
}

/// Mathematical view of an [`Event`].
#[allow(inconsistent_fields)]
#[verifier::ext_equal]
pub ghost enum EventV {
    Extracted { outcome: Result<(), Seq<char>> },
    Swapped { outcome: Result<(), RenameErrorV> },
    ConsentAnswered { granted: bool },
    ElevatedDone { exit_ok: bool, exit_code: int },
    CleanupDone,
}

impl View for Event {
    type V = EventV;

    open spec fn view(&self) -> EventV {
        match self {
            Event::Extracted { outcome } => EventV::Extracted {
                outcome: match outcome {
                    Ok(()) => Ok(()),
                    Err(m) => Err(m@),
                },
            },
            Event::Swapped { outcome } => EventV::Swapped {
                outcome: match outcome {
                    Ok(()) => Ok(()),
                    Err(e) => Err(e@),
                },
            },
            Event::ConsentAnswered { granted } => EventV::ConsentAnswered { granted: *granted },
            Event::ElevatedDone { exit_ok, exit_code } => EventV::ElevatedDone {
                exit_ok: *exit_ok,
                exit_code: *exit_code as int,
            },
            Event::CleanupDone => EventV::CleanupDone,
        }
    }
}

/// Mathematical view of a [`SwapEngine`].
#[verifier::ext_equal]
pub ghost struct EngineV {
    pub phase: Phase,
    pub root: Seq<char>,
    pub staging_new: Seq<char>,
    pub staging_old: Seq<char>,
    pub title: Seq<char>,
    pub version: Seq<char>,
    pub next_location: LocationV,
    pub outcome: Option<Result<(), ApplyErrorV>>,
}

/// The engine state right after [`SwapEngine::new`]: extraction pending,
/// no outcome yet, the post-update location already derived.
pub open spec fn init_v(
    location: LocationV,
    manifest: ManifestV,
    staging_new: Seq<char>,
    staging_old: Seq<char>,
) -> EngineV {
    EngineV {
        phase: Phase::Extracting,
        root: location.root_dir,
        staging_new: staging_new,
        staging_old: staging_old,
        title: manifest.title,
        version: manifest.version,
        next_location: LocationV { root_dir: location.root_dir, manifest: manifest },
        outcome: None,
    }
}

/// Which event the engine is waiting for: exactly the outcome of the
/// pending action. A finished engine expects nothing.
pub open spec fn expects(v: EngineV, e: EventV) -> bool {
    match v.phase {
        Phase::Extracting => e is Extracted,
        Phase::Swapping => e is Swapped,
        Phase::AwaitingConsent => e is ConsentAnswered,
        Phase::RunningElevated => e is ElevatedDone,
        Phase::CleaningUp => e is CleanupDone,
        Phase::Finished => false,
    }
}

/// The full decision table of the orchestrator: the engine state after
/// the given event. An event arriving in a phase that does not expect it
/// changes nothing.
pub open spec fn step_v(v: EngineV, e: EventV) -> EngineV {
    match e {
        EventV::Extracted { outcome } => if v.phase == Phase::Extracting {
            match outcome {
                Ok(()) => EngineV { phase: Phase::Swapping, ..v },
                Err(message) => EngineV {
                    phase: Phase::CleaningUp,
                    outcome: Some(Err(ApplyErrorV::Extraction { message })),
                    ..v
                },
            }
        } else {
            v
        },
        EventV::Swapped { outcome } => if v.phase == Phase::Swapping {
            match outcome {
                Ok(()) => EngineV { phase: Phase::CleaningUp, outcome: Some(Ok(())), ..v },
                Err(re) => if re.kind == RenameErrorKind::PermissionDenied {
                    EngineV { phase: Phase::AwaitingConsent, ..v }
                } else {
                    EngineV {
                        phase: Phase::CleaningUp,
                        outcome: Some(Err(ApplyErrorV::SwapFailed { message: re.message })),
                        ..v
                    }
                },
            }
        } else {
            v
        },
        EventV::ConsentAnswered { granted } => if v.phase == Phase::AwaitingConsent {
            if granted {
                EngineV { phase: Phase::RunningElevated, ..v }
            } else {
                EngineV {
                    phase: Phase::CleaningUp,
                    outcome: Some(Err(ApplyErrorV::ElevationDeclined)),
                    ..v
                }
            }
        } else {
            v
        },
        EventV::ElevatedDone { exit_ok, exit_code } => if v.phase == Phase::RunningElevated {
            if exit_ok {
                EngineV { phase: Phase::CleaningUp, outcome: Some(Ok(())), ..v }
            } else {
                EngineV {
                    phase: Phase::CleaningUp,
                    outcome: Some(Err(ApplyErrorV::ElevationFailed { exit_code })),
                    ..v
                }
            }
        } else {
            v
        },
        EventV::CleanupDone => if v.phase == Phase::CleaningUp {
            EngineV { phase: Phase::Finished, ..v }
        } else {
            v
        },
    }
}

/// The action pending in each phase. The driver performs it and reports
/// the matching event.
pub open spec fn pending_action_v(v: EngineV) -> ActionV {
    match v.phase {
        Phase::Extracting => ActionV::Extract { staging_new: v.staging_new },
        Phase::Swapping => ActionV::Swap {
            root: v.root,
            staging_new: v.staging_new,
            staging_old: v.staging_old,
        },
        Phase::AwaitingConsent => ActionV::AskConsent { title: v.title, version: v.version },
        Phase::RunningElevated => ActionV::RunElevated {
            script: elevated_script_view(v.root, v.staging_new, v.staging_old),
        },
        Phase::CleaningUp => ActionV::Cleanup {
            staging_new: v.staging_new,
            staging_old: v.staging_old,
        },
        Phase::Finished => ActionV::Done,
    }
}

/// An engine is well-formed when it has recorded an outcome exactly from
/// the cleanup phase on.
pub open spec fn wf_v(v: EngineV) -> bool {
    (v.phase == Phase::CleaningUp || v.phase == Phase::Finished) <==> v.outcome is Some
}

/// Drives one bundle replacement. See the module documentation for the
/// protocol; the ghost view [`EngineV`] and the spec functions
/// [`step_v`], [`pending_action_v`] and [`expects`] are its whole
/// contract.
pub struct SwapEngine {
    phase: Phase,
    root: String,
    staging_new: String,
    staging_old: String,
    title: String,
    version: String,
    next_location: InstallLocation,
    outcome: Option<Result<(), ApplyError>>,
}

impl View for SwapEngine {
    type V = EngineV;

    closed spec fn view(&self) -> EngineV {
        EngineV {
            phase: self.phase,
            root: self.root@,
            staging_new: self.staging_new@,
            staging_old: self.staging_old@,
            title: self.title@,
            version: self.version@,
            next_location: self.next_location@,
            outcome: match self.outcome {
                None => None,
                Some(Ok(())) => Some(Ok(())),
                Some(Err(e)) => Some(Err(e@)),
            },
        }
    }
}

impl SwapEngine {
    /// Well-formedness of the engine; established by [`SwapEngine::new`]
    /// and preserved by [`SwapEngine::step`].
    pub open spec fn wf(&self) -> bool {
        wf_v(self@)
    }

    /// Builds the action the current phase calls for, from the engine's
    /// own copies of the paths and display strings.
    fn emit_action(&self) -> (a: Action)
        ensures
            a@ == pending_action_v(self@),
    {
        match self.phase {
            Phase::Extracting => Action::Extract { staging_new: self.staging_new.clone() },
            Phase::Swapping => Action::Swap {
                root: self.root.clone(),
                staging_new: self.staging_new.clone(),
                staging_old: self.staging_old.clone(),
            },
            Phase::AwaitingConsent => Action::AskConsent {
                title: self.title.clone(),
                version: self.version.clone(),
            },
            Phase::RunningElevated => Action::RunElevated {
                script: build_elevated_script(
                    self.root.as_str(),
                    self.staging_new.as_str(),
                    self.staging_old.as_str(),
                ),
            },
            Phase::CleaningUp => Action::Cleanup {
                staging_new: self.staging_new.clone(),
                staging_old: self.staging_old.clone(),
            },
            Phase::Finished => Action::Done,
        }
    }

    /// Starts a swap: the engine plus its first action, which is always
    /// the extraction into `staging_new`. The post-update location —
    /// `location` carrying `manifest` — is derived here, before anything
    /// touches the filesystem. The two staging paths must be fresh,
    /// collision-free paths minted by the caller; the engine never
    /// invents paths of its own.
    pub fn new(
        location: InstallLocation,
        manifest: Manifest,
        staging_new: String,
        staging_old: String,
    ) -> (r: (SwapEngine, Action))
        ensures
            r.0@ == init_v(location@, manifest@, staging_new@, staging_old@),
            r.0.wf(),
            r.1@ == pending_action_v(r.0@),
    {
        let ghost loc0 = location@;
        let ghost man0 = manifest@;
        let root = location.root_dir.clone();
        let title = manifest.title.clone();
        let version = manifest.version.clone();
        let next_location = location.with_manifest(manifest);
        let engine = SwapEngine {
            phase: Phase::Extracting,
            root,
            staging_new,
            staging_old,
            title,
            version,
            next_location,
            outcome: None,
        };
        proof {
            assert(engine@ =~= init_v(loc0, man0, engine.staging_new@, engine.staging_old@));
        }
        let action = engine.emit_action();
        (engine, action)
    }

    /// Feeds the outcome of the pending action back into the engine and
    /// returns the next action: the executable form of [`step_v`].
    pub fn step(&mut self, e: Event) -> (a: Action)
        requires
            old(self).wf(),
            expects(old(self)@, e@),
        ensures
            final(self)@ == step_v(old(self)@, e@),
            final(self).wf(),
            a@ == pending_action_v(final(self)@),
    {
        let ghost pre = self@;
        let ghost ev = e@;
        match e {
            Event::Extracted { outcome } => match outcome {
                Ok(()) => {
                    self.phase = Phase::Swapping;
                },
                Err(message) => {
                    self.phase = Phase::CleaningUp;
                    self.outcome = Some(Err(ApplyError::Extraction { message }));
                },
            },
            Event::Swapped { outcome } => match outcome {
                Ok(()) => {
                    self.phase = Phase::CleaningUp;
                    self.outcome = Some(Ok(()));
                },
                Err(re) => {
                    if re.kind == RenameErrorKind::PermissionDenied {
                        self.phase = Phase::AwaitingConsent;
                    } else {
                        self.phase = Phase::CleaningUp;
                        self.outcome = Some(
                            Err(ApplyError::SwapFailed { message: re.message }),
                        );
                    }
                },
            },
            Event::ConsentAnswered { granted } => {
                if granted {
                    self.phase = Phase::RunningElevated;
                } else {
                    self.phase = Phase::CleaningUp;
                    self.outcome = Some(Err(ApplyError::ElevationDeclined));
                }
            },
            Event::ElevatedDone { exit_ok, exit_code } => {
                self.phase = Phase::CleaningUp;
                self.outcome = Some(interpret_elevated_exit(exit_ok, exit_code));
            },
            Event::CleanupDone => {
                self.phase = Phase::Finished;
            },
        }
        proof {
            assert(self@ =~= step_v(pre, ev));
        }
        self.emit_action()
    }

    /// Hands out the recorded result once the run is over: the
    /// post-update install location on success, the fatal error
    /// otherwise. Consumes the engine; a run yields exactly one result.
    pub fn finish(self) -> (r: Result<InstallLocation, ApplyError>)
        requires
            self.wf(),
            self@.phase == Phase::Finished,
        ensures
            match r {
                Ok(l) => self@.outcome == Some(Ok::<(), ApplyErrorV>(()))
                    && l@ == self@.next_location,
                Err(e) => self@.outcome == Some(Err::<(), ApplyErrorV>(e@)),
            },
    {
        match self.outcome {
            Some(Ok(())) => Ok(self.next_location),
            Some(Err(e)) => Err(e),
            None => {
                proof {
                    assert(false);
                }
                Err(ApplyError::ElevationDeclined)
            },
        }
    }
}

} // verus!
