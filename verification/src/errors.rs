//! The error taxonomy of the swap.
//!
//! Every failure the operation can report is one of the four
//! [`ApplyError`] variants; the driver classifies a failed rename into a
//! [`RenameErrorKind`] once, at the filesystem edge, so that everything
//! downstream is a pattern match rather than error-message sniffing.

use vstd::prelude::*;

verus! {

/// Why the unprivileged rename sequence failed, as classified by the
/// driver at the filesystem edge. Only a permission denial ever justifies
/// escalating to a privileged retry; everything else is fatal as-is.
#[derive(Clone, Copy, PartialEq, Eq, Structural, Debug)]
pub enum RenameErrorKind {
    PermissionDenied,
    Other,
}

/// A failed rename: its classification plus the underlying message, kept
/// verbatim for diagnostics.
#[derive(Debug)]
pub struct RenameError {
    pub kind: RenameErrorKind,
    pub message: String,
}

/// Mathematical view of a [`RenameError`].
#[verifier::ext_equal]
pub ghost struct RenameErrorV {
    pub kind: RenameErrorKind,
    pub message: Seq<char>,
}

impl View for RenameError {
    type V = RenameErrorV;

    open spec fn view(&self) -> RenameErrorV {
        RenameErrorV { kind: self.kind, message: self.message@ }
    }
}

/// The typed result of a failed swap operation.
#[derive(Debug)]
pub enum ApplyError {
    /// The package payload could not be written to the staging area.
    /// Fatal; never escalated, since extraction happens in a directory the
    /// current user already owns.
    Extraction { message: String },
    /// The rename sequence failed for a reason other than permissions.
    /// Fatal; escalation would not help, so it is never attempted.
    SwapFailed { message: String },
    /// The user did not grant elevation when asked.
    ElevationDeclined,
    /// The privileged command ran but reported failure; the raw exit code
    /// is kept for diagnostics.
    ElevationFailed { exit_code: i32 },
}

/// Mathematical view of an [`ApplyError`].
#[verifier::ext_equal]
pub ghost enum ApplyErrorV {
    Extraction { message: Seq<char> },
    SwapFailed { message: Seq<char> },
    ElevationDeclined,
    ElevationFailed { exit_code: int },
}

impl View for ApplyError {
    type V = ApplyErrorV;

    open spec fn view(&self) -> ApplyErrorV {
        match self {
            ApplyError::Extraction { message } => ApplyErrorV::Extraction { message: message@ },
            ApplyError::SwapFailed { message } => ApplyErrorV::SwapFailed { message: message@ },
            ApplyError::ElevationDeclined => ApplyErrorV::ElevationDeclined,
            ApplyError::ElevationFailed { exit_code } => ApplyErrorV::ElevationFailed {
                exit_code: *exit_code as int,
            },
        }
    }
}

} // verus!
