//! The install location and the package manifest.
//!
//! These are the plain-value models of what the swap needs to know about
//! the installed application: where its root directory lives, and the
//! title and version the update package declares. The driver resolves the
//! root path and mints the fresh staging paths (those come from a
//! collision-free random generator, so they are inputs here, never
//! computed here).

use vstd::prelude::*;

verus! {

/// Metadata read from an update package: a human-readable title and a
/// version identifier. Immutable once read; the title and version are only
/// ever displayed in the elevation consent prompt, and the manifest as a
/// whole becomes part of the post-update install location.
#[derive(Debug)]
pub struct Manifest {
    pub title: String,
    pub version: String,
}

/// Mathematical view of a [`Manifest`]: both fields as character sequences.
#[verifier::ext_equal]
pub ghost struct ManifestV {
    pub title: Seq<char>,
    pub version: Seq<char>,
}

impl View for Manifest {
    type V = ManifestV;

    open spec fn view(&self) -> ManifestV {
        ManifestV { title: self.title@, version: self.version@ }
    }
}

/// Where the application is installed: the root directory path, plus the
/// manifest of the version that directory currently holds.
#[derive(Debug)]
pub struct InstallLocation {
    pub root_dir: String,
    pub manifest: Manifest,
}

/// Mathematical view of an [`InstallLocation`].
#[verifier::ext_equal]
pub ghost struct LocationV {
    pub root_dir: Seq<char>,
    pub manifest: ManifestV,
}

impl View for InstallLocation {
    type V = LocationV;

    open spec fn view(&self) -> LocationV {
        LocationV { root_dir: self.root_dir@, manifest: self.manifest@ }
    }
}

impl InstallLocation {
    /// The same location, now carrying the updated manifest. Pure: no
    /// filesystem is consulted, so the caller has the post-update location
    /// in hand before any mutation starts, whatever later happens on disk.
    pub fn with_manifest(self, manifest: Manifest) -> (r: InstallLocation)
        ensures
            r@ == (LocationV { root_dir: self@.root_dir, manifest: manifest@ }),
    {
        InstallLocation { root_dir: self.root_dir, manifest }
    }
}

} // verus!
