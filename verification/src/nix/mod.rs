//! The build tool and its store, as far as the updater looks at them.

pub mod command;
pub mod flake;
pub mod store;

use crate::errors::{BuildError, StorePathError, UpdateError};
use crate::nix::store::{opt_view, validated, StorePath};
use crate::paths::{join, path_join};
use mktemp::Temp;
use vstd::prelude::*;
use vstd::slice::slice_to_vec;
use vstd::string::*;

verus! {

/// The result of a build: the store path that was built, and the temporary
/// directory whose `result` link keeps that path from being collected. The
/// directory is removed when the value is dropped, and not before.
#[derive(Debug)]
pub struct BuildOutput {
    pub path: StorePath,
    pub linkdir: Temp,
}

impl BuildOutput {
    /// The path of the link that a build leaves in the directory `dir`.
    pub fn result_link(dir: &[u8]) -> (r: Vec<u8>)
        ensures
            r@ == join(dir@, "result".spec_bytes()),
    {
        path_join(dir, "result".as_bytes())
    }

    /// Binds a build's directory to the store path that its `result` link
    /// leads to. `target` is what resolving that link gave: the path it
    /// leads to, or the reason why it could not be read.
    pub fn from_temp(linkdir: Temp, target: Result<Vec<u8>, std::io::Error>) -> (r: Result<
        BuildOutput,
        BuildError,
    >)
        ensures
            match target {
                Err(e) => r matches Err(BuildError::IOError(e2)) && e2 == e,
                Ok(t) => match validated(t@, None) {
                    Ok(c) => r matches Ok(out) && out.path@ == c && out.linkdir == linkdir,
                    Err(text) => r matches Err(
                        BuildError::StorePathError(StorePathError::NotInStore(s)),
                    ) && s@ == text,
                },
            },
    {
        match target {
            Err(e) => Err(BuildError::IOError(e)),
            Ok(t) => match StorePath::validate(t) {
                Ok(path) => Ok(BuildOutput { path, linkdir }),
                Err(e) => Err(BuildError::StorePathError(e)),
            },
        }
    }
}

/// What can be built into a system.
pub trait Buildable {
    fn build(&self) -> Result<BuildOutput, BuildError>;

    fn dry_build(&self) -> Result<StorePath, BuildError>;
}

/// What can be brought up to date.
pub trait Updateable {
    /// Returns true if the flake inputs (or the channel revision) have
    /// changed.
    fn update(&self) -> Result<bool, UpdateError>;
}

/// The link that points to the generation of the system that is active.
pub struct Profile {
    base_path: Vec<u8>,
}

impl View for Profile {
    type V = Seq<u8>;

    closed spec fn view(&self) -> Seq<u8> {
        self.base_path@
    }
}

impl Profile {
    /// The profile whose link is at `p`.
    pub fn new(p: &[u8]) -> (r: Profile)
        ensures
            r@ == p@,
    {
        Profile { base_path: slice_to_vec(p) }
    }

    /// The profile of the running system.
    pub fn system() -> (r: Profile)
        ensures
            r@ == "/nix/var/nix/profiles/system".spec_bytes(),
    {
        Profile::new("/nix/var/nix/profiles/system".as_bytes())
    }

    /// The path of the profile's link.
    pub fn as_path(&self) -> (r: &[u8])
        ensures
            r@ == self@,
    {
        self.base_path.as_slice()
    }

    /// A copy of the path of the profile's link.
    pub fn to_path(&self) -> (r: Vec<u8>)
        ensures
            r@ == self@,
    {
        slice_to_vec(self.base_path.as_slice())
    }

    /// The store path of the active generation. `canonical` is what
    /// resolving the profile's link gave just now, where it could be
    /// resolved.
    pub fn get_current(&self, canonical: Option<Vec<u8>>) -> (r: Result<StorePath, StorePathError>)
        ensures
            match validated(self@, opt_view(canonical)) {
                Ok(c) => r matches Ok(sp) && sp@ == c,
                Err(text) => r matches Err(StorePathError::NotInStore(s)) && s@ == text,
            },
    {
        StorePath::new(self.base_path.as_slice(), canonical)
    }
}

} // verus!
