//! The ways in which the steps of an upgrade fail.

use crate::outside::{io_error_debug, quoted, quoted_text};
use vstd::prelude::*;
use vstd::std_specs::convert::FromSpecImpl;
use vstd::string::*;

verus! {

/// A path could not be taken for a store path.
#[derive(Debug)]
pub enum StorePathError {
    /// The path does not lie under the store root; the value is the path as
    /// text.
    NotInStore(String),
    IOError(std::io::Error),
}

/// A build, or a dry build, failed.
#[derive(Debug)]
pub enum BuildError {
    StorePathError(StorePathError),
    IOError(std::io::Error),
    /// The build tool ended with a status other than success.
    NixCommandFailed,
    FlakeHasNoAttr,
    /// The structured output of a dry build was not the JSON that was
    /// expected.
    ParsingNixBuildJSONFailed(serde_json::Error),
    /// The structured output of a dry build was well-formed but did not name
    /// exactly one derivation with an output `out`; the value says what it
    /// held instead.
    DryRunProducedUnexpected(String),
}

/// An update of the inputs failed.
#[derive(Debug)]
pub enum UpdateError {
    IOError(std::io::Error),
    /// The build tool ended with a status other than success.
    NixCommandFailed,
}

/// How a run of the upgrade process ends when it does not succeed.
#[derive(Debug)]
pub enum UpgradeError {
    BuildError(BuildError),
    UpdateError(UpdateError),
    StorePathError(StorePathError),
    /// The switch executable could not be run (with the reason), or ended
    /// with a status other than success (without one).
    SwitchFailed(Option<std::io::Error>),
    /// The reboot could not be started; the value is what was reported.
    RebootFailed(String),
    /// The operator cancelled the run at the checkpoint.
    Cancelled,
}

/// Whether `text` is `lead` and then the words in which the I/O error `e`
/// presents itself.
pub open spec fn says_io_error(lead: Seq<char>, e: std::io::Error, text: Seq<char>) -> bool {
    exists|own: String| #[trigger]
        to_string_from_display_ensures::<std::io::Error>(&e, own) && text == lead + own@
}

/// Whether `text` is `lead` and then the words in which the JSON error `e`
/// presents itself.
pub open spec fn says_json_error(lead: Seq<char>, e: serde_json::Error, text: Seq<char>) -> bool {
    exists|own: String| #[trigger]
        to_string_from_display_ensures::<serde_json::Error>(&e, own) && text == lead + own@
}

/// What is said of a store path error.
pub open spec fn store_path_error_says(e: StorePathError, text: Seq<char>) -> bool {
    match e {
        StorePathError::NotInStore(p) => text == "path "@ + p@ + " is not in nix store"@,
        StorePathError::IOError(inner) => says_io_error("io error: "@, inner, text),
    }
}

/// What is said of a build error.
pub open spec fn build_error_says(e: BuildError, text: Seq<char>) -> bool {
    match e {
        BuildError::StorePathError(inner) => exists|rest: Seq<char>|
            text == "build error: "@ + rest && store_path_error_says(inner, rest),
        BuildError::IOError(inner) => says_io_error("build error: "@, inner, text),
        BuildError::NixCommandFailed => text == "nix command failed"@,
        BuildError::FlakeHasNoAttr => text == "flake has no attribute"@,
        BuildError::ParsingNixBuildJSONFailed(inner) => says_json_error(
            "nix build --json output could not be parsed: "@,
            inner,
            text,
        ),
        BuildError::DryRunProducedUnexpected(found) => text
            == "nix build --dry-run produced unexepcted output: "@ + found@,
    }
}

/// What is said of an update error.
pub open spec fn update_error_says(e: UpdateError, text: Seq<char>) -> bool {
    match e {
        UpdateError::IOError(inner) => says_io_error("update failed: "@, inner, text),
        UpdateError::NixCommandFailed => text == "nix command failed"@,
    }
}

/// What is said of an upgrade error. Of a switch that could not be run, the
/// reason is given as programmers are shown it, and only what stands around
/// it is fixed.
pub open spec fn upgrade_error_says(e: UpgradeError, text: Seq<char>) -> bool {
    match e {
        UpgradeError::BuildError(inner) => exists|rest: Seq<char>|
            text == "upgrade process failed: "@ + rest && build_error_says(inner, rest),
        UpgradeError::UpdateError(inner) => exists|rest: Seq<char>|
            text == "upgrade process failed: "@ + rest && update_error_says(inner, rest),
        UpgradeError::StorePathError(inner) => exists|rest: Seq<char>|
            text == "upgrade failed: "@ + rest && store_path_error_says(inner, rest),
        UpgradeError::SwitchFailed(None) => text == "switch command failed: None"@,
        UpgradeError::SwitchFailed(Some(_)) => exists|shown: Seq<char>|
            text == "switch command failed: Some("@ + shown + ")"@,
        UpgradeError::RebootFailed(said) => text == "reboot failed: "@ + quoted_text(said@),
        UpgradeError::Cancelled => text == "user cancelled operation"@,
    }
}

impl StorePathError {
    /// The error in words.
    pub fn message(&self) -> (r: String)
        ensures
            store_path_error_says(*self, r@),
    {
        match self {
            StorePathError::NotInStore(p) => {
                let mut out = "path ".to_owned();
                out.append(p.as_str());
                out.append(" is not in nix store");
                out
            },
            StorePathError::IOError(e) => {
                let mut out = "io error: ".to_owned();
                out.append(e.to_string().as_str());
                out
            },
        }
    }
}

impl BuildError {
    /// The error in words.
    pub fn message(&self) -> (r: String)
        ensures
            build_error_says(*self, r@),
    {
        match self {
            BuildError::StorePathError(inner) => {
                let rest = inner.message();
                let mut out = "build error: ".to_owned();
                out.append(rest.as_str());
                out
            },
            BuildError::IOError(e) => {
                let mut out = "build error: ".to_owned();
                out.append(e.to_string().as_str());
                out
            },
            BuildError::NixCommandFailed => "nix command failed".to_owned(),
            BuildError::FlakeHasNoAttr => "flake has no attribute".to_owned(),
            BuildError::ParsingNixBuildJSONFailed(e) => {
                let mut out = "nix build --json output could not be parsed: ".to_owned();
                out.append(e.to_string().as_str());
                out
            },
            BuildError::DryRunProducedUnexpected(found) => {
                let mut out = "nix build --dry-run produced unexepcted output: ".to_owned();
                out.append(found.as_str());
                out
            },
        }
    }
}

impl UpdateError {
    /// The error in words.
    pub fn message(&self) -> (r: String)
        ensures
            update_error_says(*self, r@),
    {
        match self {
            UpdateError::IOError(e) => {
                let mut out = "update failed: ".to_owned();
                out.append(e.to_string().as_str());
                out
            },
            UpdateError::NixCommandFailed => "nix command failed".to_owned(),
        }
    }
}

impl UpgradeError {
    /// The error in words.
    pub fn message(&self) -> (r: String)
        ensures
            upgrade_error_says(*self, r@),
    {
        match self {
            UpgradeError::BuildError(inner) => {
                let rest = inner.message();
                let mut out = "upgrade process failed: ".to_owned();
                out.append(rest.as_str());
                out
            },
            UpgradeError::UpdateError(inner) => {
                let rest = inner.message();
                let mut out = "upgrade process failed: ".to_owned();
                out.append(rest.as_str());
                out
            },
            UpgradeError::StorePathError(inner) => {
                let rest = inner.message();
                let mut out = "upgrade failed: ".to_owned();
                out.append(rest.as_str());
                out
            },
            UpgradeError::SwitchFailed(None) => "switch command failed: None".to_owned(),
            UpgradeError::SwitchFailed(Some(e)) => {
                let mut out = "switch command failed: Some(".to_owned();
                out.append(io_error_debug(e).as_str());
                out.append(")");
                out
            },
            UpgradeError::RebootFailed(said) => {
                let mut out = "reboot failed: ".to_owned();
                out.append(quoted(said.as_str()).as_str());
                out
            },
            UpgradeError::Cancelled => "user cancelled operation".to_owned(),
        }
    }

    /// The failure of a switch that could not be run.
    pub fn map_switch_io_error(e: std::io::Error) -> (r: UpgradeError)
        ensures
            r == UpgradeError::SwitchFailed(Some(e)),
    {
        UpgradeError::SwitchFailed(Some(e))
    }

    /// The failure of a reboot that could not be run; it holds the words in
    /// which the error presents itself.
    pub fn map_reboot_failed(e: std::io::Error) -> (r: UpgradeError)
        ensures
            r matches UpgradeError::RebootFailed(said) && to_string_from_display_ensures::<
                std::io::Error,
            >(&e, said),
    {
        UpgradeError::RebootFailed(e.to_string())
    }
}

impl From<std::io::Error> for StorePathError {
    fn from(e: std::io::Error) -> (r: StorePathError) {
        StorePathError::IOError(e)
    }
}

impl FromSpecImpl<std::io::Error> for StorePathError {
    open spec fn obeys_from_spec() -> bool {
        true
    }

    open spec fn from_spec(e: std::io::Error) -> StorePathError {
        StorePathError::IOError(e)
    }
}

impl From<StorePathError> for BuildError {
    fn from(e: StorePathError) -> (r: BuildError) {
        BuildError::StorePathError(e)
    }
}

impl FromSpecImpl<StorePathError> for BuildError {
    open spec fn obeys_from_spec() -> bool {
        true
    }

    open spec fn from_spec(e: StorePathError) -> BuildError {
        BuildError::StorePathError(e)
    }
}

impl From<std::io::Error> for BuildError {
    fn from(e: std::io::Error) -> (r: BuildError) {
        BuildError::IOError(e)
    }
}

impl FromSpecImpl<std::io::Error> for BuildError {
    open spec fn obeys_from_spec() -> bool {
        true
    }

    open spec fn from_spec(e: std::io::Error) -> BuildError {
        BuildError::IOError(e)
    }
}

impl From<std::io::Error> for UpdateError {
    fn from(e: std::io::Error) -> (r: UpdateError) {
        UpdateError::IOError(e)
    }
}

impl FromSpecImpl<std::io::Error> for UpdateError {
    open spec fn obeys_from_spec() -> bool {
        true
    }

    open spec fn from_spec(e: std::io::Error) -> UpdateError {
        UpdateError::IOError(e)
    }
}

impl From<BuildError> for UpgradeError {
    fn from(e: BuildError) -> (r: UpgradeError) {
        UpgradeError::BuildError(e)
    }
}

impl FromSpecImpl<BuildError> for UpgradeError {
    open spec fn obeys_from_spec() -> bool {
        true
    }

    open spec fn from_spec(e: BuildError) -> UpgradeError {
        UpgradeError::BuildError(e)
    }
}

impl From<UpdateError> for UpgradeError {
    fn from(e: UpdateError) -> (r: UpgradeError) {
        UpgradeError::UpdateError(e)
    }
}

impl FromSpecImpl<UpdateError> for UpgradeError {
    open spec fn obeys_from_spec() -> bool {
        true
    }

    open spec fn from_spec(e: UpdateError) -> UpgradeError {
        UpgradeError::UpdateError(e)
    }
}

impl From<StorePathError> for UpgradeError {
    fn from(e: StorePathError) -> (r: UpgradeError) {
        UpgradeError::StorePathError(e)
    }
}

impl FromSpecImpl<StorePathError> for UpgradeError {
    open spec fn obeys_from_spec() -> bool {
        true
    }

    open spec fn from_spec(e: StorePathError) -> UpgradeError {
        UpgradeError::StorePathError(e)
    }
}

} // verus!
