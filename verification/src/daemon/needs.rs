//! What going from one system to another needs: nothing, a switch or a
//! reboot.

use crate::errors::StorePathError;
use crate::nix::store::{opt_view, validated, StorePath};
use crate::paths::{join, same_components};
use vstd::prelude::*;
use vstd::string::*;

verus! {

/// What has to happen before a newly built system is the running one.
#[derive(Debug, Clone, Copy, PartialEq, Eq, Structural)]
pub enum UpgradeNeeds {
    /// The new system is the running one.
    Nothing,
    /// The new system can be switched to while the machine runs.
    Switch,
    /// The kernel, the initial ramdisk or the kernel modules differ: the
    /// machine has to boot into the new system.
    Reboot,
}

/// The three paths below a system on which the need for a reboot depends.
#[derive(Debug)]
pub struct BootPaths {
    pub initrd: Vec<u8>,
    pub kernel: Vec<u8>,
    pub kernel_modules: Vec<u8>,
}

/// What resolving the three paths of a `BootPaths` gave: for each, its
/// canonical form where there is one.
#[derive(Debug)]
pub struct BootLinks {
    pub initrd: Option<Vec<u8>>,
    pub kernel: Option<Vec<u8>>,
    pub kernel_modules: Option<Vec<u8>>,
}

/// A `BootLinks` as mathematics.
pub struct BootLinksView {
    pub initrd: Option<Seq<u8>>,
    pub kernel: Option<Seq<u8>>,
    pub kernel_modules: Option<Seq<u8>>,
}

impl View for BootLinks {
    type V = BootLinksView;

    open spec fn view(&self) -> BootLinksView {
        BootLinksView {
            initrd: opt_view(self.initrd),
            kernel: opt_view(self.kernel),
            kernel_modules: opt_view(self.kernel_modules),
        }
    }
}

/// Whether the path `sub` below `from` and the same path below `to` lead to
/// the same store path, given what resolving each gave; or the text of the
/// first of the two that does not lead into the store.
pub open spec fn sublink_eq_spec(
    from: Seq<u8>,
    to: Seq<u8>,
    sub: Seq<u8>,
    from_canonical: Option<Seq<u8>>,
    to_canonical: Option<Seq<u8>>,
) -> Result<bool, Seq<char>> {
    match validated(join(from, sub), from_canonical) {
        Err(text) => Err(text),
        Ok(a) => match validated(join(to, sub), to_canonical) {
            Err(text) => Err(text),
            Ok(b) => Ok(same_components(a, b)),
        },
    }
}

pub open spec fn initrd_eq(from: Seq<u8>, to: Seq<u8>, fl: BootLinksView, tl: BootLinksView) -> Result<
    bool,
    Seq<char>,
> {
    sublink_eq_spec(from, to, "initrd".spec_bytes(), fl.initrd, tl.initrd)
}

pub open spec fn kernel_eq(from: Seq<u8>, to: Seq<u8>, fl: BootLinksView, tl: BootLinksView) -> Result<
    bool,
    Seq<char>,
> {
    sublink_eq_spec(from, to, "kernel".spec_bytes(), fl.kernel, tl.kernel)
}

pub open spec fn kernel_modules_eq(
    from: Seq<u8>,
    to: Seq<u8>,
    fl: BootLinksView,
    tl: BootLinksView,
) -> Result<bool, Seq<char>> {
    sublink_eq_spec(from, to, "kernel-modules".spec_bytes(), fl.kernel_modules, tl.kernel_modules)
}

/// What going from the system `from` to the system `to` needs. The three
/// boot paths are looked at in turn, and only as far as the answer is open:
/// a path that does not lead into the store is an error only where it is
/// looked at.
pub open spec fn compare_spec(from: Seq<u8>, to: Seq<u8>, fl: BootLinksView, tl: BootLinksView) -> Result<
    UpgradeNeeds,
    Seq<char>,
> {
    if same_components(from, to) {
        Ok(UpgradeNeeds::Nothing)
    } else {
        match initrd_eq(from, to, fl, tl) {
            Err(text) => Err(text),
            Ok(false) => Ok(UpgradeNeeds::Reboot),
            Ok(true) => match kernel_eq(from, to, fl, tl) {
                Err(text) => Err(text),
                Ok(false) => Ok(UpgradeNeeds::Reboot),
                Ok(true) => match kernel_modules_eq(from, to, fl, tl) {
                    Err(text) => Err(text),
                    Ok(false) => Ok(UpgradeNeeds::Reboot),
                    Ok(true) => Ok(UpgradeNeeds::Switch),
                },
            },
        }
    }
}

impl UpgradeNeeds {
    /// The three boot paths below a system.
    pub fn boot_paths(system: &StorePath) -> (r: BootPaths)
        ensures
            r.initrd@ == join(system@, "initrd".spec_bytes()),
            r.kernel@ == join(system@, "kernel".spec_bytes()),
            r.kernel_modules@ == join(system@, "kernel-modules".spec_bytes()),
    {
        BootPaths {
            initrd: system.subpath("initrd"),
            kernel: system.subpath("kernel"),
            kernel_modules: system.subpath("kernel-modules"),
        }
    }

    /// Whether the path `sub` below `from` and the same path below `to` lead
    /// to the same store path. `from_canonical` and `to_canonical` are what
    /// resolving the two gave; the path below `from` is validated first.
    pub fn sublink_eq(
        from: &StorePath,
        to: &StorePath,
        sub: &str,
        from_canonical: Option<Vec<u8>>,
        to_canonical: Option<Vec<u8>>,
    ) -> (r: Result<bool, StorePathError>)
        ensures
            match sublink_eq_spec(
                from@,
                to@,
                sub.spec_bytes(),
                opt_view(from_canonical),
                opt_view(to_canonical),
            ) {
                Ok(b) => r matches Ok(x) && x == b,
                Err(text) => r matches Err(StorePathError::NotInStore(s)) && s@ == text,
            },
    {
        let below_from = match StorePath::new(from.subpath(sub).as_slice(), from_canonical) {
            Ok(p) => p,
            Err(e) => {
                return Err(e);
            },
        };
        let below_to = match StorePath::new(to.subpath(sub).as_slice(), to_canonical) {
            Ok(p) => p,
            Err(e) => {
                return Err(e);
            },
        };
        Ok(below_from == below_to)
    }

    /// Classifies the step from the system `from` to the system `to`.
    /// `from_links` and `to_links` are what resolving the boot paths of the
    /// two gave.
    pub fn compare(from: &StorePath, to: &StorePath, from_links: BootLinks, to_links: BootLinks) -> (r:
        Result<UpgradeNeeds, StorePathError>)
        ensures
            match compare_spec(from@, to@, from_links@, to_links@) {
                Ok(n) => r matches Ok(x) && x == n,
                Err(text) => r matches Err(StorePathError::NotInStore(s)) && s@ == text,
            },
    {
        if from == to {
            return Ok(UpgradeNeeds::Nothing);
        }
        match UpgradeNeeds::sublink_eq(from, to, "initrd", from_links.initrd, to_links.initrd) {
            Err(e) => {
                return Err(e);
            },
            Ok(false) => {
                return Ok(UpgradeNeeds::Reboot);
            },
            Ok(true) => {},
        }
        match UpgradeNeeds::sublink_eq(from, to, "kernel", from_links.kernel, to_links.kernel) {
            Err(e) => {
                return Err(e);
            },
            Ok(false) => {
                return Ok(UpgradeNeeds::Reboot);
            },
            Ok(true) => {},
        }
        match UpgradeNeeds::sublink_eq(
            from,
            to,
            "kernel-modules",
            from_links.kernel_modules,
            to_links.kernel_modules,
        ) {
            Err(e) => Err(e),
            Ok(false) => Ok(UpgradeNeeds::Reboot),
            Ok(true) => Ok(UpgradeNeeds::Switch),
        }
    }
}

/// A system needs nothing to become itself, whatever its boot paths lead
/// to.
pub proof fn lemma_compare_reflexive(p: Seq<u8>, fl: BootLinksView, tl: BootLinksView)
    ensures
        compare_spec(p, p, fl, tl) == Ok::<UpgradeNeeds, Seq<char>>(UpgradeNeeds::Nothing),
{
}

/// A switch is enough exactly when the two systems differ and each of the
/// three boot paths leads to the same store path under both. Otherwise,
/// where the two differ and no boot path that is looked at fails to lead
/// into the store, a reboot is needed. A boot path is looked at as long as
/// those before it agree.
pub proof fn lemma_compare_switch_iff(from: Seq<u8>, to: Seq<u8>, fl: BootLinksView, tl: BootLinksView)
    ensures
        compare_spec(from, to, fl, tl) == Ok::<UpgradeNeeds, Seq<char>>(UpgradeNeeds::Switch) <==> {
            &&& !same_components(from, to)
            &&& initrd_eq(from, to, fl, tl) == Ok::<bool, Seq<char>>(true)
            &&& kernel_eq(from, to, fl, tl) == Ok::<bool, Seq<char>>(true)
            &&& kernel_modules_eq(from, to, fl, tl) == Ok::<bool, Seq<char>>(true)
        },
        ({
            &&& !same_components(from, to)
            &&& compare_spec(from, to, fl, tl) is Ok
            &&& compare_spec(from, to, fl, tl) != Ok::<UpgradeNeeds, Seq<char>>(UpgradeNeeds::Switch)
        }) ==> compare_spec(from, to, fl, tl) == Ok::<UpgradeNeeds, Seq<char>>(UpgradeNeeds::Reboot),
        compare_spec(from, to, fl, tl) == Ok::<UpgradeNeeds, Seq<char>>(UpgradeNeeds::Nothing)
            <==> same_components(from, to),
        compare_spec(from, to, fl, tl) is Err <==> {
            &&& !same_components(from, to)
            &&& {
                ||| initrd_eq(from, to, fl, tl) is Err
                ||| initrd_eq(from, to, fl, tl) == Ok::<bool, Seq<char>>(true) && kernel_eq(
                    from,
                    to,
                    fl,
                    tl,
                ) is Err
                ||| initrd_eq(from, to, fl, tl) == Ok::<bool, Seq<char>>(true) && kernel_eq(
                    from,
                    to,
                    fl,
                    tl,
                ) == Ok::<bool, Seq<char>>(true) && kernel_modules_eq(from, to, fl, tl) is Err
            }
        },
{
}

} // verus!
