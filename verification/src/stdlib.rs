//! The packages of the standard library that are written in Ruby alone.

use vstd::prelude::*;
use crate::error::ArtichokeError;
use crate::vm::{Package, Reply, Request, Step};

verus! {

/// The package that is defined after `package`.
pub open spec fn following(package: Package) -> Option<Package> {
    match package {
        Package::Delegate => Some(Package::Forwardable),
        Package::Forwardable => Some(Package::Monitor),
        Package::Monitor => Some(Package::Ostruct),
        Package::Ostruct => Some(Package::SetLib),
        Package::SetLib => None,
    }
}

/// The definition of the packages in progress; holds the package that was
/// asked for.
#[derive(Debug, Clone, Copy, PartialEq, Eq, Structural)]
pub struct Patch(pub Package);

pub type Patched = Step<Patch, Result<(), ArtichokeError>>;

impl Patch {
    /// Whether `next` follows on `reply`: after a package the one that
    /// follows it is defined, and the first that fails ends the definition
    /// with its error.
    pub open spec fn follows(self, reply: Reply, next: Patched) -> bool {
        match reply {
            Reply::Finished => match following(self.0) {
                Some(package) => next == Patched::Ask(Patch(package), Request::InitPackage(package)),
                None => next == Patched::Done(Ok(())),
            },
            Reply::Failed(e) => next == Patched::Done(Err(e)),
            _ => next == Patched::Done(Err(ArtichokeError::ExecutorFailure)),
        }
    }

    pub fn resume(self, reply: Reply) -> (next: Patched)
        ensures
            self.follows(reply, next),
    {
        match reply {
            Reply::Finished => {
                let package = match self.0 {
                    Package::Delegate => Package::Forwardable,
                    Package::Forwardable => Package::Monitor,
                    Package::Monitor => Package::Ostruct,
                    Package::Ostruct => Package::SetLib,
                    Package::SetLib => {
                        return Step::Done(Ok(()));
                    },
                };
                Step::Ask(Patch(package), Request::InitPackage(package))
            },
            Reply::Failed(e) => Step::Done(Err(e)),
            _ => Step::Done(Err(ArtichokeError::ExecutorFailure)),
        }
    }
}

/// Define the packages in the VM, `delegate` first.
pub fn patch() -> (next: Patched)
    ensures
        next == Patched::Ask(Patch(Package::Delegate), Request::InitPackage(Package::Delegate)),
{
    Step::Ask(Patch(Package::Delegate), Request::InitPackage(Package::Delegate))
}

} // verus!
