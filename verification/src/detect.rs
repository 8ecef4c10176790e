//! Package-manager detection from the lockfiles that sit beside a manifest.
use vstd::prelude::*;

verus! {

/// Which of the three recognized lockfile names exist in the manifest's
/// directory. The caller fills each field from an existence probe; a probe
/// that fails at the OS level counts as "absent".
#[derive(Clone, Copy, Debug, PartialEq, Eq, Structural)]
pub struct LockfileProbe {
    /// `package-lock.json` exists beside the manifest.
    pub package_lock: bool,
    /// `yarn.lock` exists beside the manifest.
    pub yarn_lock: bool,
    /// `pnpm-lock.yaml` exists beside the manifest.
    pub pnpm_lock: bool,
}

/// The package manager that a lockfile identifies.
#[derive(Clone, Copy, Debug, PartialEq, Eq, Structural)]
pub enum PackageManagerType {
    Npm,
    Pnpm,
    Yarn,
}

/// The detection rule: the first lockfile present, in the fixed priority
/// order `package-lock.json`, then `yarn.lock`, then `pnpm-lock.yaml`.
pub open spec fn spec_detect(probe: LockfileProbe) -> Option<PackageManagerType> {
    if probe.package_lock {
        Some(PackageManagerType::Npm)
    } else if probe.yarn_lock {
        Some(PackageManagerType::Yarn)
    } else if probe.pnpm_lock {
        Some(PackageManagerType::Pnpm)
    } else {
        None
    }
}

/// Priority tie-break: in a directory that holds both `package-lock.json`
/// and `yarn.lock`, detection reports NPM.
pub proof fn lemma_npm_priority(probe: LockfileProbe)
    requires
        probe.package_lock,
        probe.yarn_lock,
    ensures
        spec_detect(probe) == Some(PackageManagerType::Npm),
{
}

impl PackageManagerType {
    /// The human-readable name of the package manager.
    pub open spec fn spec_display_name(self) -> Seq<char> {
        match self {
            PackageManagerType::Npm => "NPM"@,
            PackageManagerType::Yarn => "Yarn"@,
            PackageManagerType::Pnpm => "PNPM"@,
        }
    }

    /// Detect the package manager from the lockfiles found beside the
    /// manifest, by the fixed priority order; `None` when no recognized
    /// lockfile exists there.
    pub fn detect_from_path(probe: &LockfileProbe) -> (r: Option<PackageManagerType>)
        ensures
            r == spec_detect(*probe),
    {
        if probe.package_lock {
            Some(PackageManagerType::Npm)
        } else if probe.yarn_lock {
            Some(PackageManagerType::Yarn)
        } else if probe.pnpm_lock {
            Some(PackageManagerType::Pnpm)
        } else {
            None
        }
    }

    /// The human-readable name of the package manager.
    pub fn display_name(&self) -> (r: String)
        ensures
            r@ == self.spec_display_name(),
    {
        match self {
            PackageManagerType::Npm => "NPM".to_owned(),
            PackageManagerType::Yarn => "Yarn".to_owned(),
            PackageManagerType::Pnpm => "PNPM".to_owned(),
        }
    }
}

} // verus!
