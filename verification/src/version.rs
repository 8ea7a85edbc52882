//! Versions of platform methods, and the bounds a feature version must lie in.

use vstd::prelude::*;

verus! {

/// The version of one feature or method.
pub type FeatureVersion = u16;

/// The versions of a feature that a platform version accepts, and the one it uses.
#[derive(Clone, Copy, Debug, PartialEq, Eq)]
pub struct FeatureVersionBounds {
    pub min_version: FeatureVersion,
    pub max_version: FeatureVersion,
    pub default_current_version: FeatureVersion,
}

impl FeatureVersionBounds {
    /// Whether `version` lies within the bounds, both ends included.
    pub open spec fn accepts(self, version: FeatureVersion) -> bool {
        self.min_version <= version && version <= self.max_version
    }

    /// A version is accepted exactly when it lies between the lowest and the
    /// highest accepted version, both included.
    pub proof fn lemma_accepts_iff_within_bounds(self, version: FeatureVersion)
        ensures
            self.accepts(version) <==> (self.min_version <= version && version <= self.max_version),
            self.min_version == version ==> (version <= self.max_version ==> self.accepts(version)),
            self.max_version == version ==> (self.min_version <= version ==> self.accepts(version)),
    {
    }

    /// Whether `version` lies within the bounds, both ends included.
    pub fn check_version(&self, version: FeatureVersion) -> (r: bool)
        ensures
            r == self.accepts(version),
            r == (self.min_version <= version && version <= self.max_version),
    {
        version >= self.min_version && version <= self.max_version
    }
}

/// The parameters of a platform version that the rules of this library read.
#[derive(Clone, Copy, Debug, PartialEq, Eq)]
pub struct PlatformVersion {
    /// The protocol version itself.
    pub protocol_version: u32,
    /// Accepted versions of the version-upgrade vote status query.
    pub version_upgrade_vote_status: FeatureVersionBounds,
    /// The active version of the credit transfer balance check, if any.
    pub identity_credit_transfer_balance: Option<FeatureVersion>,
}

} // verus!
