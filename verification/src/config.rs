//! Feature flags that gate how a sync pass applies operations.

use vstd::prelude::*;

verus! {

/// Opt-in features of a sync pass.
#[derive(Clone, Copy, Debug, PartialEq, Eq, Structural)]
pub enum FeatureFlag {
    /// Link each created user with the configured identity provider.
    SsoLogin,
    /// Users must verify their email address after creation or change.
    VerifyEmail,
    /// Users must verify their phone number after creation or change.
    VerifyPhone,
    /// Only log the operations a pass would apply; never call the provider.
    DryRun,
    /// Apply only disable and delete operations, never create/enable/update.
    DeactivateOnly,
}

/// The set of enabled feature flags.
#[derive(Debug)]
pub struct FeatureFlags {
    /// The enabled flags, in configuration order.
    pub flags: Vec<FeatureFlag>,
}

impl Clone for FeatureFlags {
    fn clone(&self) -> (r: Self)
        ensures
            r@ == self@,
    {
        let n = self.flags.len();
        let mut flags: Vec<FeatureFlag> = Vec::new();
        let mut i: usize = 0;
        while i < n
            invariant
                n == self.flags@.len(),
                0 <= i <= n,
                flags@ == self.flags@.take(i as int),
            decreases n - i,
        {
            flags.push(self.flags[i]);
            proof {
                assert(flags@ =~= self.flags@.take(i + 1));
            }
            i = i + 1;
        }
        proof {
            assert(self.flags@.take(n as int) =~= self.flags@);
        }
        FeatureFlags { flags }
    }
}

impl View for FeatureFlags {
    type V = Seq<FeatureFlag>;

    open spec fn view(&self) -> Seq<FeatureFlag> {
        self.flags@
    }
}

impl FeatureFlags {
    /// An empty flag set: every feature is off.
    pub fn new() -> (r: Self)
        ensures
            r@ =~= Seq::<FeatureFlag>::empty(),
    {
        FeatureFlags { flags: Vec::new() }
    }

    /// Build a flag set from a list of enabled flags.
    pub fn from_flags(flags: Vec<FeatureFlag>) -> (r: Self)
        ensures
            r@ == flags@,
    {
        FeatureFlags { flags }
    }

    /// Enable one more flag.
    pub fn push(&mut self, flag: FeatureFlag)
        ensures
            final(self)@ == old(self)@.push(flag),
    {
        self.flags.push(flag);
    }

    /// Whether a feature flag is enabled.
    pub fn is_enabled(&self, flag: FeatureFlag) -> (r: bool)
        ensures
            r == self@.contains(flag),
    {
        let n = self.flags.len();
        let mut i: usize = 0;
        while i < n
            invariant
                n == self.flags.len(),
                0 <= i <= n,
                forall|j: int| 0 <= j < i ==> self@[j] != flag,
            decreases n - i,
        {
            if self.flags[i] == flag {
                return true;
            }
            i = i + 1;
        }
        false
    }
}

} // verus!
