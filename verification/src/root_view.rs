use vstd::prelude::*;

use crate::onboarding_suppression::suppress_automatic_onboarding;

verus! {

/// Where the window lands when it opens without a signed-in user.
#[derive(Clone, Copy, Debug, PartialEq, Eq, Structural)]
pub enum UnauthenticatedStartupTarget {
    /// A usable terminal.
    Terminal,
    /// The sign-in screen.
    Auth,
    /// The pre-login onboarding slides.
    Onboarding,
}

/// The feature flags that the startup decisions read.
#[derive(Clone, Copy, Debug, PartialEq, Eq, Structural)]
pub struct StartupFeatureFlags {
    /// Sign-in is required before anything else.
    pub force_login: bool,
    /// The new settings modes, which come with the onboarding slides.
    pub open_warp_new_settings_modes: bool,
    /// The agent onboarding slides.
    pub agent_onboarding: bool,
}

/// Where an unauthenticated start lands. Only a required sign-in keeps the
/// user from the terminal; the pre-login onboarding slides stay suppressed.
pub fn unauthenticated_startup_target(
    flags: &StartupFeatureFlags,
    has_completed_local_onboarding: bool,
) -> (target: UnauthenticatedStartupTarget)
    ensures
        target == if flags.force_login {
            UnauthenticatedStartupTarget::Auth
        } else {
            UnauthenticatedStartupTarget::Terminal
        },
{
    if flags.force_login {
        UnauthenticatedStartupTarget::Auth
    } else if !suppress_automatic_onboarding() && (flags.open_warp_new_settings_modes
        || flags.agent_onboarding) && !has_completed_local_onboarding {
        UnauthenticatedStartupTarget::Onboarding
    } else {
        UnauthenticatedStartupTarget::Terminal
    }
}

/// Whether the onboarding slides open after sign-in. They never do here:
/// automatic onboarding is suppressed.
pub fn should_open_post_auth_onboarding(
    is_onboarded: bool,
    is_anonymous: bool,
    has_completed_local_onboarding: bool,
) -> (open: bool)
    ensures
        !open,
{
    !suppress_automatic_onboarding() && !is_onboarded && !is_anonymous
        && !has_completed_local_onboarding
}

/// Whether, after sign-in, onboarding is marked complete without showing the
/// slides: exactly when the server still considers a signed-in,
/// non-anonymous user not onboarded.
pub fn should_complete_post_auth_onboarding_without_showing(
    is_onboarded: bool,
    is_anonymous: bool,
) -> (complete: bool)
    ensures
        complete == (!is_onboarded && !is_anonymous),
{
    suppress_automatic_onboarding() && !is_onboarded && !is_anonymous
}

} // verus!
