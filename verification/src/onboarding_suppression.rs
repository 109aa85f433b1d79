use vstd::prelude::*;

verus! {

/// Returns true for this terminal-focused build, where automatic first-run
/// onboarding and product-promo surfaces stay hidden.
pub fn suppress_automatic_onboarding() -> (suppressed: bool)
    ensures
        suppressed,
{
    true
}

/// Launch modals are hidden exactly when automatic onboarding is.
pub fn suppress_automatic_launch_modals() -> (suppressed: bool)
    ensures
        suppressed,
{
    suppress_automatic_onboarding()
}

/// New-feature prompts are hidden exactly when automatic onboarding is.
pub fn suppress_automatic_new_feature_prompts() -> (suppressed: bool)
    ensures
        suppressed,
{
    suppress_automatic_onboarding()
}

/// When true, the passive prompt suggestion custom endpoint bypasses the
/// login check and the active-AI master toggle, so the custom endpoint works
/// for users who have not signed in. The endpoint fields (enabled flag, base
/// URL, model, API key) still have to be configured.
pub fn bypass_auth_for_custom_endpoint() -> (bypass: bool)
    ensures
        bypass,
{
    true
}

} // verus!
