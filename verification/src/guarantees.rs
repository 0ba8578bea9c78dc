//! What holds of every record and every outcome, stated over the models that
//! the operations' contracts speak of.

use vstd::prelude::*;
use crate::commands::{
    probe_step, save_report, AppConfigView, ResultView, StepView, MSG_KEY_REQUIRED,
    MSG_NOT_ENABLED,
};
use crate::config::{ConfigView, MANAGED_BASE_URL};

verus! {

/// A record of defaults is disabled, has an empty key, does not select a
/// self-hosted endpoint, has an empty custom URL, and stands for the managed
/// gateway.
pub proof fn defaults_select_managed_gateway()
    ensures
        !ConfigView::defaults().enabled,
        ConfigView::defaults().api_key.len() == 0,
        !ConfigView::defaults().use_self_hosted,
        ConfigView::defaults().self_hosted_url.len() == 0,
        ConfigView::defaults().base_url() == MANAGED_BASE_URL@,
{
}

/// A record that selects self-hosting with a non-empty custom URL stands for
/// exactly that URL, character for character.
pub proof fn self_hosted_url_is_kept_verbatim(config: ConfigView)
    requires
        config.use_self_hosted,
        config.self_hosted_url.len() > 0,
    ensures
        config.base_url() == config.self_hosted_url,
{
}

/// A record with an empty custom URL stands for the managed gateway even
/// when it selects self-hosting; its base URL is never the empty string.
pub proof fn empty_self_hosted_url_falls_back(config: ConfigView)
    requires
        config.self_hosted_url.len() == 0,
    ensures
        config.base_url() == MANAGED_BASE_URL@,
        config.base_url().len() > 0,
{
    reveal_strlit("https://ai-gateway.helicone.ai");
}

/// Every record stands for exactly one of the two endpoints, and for a
/// non-empty one.
pub proof fn base_url_is_one_of_two(config: ConfigView)
    ensures
        config.base_url() == MANAGED_BASE_URL@ || config.base_url() == config.self_hosted_url,
        config.base_url().len() > 0,
{
    reveal_strlit("https://ai-gateway.helicone.ai");
}

/// A disabled record ends the connectivity check at once, whatever its other
/// fields hold: the result is a failure that says so, and no request is sent.
pub proof fn disabled_record_sends_nothing(config: ConfigView)
    requires
        !config.enabled,
    ensures
        probe_step(config) == StepView::Finished(
            ResultView { success: false, message: MSG_NOT_ENABLED@ },
        ),
        !(probe_step(config) is Send),
{
}

/// An enabled record without a key ends the connectivity check at once: the
/// result is a failure that asks for the key, and no request is sent.
pub proof fn missing_key_sends_nothing(config: ConfigView)
    requires
        config.enabled,
        config.api_key.len() == 0,
    ensures
        probe_step(config) == StepView::Finished(
            ResultView { success: false, message: MSG_KEY_REQUIRED@ },
        ),
        !(probe_step(config) is Send),
{
}

/// A request is sent exactly for the records that are enabled and have a key.
pub proof fn request_sent_iff_enabled_with_key(config: ConfigView)
    ensures
        probe_step(config) is Send <==> config.enabled && config.api_key.len() > 0,
{
}

/// Replacing the record is unconditional. When persisting fails, the failure
/// is reported with its message, and reading the settings afterwards still
/// yields the new record, whatever the settings held before.
pub proof fn failed_save_keeps_replacement(
    before: AppConfigView,
    config: ConfigView,
    failure: Seq<char>,
)
    ensures
        save_report(Err(failure)) == Err::<(), Seq<char>>(failure),
        before.replaced(config).stored() == config,
{
}

/// Persisting that succeeds is reported as success, and the new record is
/// read back all the same.
pub proof fn successful_save_keeps_replacement(before: AppConfigView, config: ConfigView)
    ensures
        save_report(Ok(())) == Ok::<(), Seq<char>>(()),
        before.replaced(config).stored() == config,
{
}

} // verus!
