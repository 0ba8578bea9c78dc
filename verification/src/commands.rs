//! The three operations on the integration's settings: read them, replace
//! them, and check that the configured endpoint answers.
//!
//! Replacing and checking each need work that lies outside this library, so
//! each comes in two halves. The first half decides what is to be done and
//! says so in its result; the second half takes what came of it and gives the
//! caller's answer.

use vstd::prelude::*;
use crate::config::{ConfigView, HeliconeConfig};
use crate::decimal::{decimal, push_decimal};

verus! {

/// Where the connectivity check goes when no self-hosted endpoint is selected.
/// It is a host of its own, not the managed gateway's base URL.
pub const CLOUD_PROBE_URL: &'static str = "https://api.helicone.ai/v1/models";

/// Path appended to a self-hosted base URL to form the probe URL.
pub const PROBE_PATH: &'static str = "/v1/models";

/// Scheme put before the API key in the `Authorization` header.
pub const BEARER_PREFIX: &'static str = "Bearer ";

/// Seconds after which an unanswered probe counts as failed.
pub const PROBE_TIMEOUT_SECS: u64 = 10;

/// Shown when the integration is switched off.
pub const MSG_NOT_ENABLED: &'static str = "Helicone is not enabled";

/// Shown when the integration is on but has no API key.
pub const MSG_KEY_REQUIRED: &'static str = "Helicone API key is required";

/// Shown when the endpoint answered with a success status.
pub const MSG_CONNECTED: &'static str = "Successfully connected to Helicone";

/// Put before the reason when no response arrived.
pub const MSG_TRANSPORT_PREFIX: &'static str = "Connection failed: ";

/// Put before the status code of a response outside the success class.
pub const MSG_STATUS_PREFIX: &'static str = "Failed to connect: HTTP ";

/// The application settings that enclose the integration's record.
#[derive(Debug, PartialEq)]
pub struct AppConfig {
    pub helicone: HeliconeConfig,
}

/// An [`AppConfig`] over views.
pub struct AppConfigView {
    pub helicone: ConfigView,
}

impl View for AppConfig {
    type V = AppConfigView;

    open spec fn view(&self) -> AppConfigView {
        AppConfigView { helicone: self.helicone@ }
    }
}

impl AppConfigView {
    /// The record that reading the settings yields.
    pub open spec fn stored(self) -> ConfigView {
        self.helicone
    }

    /// The settings after their record has been replaced by `config`.
    pub open spec fn replaced(self, config: ConfigView) -> AppConfigView {
        AppConfigView { helicone: config, ..self }
    }
}

impl Clone for AppConfig {
    fn clone(&self) -> (copy: Self)
        ensures
            copy == *self,
    {
        AppConfig { helicone: self.helicone.clone() }
    }
}

/// Outcome of a connectivity check, ready to be shown.
#[derive(Debug, PartialEq)]
pub struct TestResult {
    pub success: bool,
    pub message: String,
}

/// A [`TestResult`] with its message as a character sequence.
pub struct ResultView {
    pub success: bool,
    pub message: Seq<char>,
}

impl View for TestResult {
    type V = ResultView;

    open spec fn view(&self) -> ResultView {
        ResultView { success: self.success, message: self.message@ }
    }
}

impl Clone for TestResult {
    fn clone(&self) -> (copy: Self)
        ensures
            copy == *self,
    {
        TestResult { success: self.success, message: self.message.clone() }
    }
}

/// The single GET request of a connectivity check.
#[derive(Debug, PartialEq)]
pub struct ProbeRequest {
    /// Address to fetch.
    pub url: String,
    /// Value of the `Authorization` header.
    pub authorization: String,
    /// Seconds to wait for the response.
    pub timeout_secs: u64,
}

/// A [`ProbeRequest`] with its strings as character sequences.
pub struct RequestView {
    pub url: Seq<char>,
    pub authorization: Seq<char>,
    pub timeout_secs: u64,
}

impl View for ProbeRequest {
    type V = RequestView;

    open spec fn view(&self) -> RequestView {
        RequestView {
            url: self.url@,
            authorization: self.authorization@,
            timeout_secs: self.timeout_secs,
        }
    }
}

/// What the first half of a connectivity check decided.
#[derive(Debug, PartialEq)]
pub enum ProbeStep {
    /// The settings rule the check out; nothing is to be sent.
    Finished(TestResult),
    /// This request is to be sent, once.
    Send(ProbeRequest),
}

/// A [`ProbeStep`] over views.
pub enum StepView {
    Finished(ResultView),
    Send(RequestView),
}

impl View for ProbeStep {
    type V = StepView;

    open spec fn view(&self) -> StepView {
        match self {
            ProbeStep::Finished(result) => StepView::Finished(result@),
            ProbeStep::Send(request) => StepView::Send(request@),
        }
    }
}

/// What became of a probe that was sent.
#[derive(Debug, PartialEq)]
pub enum ProbeOutcome {
    /// No response arrived; the text describes why.
    Failed(String),
    /// A response arrived with this status code.
    Responded(u16),
}

/// A [`ProbeOutcome`] over views.
pub enum OutcomeView {
    Failed(Seq<char>),
    Responded(u16),
}

impl View for ProbeOutcome {
    type V = OutcomeView;

    open spec fn view(&self) -> OutcomeView {
        match self {
            ProbeOutcome::Failed(reason) => OutcomeView::Failed(reason@),
            ProbeOutcome::Responded(status) => OutcomeView::Responded(*status),
        }
    }
}

/// A status code of the success class, 200 to 299.
pub open spec fn is_success_status(status: u16) -> bool {
    200 <= status < 300
}

/// Address that the check fetches for a record. A self-hosted record is
/// probed under its base URL; any other at the fixed cloud address, whatever
/// its base URL is.
pub open spec fn probe_url(config: ConfigView) -> Seq<char> {
    if config.use_self_hosted {
        config.base_url() + PROBE_PATH@
    } else {
        CLOUD_PROBE_URL@
    }
}

/// The request that checks a record.
pub open spec fn probe_request(config: ConfigView) -> RequestView {
    RequestView {
        url: probe_url(config),
        authorization: BEARER_PREFIX@ + config.api_key,
        timeout_secs: PROBE_TIMEOUT_SECS,
    }
}

/// The first half of the check: a disabled record ends it, then a record
/// without a key ends it, and every other record has its request sent.
pub open spec fn probe_step(config: ConfigView) -> StepView {
    if !config.enabled {
        StepView::Finished(ResultView { success: false, message: MSG_NOT_ENABLED@ })
    } else if config.api_key.len() == 0 {
        StepView::Finished(ResultView { success: false, message: MSG_KEY_REQUIRED@ })
    } else {
        StepView::Send(probe_request(config))
    }
}

/// The second half of the check: what a sent probe's outcome is reported as.
pub open spec fn probe_result(outcome: OutcomeView) -> ResultView {
    match outcome {
        OutcomeView::Failed(reason) => ResultView {
            success: false,
            message: MSG_TRANSPORT_PREFIX@ + reason,
        },
        OutcomeView::Responded(status) => if is_success_status(status) {
            ResultView { success: true, message: MSG_CONNECTED@ }
        } else {
            ResultView {
                success: false,
                message: MSG_STATUS_PREFIX@ + decimal(status as nat),
            }
        },
    }
}

/// Returns a copy of the stored record. Always `Ok`.
pub fn get_helicone_config(state: &AppConfig) -> (found: Result<HeliconeConfig, String>)
    ensures
        found matches Ok(config) && config@ == state@.stored(),
{
    Ok(state.helicone.clone())
}

/// Replaces the stored record with `config`, whatever it holds, and returns
/// the snapshot of the settings that is to be persisted. The replacement is
/// done when this returns; nothing that happens to the snapshot undoes it.
pub fn set_helicone_config(config: HeliconeConfig, state: &mut AppConfig) -> (snapshot: AppConfig)
    ensures
        final(state)@ == old(state)@.replaced(config@),
        snapshot@ == final(state)@,
{
    state.helicone = config;
    state.clone()
}

/// An outcome of persisting, or of reporting it, with its message as a
/// character sequence.
pub open spec fn outcome_text(outcome: Result<(), String>) -> Result<(), Seq<char>> {
    match outcome {
        Ok(_) => Ok(()),
        Err(message) => Err(message@),
    }
}

/// What replacing the record reports for an outcome of persisting: that
/// outcome. A failure keeps its message and is not retried.
pub open spec fn save_report(saved: Result<(), Seq<char>>) -> Result<(), Seq<char>> {
    saved
}

/// What replacing the record reports once persisting the snapshot has ended
/// with `saved`: success, or the failure with its message unchanged.
pub fn persisted(saved: Result<(), String>) -> (reported: Result<(), String>)
    ensures
        outcome_text(reported) == save_report(outcome_text(saved)),
{
    match saved {
        Ok(_) => Ok(()),
        Err(message) => Err(message),
    }
}

/// First half of the connectivity check: decides from the stored record
/// whether a probe is sent, and which.
pub fn test_helicone_connection(state: &AppConfig) -> (step: ProbeStep)
    ensures
        step@ == probe_step(state@.stored()),
{
    let config = &state.helicone;
    if !config.enabled {
        return ProbeStep::Finished(
            TestResult { success: false, message: MSG_NOT_ENABLED.to_owned() },
        );
    }
    if config.api_key.as_str().is_empty() {
        return ProbeStep::Finished(
            TestResult { success: false, message: MSG_KEY_REQUIRED.to_owned() },
        );
    }
    let url = if config.use_self_hosted {
        config.get_base_url().concat(PROBE_PATH)
    } else {
        CLOUD_PROBE_URL.to_owned()
    };
    let authorization = BEARER_PREFIX.to_owned().concat(config.api_key.as_str());
    ProbeStep::Send(ProbeRequest { url, authorization, timeout_secs: PROBE_TIMEOUT_SECS })
}

/// Second half of the connectivity check: turns the outcome of the probe
/// into the result to show.
pub fn connection_result(outcome: ProbeOutcome) -> (result: TestResult)
    ensures
        result@ == probe_result(outcome@),
{
    match outcome {
        ProbeOutcome::Failed(reason) => TestResult {
            success: false,
            message: MSG_TRANSPORT_PREFIX.to_owned().concat(reason.as_str()),
        },
        ProbeOutcome::Responded(status) => {
            if 200 <= status && status < 300 {
                TestResult { success: true, message: MSG_CONNECTED.to_owned() }
            } else {
                let mut message = MSG_STATUS_PREFIX.to_owned();
                push_decimal(&mut message, status);
                TestResult { success: false, message }
            }
        },
    }
}

} // verus!
