//! The integration's configuration record and the endpoint it selects.

use vstd::prelude::*;

verus! {

/// Base URL of the vendor's managed gateway, used unless a self-hosted
/// endpoint is both selected and given.
pub const MANAGED_BASE_URL: &'static str = "https://ai-gateway.helicone.ai";

/// What a [`HeliconeConfig`] holds, with its strings as character sequences.
pub struct ConfigView {
    pub enabled: bool,
    pub api_key: Seq<char>,
    pub use_self_hosted: bool,
    pub self_hosted_url: Seq<char>,
}

impl ConfigView {
    /// The record every field of which has its default.
    pub open spec fn defaults() -> ConfigView {
        ConfigView {
            enabled: false,
            api_key: Seq::empty(),
            use_self_hosted: false,
            self_hosted_url: Seq::empty(),
        }
    }

    /// True when the record points at a caller-supplied endpoint: self-hosting
    /// is selected and the custom URL is not empty.
    pub open spec fn overrides_endpoint(self) -> bool {
        self.use_self_hosted && self.self_hosted_url.len() > 0
    }

    /// The one base URL the record stands for: the custom URL, untouched, when
    /// it overrides the endpoint, and the managed gateway otherwise.
    pub open spec fn base_url(self) -> Seq<char> {
        if self.overrides_endpoint() {
            self.self_hosted_url
        } else {
            MANAGED_BASE_URL@
        }
    }
}

/// Settings of the Helicone integration.
#[derive(Debug)]
pub struct HeliconeConfig {
    /// Whether the integration is active.
    pub enabled: bool,
    /// Credential for the Helicone API.
    pub api_key: String,
    /// Selects a custom endpoint over the managed one.
    pub use_self_hosted: bool,
    /// Base URL of the custom endpoint; read only when `use_self_hosted` is set.
    pub self_hosted_url: String,
}

impl View for HeliconeConfig {
    type V = ConfigView;

    open spec fn view(&self) -> ConfigView {
        ConfigView {
            enabled: self.enabled,
            api_key: self.api_key@,
            use_self_hosted: self.use_self_hosted,
            self_hosted_url: self.self_hosted_url@,
        }
    }
}

impl HeliconeConfig {
    /// The base URL that integration traffic goes to.
    pub fn get_base_url(&self) -> (url: String)
        ensures
            url@ == self@.base_url(),
    {
        if self.use_self_hosted && !self.self_hosted_url.as_str().is_empty() {
            self.self_hosted_url.clone()
        } else {
            MANAGED_BASE_URL.to_owned()
        }
    }
}

impl Default for HeliconeConfig {
    fn default() -> (config: Self)
        ensures
            config@ == ConfigView::defaults(),
    {
        HeliconeConfig {
            enabled: false,
            api_key: String::new(),
            use_self_hosted: false,
            self_hosted_url: String::new(),
        }
    }
}

impl PartialEq for HeliconeConfig {
    fn eq(&self, other: &Self) -> (equal: bool) {
        self.enabled == other.enabled && self.api_key == other.api_key && self.use_self_hosted
            == other.use_self_hosted && self.self_hosted_url == other.self_hosted_url
    }
}

impl vstd::std_specs::cmp::PartialEqSpecImpl for HeliconeConfig {
    open spec fn obeys_eq_spec() -> bool {
        true
    }

    /// Two records are equal when they hold the same values.
    open spec fn eq_spec(&self, other: &Self) -> bool {
        self@ == other@
    }
}

impl Clone for HeliconeConfig {
    fn clone(&self) -> (copy: Self)
        ensures
            copy == *self,
    {
        HeliconeConfig {
            enabled: self.enabled,
            api_key: self.api_key.clone(),
            use_self_hosted: self.use_self_hosted,
            self_hosted_url: self.self_hosted_url.clone(),
        }
    }
}

} // verus!
