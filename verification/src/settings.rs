//! The persisted settings record: PBX domain, extension, shared key and the
//! auto-answer flag.

use vstd::prelude::*;

verus! {

/// The mathematical value of a [`Settings`] record.
pub ghost struct SettingsView {
    pub domain: Seq<char>,
    pub extension: Seq<char>,
    pub key: Seq<char>,
    pub auto_answer: bool,
}

/// The settings a call attempt needs: where the PBX lives, which extension
/// originates the call, the shared secret, and whether the extension should
/// pick up on its own. Loaded once at startup and mutated only by an explicit
/// save.
#[derive(Clone, Debug)]
pub struct Settings {
    pub domain: String,
    pub extension: String,
    pub key: String,
    pub auto_answer: bool,
}

impl View for Settings {
    type V = SettingsView;

    open spec fn view(&self) -> SettingsView {
        SettingsView {
            domain: self.domain@,
            extension: self.extension@,
            key: self.key@,
            auto_answer: self.auto_answer,
        }
    }
}

impl PartialEq for Settings {
    fn eq(&self, other: &Settings) -> (r: bool) {
        self.domain == other.domain && self.extension == other.extension && self.key == other.key
            && self.auto_answer == other.auto_answer
    }
}

impl vstd::std_specs::cmp::PartialEqSpecImpl for Settings {
    open spec fn obeys_eq_spec() -> bool {
        true
    }

    open spec fn eq_spec(&self, other: &Settings) -> bool {
        self@ == other@
    }
}

impl Eq for Settings {}

/// Whether the settings are complete enough to route a forwarded call
/// silently: domain and extension are both set.
pub open spec fn configured(s: SettingsView) -> bool {
    s.domain.len() > 0 && s.extension.len() > 0
}

/// The value of the empty settings record.
pub open spec fn empty_settings() -> SettingsView {
    SettingsView {
        domain: Seq::empty(),
        extension: Seq::empty(),
        key: Seq::empty(),
        auto_answer: false,
    }
}

impl Settings {
    /// The empty record that stands in when no settings were ever saved or
    /// the saved ones cannot be read.
    pub fn empty() -> (r: Settings)
        ensures
            r@ == empty_settings(),
    {
        Settings {
            domain: String::new(),
            extension: String::new(),
            key: String::new(),
            auto_answer: false,
        }
    }

    /// Whether domain and extension are both set.
    pub fn is_configured(&self) -> (r: bool)
        ensures
            r == configured(self@),
    {
        !self.domain.as_str().is_empty() && !self.extension.as_str().is_empty()
    }
}

impl Default for Settings {
    fn default() -> (r: Settings)
        ensures
            r@ == empty_settings(),
    {
        Settings::empty()
    }
}

} // verus!
