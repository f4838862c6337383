//! Whether the log file is kept: the setting in use and the one chosen, which
//! takes effect at the next start.
use vstd::prelude::*;
use vstd::string::*;

verus! {

/// The log setting the program started with and the one chosen since.
pub struct LogSettings {
    pub enabled_at_start: bool,
    pub current: bool,
}

impl LogSettings {
    /// Settings at start-up, both as read.
    pub fn new(enabled: bool) -> (r: Self)
        ensures
            r.enabled_at_start == enabled,
            r.current == enabled,
    {
        LogSettings { enabled_at_start: enabled, current: enabled }
    }

    /// Whether the log file is kept, as chosen.
    pub fn is_log_enabled(&self) -> (r: bool)
        ensures
            r == self.current,
    {
        self.current
    }

    /// Whether the choice differs from the setting in use (a restart applies it).
    pub fn is_log_config_changed(&self) -> (r: bool)
        ensures
            r == (self.enabled_at_start != self.current),
    {
        self.enabled_at_start != self.current
    }

    /// Chooses whether the log file is kept; returns the text to save.
    pub fn set_log_enabled(&mut self, enabled: bool) -> (r: &'static str)
        ensures
            final(self).current == enabled,
            final(self).enabled_at_start == old(self).enabled_at_start,
            r@ == log_config_text(enabled),
    {
        self.current = enabled;
        log_config_text_exec(enabled)
    }
}

/// The saved form of the log setting.
pub open spec fn log_config_text(enabled: bool) -> Seq<char> {
    if enabled {
        "enabled"@
    } else {
        "disabled"@
    }
}

/// The saved form of the log setting.
pub fn log_config_text_exec(enabled: bool) -> (r: &'static str)
    ensures
        r@ == log_config_text(enabled),
{
    if enabled {
        "enabled"
    } else {
        "disabled"
    }
}

/// Reads the saved log setting: on when the text, trimmed, is `enabled`.
pub fn parse_log_config(content: &str) -> (r: bool)
    ensures
        r == (crate::text::trim(content@) == "enabled"@),
{
    let v = crate::text::str_chars(content);
    let t = crate::text::trim_chars(v.as_slice());
    crate::text::chars_eq_str(t.as_slice(), "enabled")
}

/// Reading back the saved form of a setting gives the setting.
pub proof fn lemma_log_config_read_back(enabled: bool)
    ensures
        (crate::text::trim(log_config_text(enabled)) == "enabled"@) == enabled,
{
    reveal_strlit("enabled");
    reveal_strlit("disabled");
    let t = log_config_text(enabled);
    assert(!crate::text::unicode_white_space(t[0]));
    assert(!crate::text::unicode_white_space(t.last()));
    assert(crate::text::trim_start(t) == t);
    assert(crate::text::trim_end(t) == t);
    if !enabled {
        assert(t.len() != "enabled"@.len());
    }
}

} // verus!
