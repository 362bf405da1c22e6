//! The settings that the settings page edits, and the limits that it holds
//! their numbers to.

use vstd::prelude::*;

verus! {

/// The smallest editor font size that can be set.
pub const MIN_FONT_SIZE: u32 = 10;

/// The largest editor font size that can be set.
pub const MAX_FONT_SIZE: u32 = 24;

/// The smallest default row limit that can be set.
pub const MIN_ROW_LIMIT: u64 = 100;

/// The largest default row limit that can be set.
pub const MAX_ROW_LIMIT: u64 = 100_000;

/// `value` if it lies between `low` and `high`, and else the nearer of the
/// two.
pub open spec fn clamped(value: int, low: int, high: int) -> int {
    if value < low {
        low
    } else if value > high {
        high
    } else {
        value
    }
}

/// The font size that is set when `value` is asked for.
pub fn clamp_font_size(value: u32) -> (size: u32)
    ensures
        size == clamped(value as int, MIN_FONT_SIZE as int, MAX_FONT_SIZE as int),
        MIN_FONT_SIZE <= size <= MAX_FONT_SIZE,
{
    if value < MIN_FONT_SIZE {
        MIN_FONT_SIZE
    } else if value > MAX_FONT_SIZE {
        MAX_FONT_SIZE
    } else {
        value
    }
}

/// The row limit that is set when `value` is asked for.
pub fn clamp_row_limit(value: u64) -> (limit: u64)
    ensures
        limit == clamped(value as int, MIN_ROW_LIMIT as int, MAX_ROW_LIMIT as int),
        MIN_ROW_LIMIT <= limit <= MAX_ROW_LIMIT,
{
    if value < MIN_ROW_LIMIT {
        MIN_ROW_LIMIT
    } else if value > MAX_ROW_LIMIT {
        MAX_ROW_LIMIT
    } else {
        value
    }
}

/// What the user can set.
#[derive(Debug, Clone, PartialEq, Eq)]
pub struct Settings {
    pub theme: String,
    pub font_size: u32,
    pub row_limit: u64,
    pub autocomplete: bool,
}

/// What a [`Settings`] stands for in contracts.
pub struct SettingsView {
    pub theme: Seq<char>,
    pub font_size: nat,
    pub row_limit: nat,
    pub autocomplete: bool,
}

impl SettingsView {
    /// Both numbers lie within their limits.
    pub open spec fn within_limits(self) -> bool {
        &&& MIN_FONT_SIZE <= self.font_size <= MAX_FONT_SIZE
        &&& MIN_ROW_LIMIT <= self.row_limit <= MAX_ROW_LIMIT
    }
}

impl View for Settings {
    type V = SettingsView;

    open spec fn view(&self) -> SettingsView {
        SettingsView {
            theme: self.theme@,
            font_size: self.font_size as nat,
            row_limit: self.row_limit as nat,
            autocomplete: self.autocomplete,
        }
    }
}

impl Settings {
    /// Settings with the given values, the two numbers brought within their
    /// limits.
    pub fn new(theme: String, font_size: u32, row_limit: u64, autocomplete: bool) -> (settings:
        Settings)
        ensures
            settings@ == (SettingsView {
                theme: theme@,
                font_size: clamped(
                    font_size as int,
                    MIN_FONT_SIZE as int,
                    MAX_FONT_SIZE as int,
                ) as nat,
                row_limit: clamped(
                    row_limit as int,
                    MIN_ROW_LIMIT as int,
                    MAX_ROW_LIMIT as int,
                ) as nat,
                autocomplete,
            }),
            settings@.within_limits(),
    {
        Settings {
            theme,
            font_size: clamp_font_size(font_size),
            row_limit: clamp_row_limit(row_limit),
            autocomplete,
        }
    }

    /// True iff both numbers lie within their limits.
    pub fn is_within_limits(&self) -> (ok: bool)
        ensures
            ok == self@.within_limits(),
    {
        MIN_FONT_SIZE <= self.font_size && self.font_size <= MAX_FONT_SIZE && MIN_ROW_LIMIT
            <= self.row_limit && self.row_limit <= MAX_ROW_LIMIT
    }

    /// Sets the theme.
    pub fn set_theme(&mut self, theme: String)
        ensures
            final(self)@ == (SettingsView { theme: theme@, ..old(self)@ }),
    {
        self.theme = theme;
    }

    /// Sets the editor font size to `value`, or to the nearest size allowed.
    pub fn set_font_size(&mut self, value: u32)
        ensures
            final(self)@ == (SettingsView {
                font_size: clamped(value as int, MIN_FONT_SIZE as int, MAX_FONT_SIZE as int) as nat,
                ..old(self)@
            }),
            old(self)@.within_limits() ==> final(self)@.within_limits(),
    {
        self.font_size = clamp_font_size(value);
    }

    /// Sets the default row limit to `value`, or to the nearest limit
    /// allowed.
    pub fn set_row_limit(&mut self, value: u64)
        ensures
            final(self)@ == (SettingsView {
                row_limit: clamped(value as int, MIN_ROW_LIMIT as int, MAX_ROW_LIMIT as int) as nat,
                ..old(self)@
            }),
            old(self)@.within_limits() ==> final(self)@.within_limits(),
    {
        self.row_limit = clamp_row_limit(value);
    }

    /// Switches auto-completion on if it is off, and off if it is on.
    pub fn toggle_autocomplete(&mut self)
        ensures
            final(self)@ == (SettingsView { autocomplete: !old(self)@.autocomplete, ..old(self)@ }),
    {
        self.autocomplete = !self.autocomplete;
    }
}

} // verus!
