//! The preferences of the user.

use vstd::prelude::*;

verus! {

/// The only anchor there is: the lower left corner of the Codex window.
pub const ANCHOR_CODEX_BOTTOM_LEFT: &'static str = "codex-bottom-left";

/// The shortest time between two looks at the balance, in seconds.
pub const MIN_BALANCE_INTERVAL_S: u64 = 5;

/// The shortest time between two looks at the bill, in minutes.
pub const MIN_USAGE_INTERVAL_MIN: u64 = 1;

/// All preferences. The position is kept relative to the Codex window, never as
/// a place on the screen.
#[derive(Debug)]
pub struct WidgetPrefs {
    pub anchor: String,
    /// The offset from the default place in logical pixels, as the 64 bits of a
    /// floating-point number; 0 stands for no offset.
    pub offset_x: u64,
    pub offset_y: u64,
    pub show_balance: bool,
    pub show_tokens: bool,
    pub show_today_cost: bool,
    pub show_month_cost: bool,
    pub start_visible: bool,
    pub autostart: bool,
    pub balance_interval_s: u64,
    pub usage_interval_min: u64,
}

/// The preferences that the settings page shows.
#[derive(Clone, Copy, Debug, PartialEq, Eq, Structural)]
pub struct UiSettings {
    pub show_balance: bool,
    pub show_tokens: bool,
    pub show_today_cost: bool,
    pub show_month_cost: bool,
    pub start_visible: bool,
    pub autostart: bool,
    pub balance_interval_s: u64,
    pub usage_interval_min: u64,
}

/// The settings before the user changes them.
pub open spec fn default_settings() -> UiSettings {
    UiSettings {
        show_balance: true,
        show_tokens: true,
        show_today_cost: true,
        show_month_cost: true,
        start_visible: true,
        autostart: true,
        balance_interval_s: 60,
        usage_interval_min: 5,
    }
}

/// The larger of two numbers.
pub open spec fn at_least(n: u64, least: u64) -> u64 {
    if n < least {
        least
    } else {
        n
    }
}

/// Settings as they are accepted: no interval is shorter than its minimum.
pub open spec fn accepted(s: UiSettings) -> UiSettings {
    UiSettings {
        balance_interval_s: at_least(s.balance_interval_s, MIN_BALANCE_INTERVAL_S),
        usage_interval_min: at_least(s.usage_interval_min, MIN_USAGE_INTERVAL_MIN),
        ..s
    }
}

impl WidgetPrefs {
    /// The part that the settings page shows.
    pub open spec fn settings(&self) -> UiSettings {
        UiSettings {
            show_balance: self.show_balance,
            show_tokens: self.show_tokens,
            show_today_cost: self.show_today_cost,
            show_month_cost: self.show_month_cost,
            start_visible: self.start_visible,
            autostart: self.autostart,
            balance_interval_s: self.balance_interval_s,
            usage_interval_min: self.usage_interval_min,
        }
    }

    /// Whether the position has an anchor. Preferences that were loaded have one,
    /// and every change keeps it.
    pub open spec fn has_anchor(&self) -> bool {
        self.anchor@.len() > 0
    }

    /// Whether the position is the default one.
    pub open spec fn at_default_place(&self) -> bool {
        &&& self.anchor@ == ANCHOR_CODEX_BOTTOM_LEFT@
        &&& self.offset_x == 0
        &&& self.offset_y == 0
    }

    /// Whether two preferences have the same position.
    pub open spec fn same_place(&self, other: &WidgetPrefs) -> bool {
        &&& self.anchor@ == other.anchor@
        &&& self.offset_x == other.offset_x
        &&& self.offset_y == other.offset_y
    }
}

impl Default for WidgetPrefs {
    /// The preferences before the user changes them.
    fn default() -> (r: WidgetPrefs)
        ensures
            r.at_default_place(),
            r.settings() == default_settings(),
            r.has_anchor(),
    {
        proof {
            reveal_strlit("codex-bottom-left");
        }
        WidgetPrefs {
            anchor: ANCHOR_CODEX_BOTTOM_LEFT.to_owned(),
            offset_x: 0,
            offset_y: 0,
            show_balance: true,
            show_tokens: true,
            show_today_cost: true,
            show_month_cost: true,
            start_visible: true,
            autostart: true,
            balance_interval_s: 60,
            usage_interval_min: 5,
        }
    }
}

impl Default for UiSettings {
    /// The settings of the default preferences.
    fn default() -> (r: UiSettings)
        ensures
            r == default_settings(),
    {
        let p: WidgetPrefs = WidgetPrefs::default();
        get_ui_settings(&p)
    }
}

/// The preferences to start with, from those that were saved, if they could be
/// read. An empty anchor is replaced by the only one there is.
pub fn load_prefs(saved: Option<WidgetPrefs>) -> (r: WidgetPrefs)
    ensures
        match saved {
            Some(p) => {
                &&& r.settings() == p.settings()
                &&& r.offset_x == p.offset_x
                &&& r.offset_y == p.offset_y
                &&& r.anchor@ == if p.anchor@.len() == 0 {
                    ANCHOR_CODEX_BOTTOM_LEFT@
                } else {
                    p.anchor@
                }
            },
            None => r.at_default_place() && r.settings() == default_settings(),
        },
        r.has_anchor(),
{
    let mut prefs: WidgetPrefs = match saved {
        Some(p) => p,
        None => WidgetPrefs::default(),
    };
    proof {
        reveal_strlit("codex-bottom-left");
    }
    if prefs.anchor.as_str().is_empty() {
        prefs.anchor = ANCHOR_CODEX_BOTTOM_LEFT.to_owned();
    }
    prefs
}

/// Puts the widget back to its default place.
pub fn reset_widget_position(prefs: &mut WidgetPrefs)
    ensures
        final(prefs).at_default_place(),
        final(prefs).settings() == old(prefs).settings(),
        final(prefs).has_anchor(),
{
    proof {
        reveal_strlit("codex-bottom-left");
    }
    prefs.anchor = ANCHOR_CODEX_BOTTOM_LEFT.to_owned();
    prefs.offset_x = 0;
    prefs.offset_y = 0;
}

/// Remembers the offset that a drag came to.
pub fn remember_offset(prefs: &mut WidgetPrefs, offset_x: u64, offset_y: u64)
    ensures
        final(prefs).anchor@ == ANCHOR_CODEX_BOTTOM_LEFT@,
        final(prefs).offset_x == offset_x,
        final(prefs).offset_y == offset_y,
        final(prefs).settings() == old(prefs).settings(),
        final(prefs).has_anchor(),
{
    proof {
        reveal_strlit("codex-bottom-left");
    }
    prefs.anchor = ANCHOR_CODEX_BOTTOM_LEFT.to_owned();
    prefs.offset_x = offset_x;
    prefs.offset_y = offset_y;
}

/// The part of the preferences that the settings page shows.
pub fn get_ui_settings(prefs: &WidgetPrefs) -> (r: UiSettings)
    ensures
        r == prefs.settings(),
{
    UiSettings {
        show_balance: prefs.show_balance,
        show_tokens: prefs.show_tokens,
        show_today_cost: prefs.show_today_cost,
        show_month_cost: prefs.show_month_cost,
        start_visible: prefs.start_visible,
        autostart: prefs.autostart,
        balance_interval_s: prefs.balance_interval_s,
        usage_interval_min: prefs.usage_interval_min,
    }
}

fn raise(n: u64, least: u64) -> (r: u64)
    ensures
        r == at_least(n, least),
{
    if n < least {
        least
    } else {
        n
    }
}

/// Takes over what the settings page says; no interval becomes shorter than its
/// minimum, and the position stays.
pub fn set_ui_settings(settings: &UiSettings, prefs: &mut WidgetPrefs)
    ensures
        final(prefs).settings() == accepted(*settings),
        final(prefs).same_place(old(prefs)),
        old(prefs).has_anchor() ==> final(prefs).has_anchor(),
{
    prefs.show_balance = settings.show_balance;
    prefs.show_tokens = settings.show_tokens;
    prefs.show_today_cost = settings.show_today_cost;
    prefs.show_month_cost = settings.show_month_cost;
    prefs.start_visible = settings.start_visible;
    prefs.autostart = settings.autostart;
    prefs.balance_interval_s = raise(settings.balance_interval_s, MIN_BALANCE_INTERVAL_S);
    prefs.usage_interval_min = raise(settings.usage_interval_min, MIN_USAGE_INTERVAL_MIN);
}

/// Settings that respect the minima are shown again as they were entered; the
/// default ones are among them.
pub proof fn law_settings_read_back(s: UiSettings)
    ensures
        s.balance_interval_s >= MIN_BALANCE_INTERVAL_S && s.usage_interval_min
            >= MIN_USAGE_INTERVAL_MIN <==> accepted(s) == s,
        accepted(default_settings()) == default_settings(),
{
}

/// What was accepted once is accepted unchanged, and respects the minima.
pub proof fn law_accepting_is_idempotent(s: UiSettings)
    ensures
        accepted(accepted(s)) == accepted(s),
        accepted(s).balance_interval_s >= MIN_BALANCE_INTERVAL_S,
        accepted(s).usage_interval_min >= MIN_USAGE_INTERVAL_MIN,
{
}

/// The settings page shows each preference under its own name.
pub proof fn law_each_preference_is_shown(p: WidgetPrefs)
    ensures
        p.settings().show_balance == p.show_balance,
        p.settings().show_tokens == p.show_tokens,
        p.settings().show_today_cost == p.show_today_cost,
        p.settings().show_month_cost == p.show_month_cost,
        p.settings().start_visible == p.start_visible,
        p.settings().autostart == p.autostart,
        p.settings().balance_interval_s == p.balance_interval_s,
        p.settings().usage_interval_min == p.usage_interval_min,
{
}

/// Preferences that took over settings have each switch as the setting of its
/// name says, and each interval too, unless it is shorter than 5 seconds or 1
/// minute.
pub proof fn law_each_setting_is_taken_over(p: WidgetPrefs, s: UiSettings)
    requires
        p.settings() == accepted(s),
    ensures
        p.show_balance == s.show_balance,
        p.show_tokens == s.show_tokens,
        p.show_today_cost == s.show_today_cost,
        p.show_month_cost == s.show_month_cost,
        p.start_visible == s.start_visible,
        p.autostart == s.autostart,
        s.balance_interval_s >= 5 ==> p.balance_interval_s == s.balance_interval_s,
        s.balance_interval_s < 5 ==> p.balance_interval_s == 5,
        s.usage_interval_min >= 1 ==> p.usage_interval_min == s.usage_interval_min,
        s.usage_interval_min < 1 ==> p.usage_interval_min == 1,
{
}

/// Two settings pages that differ in some switches leave preferences that differ
/// in those and agree in all others.
pub proof fn law_switches_are_independent(
    p: WidgetPrefs,
    s: UiSettings,
    q: WidgetPrefs,
    t: UiSettings,
)
    requires
        p.settings() == accepted(s),
        q.settings() == accepted(t),
    ensures
        p.show_balance == q.show_balance <==> s.show_balance == t.show_balance,
        p.show_tokens == q.show_tokens <==> s.show_tokens == t.show_tokens,
        p.show_today_cost == q.show_today_cost <==> s.show_today_cost == t.show_today_cost,
        p.show_month_cost == q.show_month_cost <==> s.show_month_cost == t.show_month_cost,
        p.start_visible == q.start_visible <==> s.start_visible == t.start_visible,
        p.autostart == q.autostart <==> s.autostart == t.autostart,
{
}

/// Before the user changes anything, everything is shown and started, the balance
/// is looked at every 60 seconds and the bill every 5 minutes.
pub proof fn law_default_preferences(p: WidgetPrefs)
    requires
        p.settings() == default_settings(),
    ensures
        p.show_balance,
        p.show_tokens,
        p.show_today_cost,
        p.show_month_cost,
        p.start_visible,
        p.autostart,
        p.balance_interval_s == 60,
        p.usage_interval_min == 5,
{
}

/// The position is the anchor and the two offsets: the default one is at the lower
/// left corner of the Codex window without an offset, and two positions are the
/// same where all three are.
pub proof fn law_position_is_anchor_and_offsets(p: WidgetPrefs, q: WidgetPrefs)
    ensures
        p.at_default_place() <==> p.anchor@ == "codex-bottom-left"@ && p.offset_x == 0
            && p.offset_y == 0,
        p.same_place(&q) <==> p.anchor@ == q.anchor@ && p.offset_x == q.offset_x && p.offset_y
            == q.offset_y,
        p.has_anchor() <==> p.anchor@ != Seq::<char>::empty(),
        ANCHOR_CODEX_BOTTOM_LEFT@ == "codex-bottom-left"@,
{
    if p.anchor@.len() == 0 {
        assert(p.anchor@ == Seq::<char>::empty());
    }
}

// ---------------------------------------------------------------------------
// What the operations do
// ---------------------------------------------------------------------------

/// After `set_ui_settings` each switch among the preferences is the setting of the
/// same name, each interval too unless it is too short, and the position is what
/// it was.
pub proof fn law_set_ui_settings_sets_each_by_its_name(
    settings: &UiSettings,
    prefs: &mut WidgetPrefs,
)
    requires
        call_ensures(set_ui_settings, (settings, prefs), ()),
    ensures
        final(prefs).show_balance == settings.show_balance,
        final(prefs).show_tokens == settings.show_tokens,
        final(prefs).show_today_cost == settings.show_today_cost,
        final(prefs).show_month_cost == settings.show_month_cost,
        final(prefs).start_visible == settings.start_visible,
        final(prefs).autostart == settings.autostart,
        final(prefs).balance_interval_s == if settings.balance_interval_s < 5 {
            5
        } else {
            settings.balance_interval_s
        },
        final(prefs).usage_interval_min == if settings.usage_interval_min < 1 {
            1
        } else {
            settings.usage_interval_min
        },
        final(prefs).anchor@ == old(prefs).anchor@,
        final(prefs).offset_x == old(prefs).offset_x,
        final(prefs).offset_y == old(prefs).offset_y,
{
}

/// `get_ui_settings` gives each setting the value of the preference of the same
/// name.
pub proof fn law_get_ui_settings_gives_each_by_its_name(prefs: &WidgetPrefs, shown: UiSettings)
    requires
        call_ensures(get_ui_settings, (prefs,), shown),
    ensures
        shown.show_balance == prefs.show_balance,
        shown.show_tokens == prefs.show_tokens,
        shown.show_today_cost == prefs.show_today_cost,
        shown.show_month_cost == prefs.show_month_cost,
        shown.start_visible == prefs.start_visible,
        shown.autostart == prefs.autostart,
        shown.balance_interval_s == prefs.balance_interval_s,
        shown.usage_interval_min == prefs.usage_interval_min,
{
}

/// What was set is shown: settings with intervals that are long enough come back
/// as they were entered.
pub proof fn law_what_was_set_is_shown(
    settings: &UiSettings,
    prefs: &mut WidgetPrefs,
    after: &WidgetPrefs,
    shown: UiSettings,
)
    requires
        call_ensures(set_ui_settings, (settings, prefs), ()),
        *after == *final(prefs),
        call_ensures(get_ui_settings, (after,), shown),
        settings.balance_interval_s >= 5,
        settings.usage_interval_min >= 1,
    ensures
        shown == *settings,
{
}

/// `load_prefs` keeps all that was saved, but for an empty anchor, which it
/// replaces.
pub proof fn law_load_prefs_keeps_what_was_saved(saved: WidgetPrefs, loaded: WidgetPrefs)
    requires
        call_ensures(load_prefs, (Some(saved),), loaded),
    ensures
        loaded.show_balance == saved.show_balance,
        loaded.show_tokens == saved.show_tokens,
        loaded.show_today_cost == saved.show_today_cost,
        loaded.show_month_cost == saved.show_month_cost,
        loaded.start_visible == saved.start_visible,
        loaded.autostart == saved.autostart,
        loaded.balance_interval_s == saved.balance_interval_s,
        loaded.usage_interval_min == saved.usage_interval_min,
        loaded.offset_x == saved.offset_x,
        loaded.offset_y == saved.offset_y,
        saved.anchor@.len() > 0 ==> loaded.anchor@ == saved.anchor@,
        saved.anchor@.len() == 0 ==> loaded.anchor@ == "codex-bottom-left"@,
{
}

/// Without saved preferences `load_prefs` gives the default ones: everything is
/// shown and started, the intervals are 60 seconds and 5 minutes, and the widget
/// is at its default place.
pub proof fn law_load_prefs_without_saved_ones(none: Option<WidgetPrefs>, loaded: WidgetPrefs)
    requires
        none is None,
        call_ensures(load_prefs, (none,), loaded),
    ensures
        loaded.show_balance,
        loaded.show_tokens,
        loaded.show_today_cost,
        loaded.show_month_cost,
        loaded.start_visible,
        loaded.autostart,
        loaded.balance_interval_s == 60,
        loaded.usage_interval_min == 5,
        loaded.anchor@ == "codex-bottom-left"@,
        loaded.offset_x == 0,
        loaded.offset_y == 0,
{
}

/// `reset_widget_position` takes the offsets back and changes no setting.
pub proof fn law_reset_widget_position_only_moves(
    prefs: &mut WidgetPrefs,
    before: &WidgetPrefs,
    shown_before: UiSettings,
    after: &WidgetPrefs,
    shown_after: UiSettings,
)
    requires
        call_ensures(reset_widget_position, (prefs,), ()),
        *before == *old(prefs),
        *after == *final(prefs),
        call_ensures(get_ui_settings, (before,), shown_before),
        call_ensures(get_ui_settings, (after,), shown_after),
    ensures
        final(prefs).anchor@ == "codex-bottom-left"@,
        final(prefs).offset_x == 0,
        final(prefs).offset_y == 0,
        shown_after == shown_before,
{
}

/// `remember_offset` sets the two offsets, each to its own, and changes no setting.
pub proof fn law_remember_offset_only_moves(
    prefs: &mut WidgetPrefs,
    offset_x: u64,
    offset_y: u64,
    before: &WidgetPrefs,
    shown_before: UiSettings,
    after: &WidgetPrefs,
    shown_after: UiSettings,
)
    requires
        call_ensures(remember_offset, (prefs, offset_x, offset_y), ()),
        *before == *old(prefs),
        *after == *final(prefs),
        call_ensures(get_ui_settings, (before,), shown_before),
        call_ensures(get_ui_settings, (after,), shown_after),
    ensures
        final(prefs).anchor@ == "codex-bottom-left"@,
        final(prefs).offset_x == offset_x,
        final(prefs).offset_y == offset_y,
        shown_after == shown_before,
{
}

/// The default preferences, and the default settings, have everything shown and
/// started, 60 seconds and 5 minutes, and the default place.
pub proof fn law_defaults_have_everything_on(p: WidgetPrefs, s: UiSettings)
    requires
        call_ensures(WidgetPrefs::default, (), p),
        call_ensures(UiSettings::default, (), s),
    ensures
        p.show_balance && p.show_tokens && p.show_today_cost && p.show_month_cost,
        p.start_visible && p.autostart,
        p.balance_interval_s == 60 && p.usage_interval_min == 5,
        p.anchor@ == "codex-bottom-left"@ && p.offset_x == 0 && p.offset_y == 0,
        s.show_balance && s.show_tokens && s.show_today_cost && s.show_month_cost,
        s.start_visible && s.autostart,
        s.balance_interval_s == 60 && s.usage_interval_min == 5,
{
}

} // verus!
