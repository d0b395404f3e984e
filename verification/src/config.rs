//! The settings of the gauge and how a stored configuration is brought into range.
use vstd::prelude::*;

use crate::text::{
    blank, is_blank, lemma_u64_text_round_trip, lower_seq, nat_text, owned, same_text, same_text_ignoring_case, trim, trimmed,
    u64_text,
};
use crate::decimal::{parse_u64, u64_text_value};

verus! {

/// Which source is asked first for the usage.
#[derive(Debug, Clone, Copy, PartialEq, Eq, Structural)]
pub enum ProviderPreference {
    AppServer,
    Api,
}

/// What the top bar shows.
#[derive(Debug, Clone, Copy, PartialEq, Eq, Structural)]
pub enum TopBarDisplay {
    FiveAndSeven,
    FiveHour,
    IconOnly,
}

/// Where updates are looked for and the key that signs them.
#[derive(Debug, Clone)]
pub struct UpdateConfig {
    pub check_on_startup: bool,
    pub endpoint: String,
    pub public_key: String,
}

/// Saved window positions.
#[derive(Debug, Clone, Copy, PartialEq, Eq, Structural)]
pub struct WindowPositions {
    pub top_x: Option<i32>,
}

/// One unit of opacity: `OPACITY_UNIT` is fully opaque.
pub const OPACITY_UNIT: i64 = 1_000_000;

/// The least opacity that the settings allow.
pub const MIN_OPACITY: i64 = 680_000;

/// The opacity of a fresh configuration.
pub const DEFAULT_OPACITY: i64 = 920_000;

/// The version that a normalized configuration carries.
pub const CONFIG_VERSION: u32 = 3;

/// The shortest and longest refresh interval, in seconds.
pub const MIN_REFRESH_SECONDS: u64 = 30;

pub const MAX_REFRESH_SECONDS: u64 = 3600;

/// All settings. `opacity` is in millionths (see `OPACITY_UNIT`).
#[derive(Debug, Clone)]
pub struct AppConfig {
    pub version: u32,
    pub start_on_boot: bool,
    pub show_top_on_startup: bool,
    pub top_bar_display: TopBarDisplay,
    pub top_always_on_top: bool,
    pub top_lock_position: bool,
    pub oled_shift_enabled: bool,
    pub opacity: i64,
    pub refresh_interval_seconds: u64,
    pub preferred_provider: ProviderPreference,
    pub codex_command: String,
    pub update: UpdateConfig,
    pub windows: WindowPositions,
}

/// What a configuration holds, with its texts as characters.
pub struct ConfigModel {
    pub version: u32,
    pub start_on_boot: bool,
    pub show_top_on_startup: bool,
    pub top_bar_display: TopBarDisplay,
    pub top_always_on_top: bool,
    pub top_lock_position: bool,
    pub oled_shift_enabled: bool,
    pub opacity: i64,
    pub refresh_interval_seconds: u64,
    pub preferred_provider: ProviderPreference,
    pub codex_command: Seq<char>,
    pub check_on_startup: bool,
    pub endpoint: Seq<char>,
    pub public_key: Seq<char>,
    pub top_x: Option<i32>,
}

impl View for AppConfig {
    type V = ConfigModel;

    open spec fn view(&self) -> ConfigModel {
        ConfigModel {
            version: self.version,
            start_on_boot: self.start_on_boot,
            show_top_on_startup: self.show_top_on_startup,
            top_bar_display: self.top_bar_display,
            top_always_on_top: self.top_always_on_top,
            top_lock_position: self.top_lock_position,
            oled_shift_enabled: self.oled_shift_enabled,
            opacity: self.opacity,
            refresh_interval_seconds: self.refresh_interval_seconds,
            preferred_provider: self.preferred_provider,
            codex_command: self.codex_command@,
            check_on_startup: self.update.check_on_startup,
            endpoint: self.update.endpoint@,
            public_key: self.update.public_key@,
            top_x: self.windows.top_x,
        }
    }
}

/// The release manifest that updates are read from.
pub open spec fn default_endpoint_text() -> Seq<char> {
    "https://github.com/ydfk/codex-gauge/releases/latest/download/latest.json"@
}

/// The manifest address of earlier releases, which a stored configuration may still name.
pub open spec fn legacy_endpoint_text() -> Seq<char> {
    "https://github.com/ydfk/codex-gauge/releases/download/native-latest/latest-native-windows.json"@
}

/// The release manifest that updates are read from.
pub fn default_update_endpoint() -> (res: String)
    ensures
        res@ == default_endpoint_text(),
{
    owned("https://github.com/ydfk/codex-gauge/releases/latest/download/latest.json")
}

/// Whether `endpoint` names the manifest of earlier releases.
fn is_legacy_endpoint(endpoint: &str) -> (res: bool)
    ensures
        res == (endpoint@ == legacy_endpoint_text()),
{
    same_text(
        endpoint,
        "https://github.com/ydfk/codex-gauge/releases/download/native-latest/latest-native-windows.json",
    )
}

/// The command that starts Codex when none is configured.
pub open spec fn default_command_text() -> Seq<char> {
    "codex"@
}

/// A fresh configuration, signed updates checked with `bundled_key`.
pub open spec fn default_config(bundled_key: Seq<char>) -> ConfigModel {
    ConfigModel {
        version: CONFIG_VERSION,
        start_on_boot: false,
        show_top_on_startup: true,
        top_bar_display: TopBarDisplay::FiveHour,
        top_always_on_top: true,
        top_lock_position: false,
        oled_shift_enabled: false,
        opacity: DEFAULT_OPACITY,
        refresh_interval_seconds: 60,
        preferred_provider: ProviderPreference::AppServer,
        codex_command: default_command_text(),
        check_on_startup: true,
        endpoint: default_endpoint_text(),
        public_key: bundled_key,
        top_x: None,
    }
}

/// `v` brought into `[lo, hi]`.
pub open spec fn clamp_int(v: int, lo: int, hi: int) -> int {
    if v < lo {
        lo
    } else if v > hi {
        hi
    } else {
        v
    }
}

/// A configuration brought into range: the current version, the refresh interval and the
/// opacity clamped, a blank command replaced by `codex`, a blank or earlier manifest address
/// replaced by the current one, and a blank key replaced by `bundled_key`.
pub open spec fn normalized_config(c: ConfigModel, bundled_key: Seq<char>) -> ConfigModel {
    ConfigModel {
        version: CONFIG_VERSION,
        refresh_interval_seconds: clamp_int(
            c.refresh_interval_seconds as int,
            MIN_REFRESH_SECONDS as int,
            MAX_REFRESH_SECONDS as int,
        ) as u64,
        opacity: clamp_int(c.opacity as int, MIN_OPACITY as int, OPACITY_UNIT as int) as i64,
        codex_command: if is_blank(c.codex_command) {
            default_command_text()
        } else {
            c.codex_command
        },
        endpoint: if is_blank(c.endpoint) || c.endpoint == legacy_endpoint_text() {
            default_endpoint_text()
        } else {
            c.endpoint
        },
        public_key: if is_blank(c.public_key) {
            bundled_key
        } else {
            c.public_key
        },
        ..c
    }
}

impl AppConfig {
    /// A fresh configuration whose update key is `bundled_key` (the key built into the program).
    pub fn with_key(bundled_key: &str) -> (res: AppConfig)
        ensures
            res@ == default_config(bundled_key@),
    {
        AppConfig {
            version: CONFIG_VERSION,
            start_on_boot: false,
            show_top_on_startup: true,
            top_bar_display: TopBarDisplay::FiveHour,
            top_always_on_top: true,
            top_lock_position: false,
            oled_shift_enabled: false,
            opacity: DEFAULT_OPACITY,
            refresh_interval_seconds: 60,
            preferred_provider: ProviderPreference::AppServer,
            codex_command: owned("codex"),
            update: UpdateConfig {
                check_on_startup: true,
                endpoint: default_update_endpoint(),
                public_key: owned(bundled_key),
            },
            windows: WindowPositions { top_x: None },
        }
    }

    /// Brings the configuration into range (see `normalized_config`).
    pub fn normalize(&mut self, bundled_key: &str)
        ensures
            final(self)@ == normalized_config(old(self)@, bundled_key@),
    {
        self.version = CONFIG_VERSION;
        if self.refresh_interval_seconds < MIN_REFRESH_SECONDS {
            self.refresh_interval_seconds = MIN_REFRESH_SECONDS;
        } else if self.refresh_interval_seconds > MAX_REFRESH_SECONDS {
            self.refresh_interval_seconds = MAX_REFRESH_SECONDS;
        }
        if self.opacity < MIN_OPACITY {
            self.opacity = MIN_OPACITY;
        } else if self.opacity > OPACITY_UNIT {
            self.opacity = OPACITY_UNIT;
        }
        if blank(self.codex_command.as_str()) {
            self.codex_command = owned("codex");
        }
        if blank(self.update.endpoint.as_str()) || is_legacy_endpoint(self.update.endpoint.as_str()) {
            self.update.endpoint = default_update_endpoint();
        }
        if blank(self.update.public_key.as_str()) {
            self.update.public_key = owned(bundled_key);
        }
    }
}

impl Default for AppConfig {
    /// A fresh configuration with no update key built in.
    fn default() -> (res: AppConfig)
        ensures
            res@ == default_config(Seq::empty()),
    {
        proof {
            reveal_strlit("");
            assert(""@ =~= Seq::<char>::empty());
        }
        AppConfig::with_key("")
    }
}

/// Normalizing twice changes nothing more than normalizing once.
pub proof fn lemma_normalize_idempotent(c: ConfigModel, bundled_key: Seq<char>)
    ensures
        normalized_config(normalized_config(c, bundled_key), bundled_key) == normalized_config(
            c,
            bundled_key,
        ),
{
    reveal_strlit("codex");
    reveal_strlit("https://github.com/ydfk/codex-gauge/releases/latest/download/latest.json");
    reveal_strlit(
        "https://github.com/ydfk/codex-gauge/releases/download/native-latest/latest-native-windows.json",
    );
    assert(!crate::text::is_white_space(default_command_text()[0]));
    assert(!crate::text::is_white_space(default_endpoint_text()[0]));
    assert(default_endpoint_text().len() != legacy_endpoint_text().len());
}

/// A normalized configuration lies in range.
pub proof fn lemma_normalized_in_range(c: ConfigModel, bundled_key: Seq<char>)
    ensures
        ({
            let n = normalized_config(c, bundled_key);
            &&& n.version == CONFIG_VERSION
            &&& MIN_REFRESH_SECONDS <= n.refresh_interval_seconds <= MAX_REFRESH_SECONDS
            &&& MIN_OPACITY <= n.opacity <= OPACITY_UNIT
            &&& !is_blank(n.codex_command)
            &&& n.endpoint != legacy_endpoint_text()
            &&& !is_blank(n.endpoint)
        }),
{
    reveal_strlit("codex");
    reveal_strlit("https://github.com/ydfk/codex-gauge/releases/latest/download/latest.json");
    reveal_strlit(
        "https://github.com/ydfk/codex-gauge/releases/download/native-latest/latest-native-windows.json",
    );
    assert(!crate::text::is_white_space(default_command_text()[0]));
    assert(!crate::text::is_white_space(default_endpoint_text()[0]));
    assert(default_endpoint_text().len() != legacy_endpoint_text().len());
}

/// The name of a top-bar mode, as the settings panel and the top bar use it.
pub open spec fn display_mode_name(mode: TopBarDisplay) -> Seq<char> {
    match mode {
        TopBarDisplay::FiveAndSeven => "five-and-seven"@,
        TopBarDisplay::FiveHour => "five-hour"@,
        TopBarDisplay::IconOnly => "icon-only"@,
    }
}

/// The name of a top-bar mode (see `display_mode_name`).
pub fn display_mode(mode: TopBarDisplay) -> (res: &'static str)
    ensures
        res@ == display_mode_name(mode),
{
    match mode {
        TopBarDisplay::FiveAndSeven => "five-and-seven",
        TopBarDisplay::FiveHour => "five-hour",
        TopBarDisplay::IconOnly => "icon-only",
    }
}

/// The top-bar mode a name selects; an unknown name selects the five-hour mode.
pub open spec fn display_mode_of(name: Seq<char>) -> TopBarDisplay {
    if name == "five-and-seven"@ {
        TopBarDisplay::FiveAndSeven
    } else if name == "icon-only"@ {
        TopBarDisplay::IconOnly
    } else {
        TopBarDisplay::FiveHour
    }
}

/// The top-bar mode a name selects (see `display_mode_of`).
pub fn parse_display_mode(name: &str) -> (res: TopBarDisplay)
    ensures
        res == display_mode_of(name@),
{
    if same_text(name, "five-and-seven") {
        TopBarDisplay::FiveAndSeven
    } else if same_text(name, "icon-only") {
        TopBarDisplay::IconOnly
    } else {
        TopBarDisplay::FiveHour
    }
}

/// A mode read back from its name is the same mode.
pub proof fn lemma_display_mode_round_trip(mode: TopBarDisplay)
    ensures
        display_mode_of(display_mode_name(mode)) == mode,
{
    reveal_strlit("five-and-seven");
    reveal_strlit("five-hour");
    reveal_strlit("icon-only");
    assert("five-hour"@ != "five-and-seven"@) by {
        assert("five-hour"@.len() != "five-and-seven"@.len());
    }
    assert("five-hour"@ != "icon-only"@) by {
        assert("five-hour"@[0] != "icon-only"@[0]);
    }
    assert("icon-only"@ != "five-and-seven"@) by {
        assert("icon-only"@[0] != "five-and-seven"@[0]);
    }
}

/// Which of the two shares the top bar shows (five-hour, weekly) in a mode named `mode`: none
/// as an icon; both, or the five-hour one, when the five-hour window is shown; otherwise the
/// weekly one.
pub open spec fn metric_visibility(mode: Seq<char>, five_visible: bool) -> (bool, bool) {
    if mode == "icon-only"@ {
        (false, false)
    } else if mode == "five-and-seven"@ && five_visible {
        (true, true)
    } else if mode == "five-hour"@ && five_visible {
        (true, false)
    } else {
        (false, true)
    }
}

/// Which shares the top bar shows (see `metric_visibility`).
pub fn top_metric_visibility(display_mode: &str, five_visible: bool) -> (res: (bool, bool))
    ensures
        res == metric_visibility(display_mode@, five_visible),
{
    if same_text(display_mode, "icon-only") {
        (false, false)
    } else if same_text(display_mode, "five-and-seven") && five_visible {
        (true, true)
    } else if same_text(display_mode, "five-hour") && five_visible {
        (true, false)
    } else {
        (false, true)
    }
}

/// The width of the top bar in logical pixels: 158 with both shares, 92 with one, 34 with
/// none.
pub fn top_width(display_mode: &str, five_visible: bool) -> (res: u32)
    ensures
        res == match metric_visibility(display_mode@, five_visible) {
            (true, true) => 158u32,
            (false, false) => 34u32,
            _ => 92u32,
        },
{
    match top_metric_visibility(display_mode, five_visible) {
        (true, true) => 158,
        (false, false) => 34,
        _ => 92,
    }
}

/// The name of a provider in the settings panel.
pub fn provider_label(provider: ProviderPreference) -> (res: &'static str)
    ensures
        res@ == match provider {
            ProviderPreference::AppServer => "app-server"@,
            ProviderPreference::Api => "api"@,
        },
{
    match provider {
        ProviderPreference::AppServer => "app-server",
        ProviderPreference::Api => "api",
    }
}

/// What the settings panel holds when it is saved. `opacity` is in millionths.
#[derive(Debug, Clone)]
pub struct SettingsForm {
    pub start_on_boot: bool,
    pub show_top: bool,
    pub display_mode: String,
    pub top_pinned: bool,
    pub top_locked: bool,
    pub oled_shift: bool,
    pub opacity: i64,
    pub refresh_seconds: String,
    pub codex_command: String,
    pub provider: String,
    pub update_on_start: bool,
    pub update_endpoint: String,
}

/// The settings after the panel is saved: its values taken over (the refresh interval when it
/// reads as a number, the command and address trimmed, the API provider when so named in any
/// case), then the whole brought into range (see `normalized_config`).
pub open spec fn settings_applied(c: ConfigModel, form: SettingsForm, bundled_key: Seq<char>) -> ConfigModel {
    let interval = match u64_text_value(form.refresh_seconds@) {
        Some(n) => n as u64,
        None => c.refresh_interval_seconds,
    };
    normalized_config(
        ConfigModel {
            start_on_boot: form.start_on_boot,
            show_top_on_startup: form.show_top,
            top_bar_display: display_mode_of(form.display_mode@),
            top_always_on_top: form.top_pinned,
            top_lock_position: form.top_locked,
            oled_shift_enabled: form.oled_shift,
            opacity: form.opacity,
            refresh_interval_seconds: interval,
            codex_command: trimmed(form.codex_command@),
            preferred_provider: if lower_seq(form.provider@) == lower_seq("api"@) {
                ProviderPreference::Api
            } else {
                ProviderPreference::AppServer
            },
            check_on_startup: form.update_on_start,
            endpoint: trimmed(form.update_endpoint@),
            ..c
        },
        bundled_key,
    )
}

/// The settings panel filled from the settings: each field shows its setting, the refresh
/// interval as decimal text and the provider and top-bar mode by name.
pub open spec fn form_shows(c: ConfigModel, form: SettingsForm) -> bool {
    &&& form.start_on_boot == c.start_on_boot
    &&& form.show_top == c.show_top_on_startup
    &&& form.display_mode@ == display_mode_name(c.top_bar_display)
    &&& form.top_pinned == c.top_always_on_top
    &&& form.top_locked == c.top_lock_position
    &&& form.oled_shift == c.oled_shift_enabled
    &&& form.opacity == c.opacity
    &&& form.refresh_seconds@ == nat_text(c.refresh_interval_seconds as nat)
    &&& form.codex_command@ == c.codex_command
    &&& form.provider@ == match c.preferred_provider {
        ProviderPreference::AppServer => "app-server"@,
        ProviderPreference::Api => "api"@,
    }
    &&& form.update_on_start == c.check_on_startup
    &&& form.update_endpoint@ == c.endpoint
}

/// Opening the panel and saving it unchanged keeps the settings, but for the command and the
/// update address, which are trimmed, and the normalization that every save applies.
pub proof fn lemma_unchanged_form_keeps_settings(c: ConfigModel, form: SettingsForm, bundled_key: Seq<char>)
    requires
        form_shows(c, form),
    ensures
        settings_applied(c, form, bundled_key) == normalized_config(
            ConfigModel { codex_command: trimmed(c.codex_command), endpoint: trimmed(c.endpoint), ..c },
            bundled_key,
        ),
{
    lemma_display_mode_round_trip(c.top_bar_display);
    lemma_u64_text_round_trip(c.refresh_interval_seconds as nat);
    reveal_strlit("app-server");
    reveal_strlit("api");
    assert(lower_seq("app-server"@) != lower_seq("api"@)) by {
        assert(lower_seq("app-server"@).len() != lower_seq("api"@).len());
    }
}

impl AppConfig {
    /// What the settings panel shows of these settings (see `form_shows`).
    pub fn settings_form(&self) -> (res: SettingsForm)
        ensures
            form_shows(self@, res),
    {
        SettingsForm {
            start_on_boot: self.start_on_boot,
            show_top: self.show_top_on_startup,
            display_mode: owned(display_mode(self.top_bar_display)),
            top_pinned: self.top_always_on_top,
            top_locked: self.top_lock_position,
            oled_shift: self.oled_shift_enabled,
            opacity: self.opacity,
            refresh_seconds: u64_text(self.refresh_interval_seconds),
            codex_command: owned(self.codex_command.as_str()),
            provider: owned(provider_label(self.preferred_provider)),
            update_on_start: self.update.check_on_startup,
            update_endpoint: owned(self.update.endpoint.as_str()),
        }
    }

    /// Takes over what the settings panel holds (see `settings_applied`), and tells whether
    /// start-on-boot and showing the top bar changed, which the caller then applies.
    pub fn apply_settings(&mut self, form: &SettingsForm, bundled_key: &str) -> (res: (bool, bool))
        ensures
            final(self)@ == settings_applied(old(self)@, *form, bundled_key@),
            res.0 == (final(self).start_on_boot != old(self).start_on_boot),
            res.1 == (final(self).show_top_on_startup != old(self).show_top_on_startup),
    {
        let previous_start_on_boot = self.start_on_boot;
        let previous_show_top = self.show_top_on_startup;
        self.start_on_boot = form.start_on_boot;
        self.show_top_on_startup = form.show_top;
        self.top_bar_display = parse_display_mode(form.display_mode.as_str());
        self.top_always_on_top = form.top_pinned;
        self.top_lock_position = form.top_locked;
        self.oled_shift_enabled = form.oled_shift;
        self.opacity = form.opacity;
        match parse_u64(form.refresh_seconds.as_str()) {
            Some(n) => {
                self.refresh_interval_seconds = n;
            },
            None => {},
        }
        self.codex_command = trim(form.codex_command.as_str());
        self.preferred_provider = if same_text_ignoring_case(form.provider.as_str(), "api") {
            ProviderPreference::Api
        } else {
            ProviderPreference::AppServer
        };
        self.update.check_on_startup = form.update_on_start;
        self.update.endpoint = trim(form.update_endpoint.as_str());
        self.normalize(bundled_key);
        (
            previous_start_on_boot != self.start_on_boot,
            previous_show_top != self.show_top_on_startup,
        )
    }
}

} // verus!
