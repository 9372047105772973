//! The notification data model: what a notification carries, the Windows
//! toast extensions, the action event delivered to the application and the
//! Android channel description.
use vstd::prelude::*;
use vstd::string::*;
use crate::input_map::InputMap;
use crate::text::opt_view;

verus! {

// ── Scheduling ─────────────────────────────────────────────────────────────

/// Calendar fields of an interval schedule; `None` means "any".
#[derive(Debug, Default, Clone, Copy, PartialEq, Eq, Structural)]
pub struct ScheduleInterval {
    pub year: Option<u8>,
    pub month: Option<u8>,
    pub day: Option<u8>,
    pub weekday: Option<u8>,
    pub hour: Option<u8>,
    pub minute: Option<u8>,
    pub second: Option<u8>,
}

/// The unit of a repeating schedule.
#[derive(Debug, Clone, Copy, PartialEq, Eq, Structural)]
pub enum ScheduleEvery {
    Year,
    Month,
    TwoWeeks,
    Week,
    Day,
    Hour,
    Minute,
    Second,
}

/// The wire name of a schedule unit.
pub open spec fn every_name(e: ScheduleEvery) -> Seq<char> {
    match e {
        ScheduleEvery::Year => "year"@,
        ScheduleEvery::Month => "month"@,
        ScheduleEvery::TwoWeeks => "twoWeeks"@,
        ScheduleEvery::Week => "week"@,
        ScheduleEvery::Day => "day"@,
        ScheduleEvery::Hour => "hour"@,
        ScheduleEvery::Minute => "minute"@,
        ScheduleEvery::Second => "second"@,
    }
}

/// The lower-case form of `c` as far as it can matter for matching ASCII
/// names: `A`–`Z` map to `a`–`z`, and the Kelvin sign (U+212A) maps to `k`;
/// no other character has an ASCII letter as its lower-case form.
pub open spec fn name_lower(c: char) -> char {
    if 'A' <= c && c <= 'Z' {
        ((c as u32) + 32) as char
    } else if c == '\u{212A}' {
        'k'
    } else {
        c
    }
}

/// `s` equals the ASCII name `n` after lower-casing.
pub open spec fn lower_matches(s: Seq<char>, n: Seq<char>) -> bool {
    s.len() == n.len() && forall|i: int| 0 <= i < s.len() ==> name_lower(s[i]) == n[i]
}

/// The schedule unit that a case-insensitive name denotes.
pub open spec fn every_from_name(s: Seq<char>) -> Option<ScheduleEvery> {
    if lower_matches(s, "year"@) {
        Some(ScheduleEvery::Year)
    } else if lower_matches(s, "month"@) {
        Some(ScheduleEvery::Month)
    } else if lower_matches(s, "twoweeks"@) {
        Some(ScheduleEvery::TwoWeeks)
    } else if lower_matches(s, "week"@) {
        Some(ScheduleEvery::Week)
    } else if lower_matches(s, "day"@) {
        Some(ScheduleEvery::Day)
    } else if lower_matches(s, "hour"@) {
        Some(ScheduleEvery::Hour)
    } else if lower_matches(s, "minute"@) {
        Some(ScheduleEvery::Minute)
    } else if lower_matches(s, "second"@) {
        Some(ScheduleEvery::Second)
    } else {
        None
    }
}

proof fn lemma_mismatch_at(n: Seq<char>, c: Seq<char>, i: int)
    requires
        0 <= i < n.len(),
        name_lower(n[i]) != c[i],
    ensures
        !lower_matches(n, c),
{
}

/// The wire name of every schedule unit reads back as that unit.
pub proof fn lemma_every_round_trip(e: ScheduleEvery)
    ensures
        every_from_name(every_name(e)) == Some(e),
{
    reveal_strlit("year");
    reveal_strlit("month");
    reveal_strlit("twoWeeks");
    reveal_strlit("twoweeks");
    reveal_strlit("week");
    reveal_strlit("day");
    reveal_strlit("hour");
    reveal_strlit("minute");
    reveal_strlit("second");
    let n = every_name(e);
    match e {
        ScheduleEvery::Year => {
            assert(lower_matches(n, "year"@));
        },
        ScheduleEvery::Month => {
            assert(lower_matches(n, "month"@));
        },
        ScheduleEvery::TwoWeeks => {
            assert(name_lower('W') == 'w');
            assert(lower_matches(n, "twoweeks"@));
        },
        ScheduleEvery::Week => {
            lemma_mismatch_at(n, "year"@, 0);
            assert(lower_matches(n, "week"@));
        },
        ScheduleEvery::Day => {
            assert(lower_matches(n, "day"@));
        },
        ScheduleEvery::Hour => {
            lemma_mismatch_at(n, "year"@, 0);
            lemma_mismatch_at(n, "week"@, 0);
            assert(lower_matches(n, "hour"@));
        },
        ScheduleEvery::Minute => {
            assert(lower_matches(n, "minute"@));
        },
        ScheduleEvery::Second => {
            lemma_mismatch_at(n, "minute"@, 0);
            assert(lower_matches(n, "second"@));
        },
    }
}

fn lower_name_char(c: char) -> (r: char)
    ensures
        r == name_lower(c),
{
    if 'A' <= c && c <= 'Z' {
        let u = (c as u32) + 32;
        let b = u as u8;
        b as char
    } else if c == '\u{212A}' {
        'k'
    } else {
        c
    }
}

fn matches_lower(s: &[char], n: &str) -> (r: bool)
    ensures
        r == lower_matches(s@, n@),
{
    let m = n.unicode_len();
    if s.len() != m {
        return false;
    }
    let mut i: usize = 0;
    while i < m
        invariant
            m == n@.len(),
            s@.len() == m,
            i <= m,
            forall|k: int| 0 <= k < i ==> name_lower(s@[k]) == n@[k],
        decreases m - i,
    {
        if lower_name_char(s[i]) != n.get_char(i) {
            return false;
        }
        i = i + 1;
    }
    true
}

impl ScheduleEvery {
    /// The wire name (`year`, `month`, `twoWeeks`, …).
    pub fn as_str(&self) -> (r: &'static str)
        ensures
            r@ == every_name(*self),
    {
        match self {
            ScheduleEvery::Year => "year",
            ScheduleEvery::Month => "month",
            ScheduleEvery::TwoWeeks => "twoWeeks",
            ScheduleEvery::Week => "week",
            ScheduleEvery::Day => "day",
            ScheduleEvery::Hour => "hour",
            ScheduleEvery::Minute => "minute",
            ScheduleEvery::Second => "second",
        }
    }

    /// The unit named by `s`, compared case-insensitively; `None` for an
    /// unknown name.
    pub fn from_name(s: &str) -> (r: Option<ScheduleEvery>)
        ensures
            r == every_from_name(s@),
    {
        let v = crate::text::chars_of(s);
        if matches_lower(v.as_slice(), "year") {
            Some(ScheduleEvery::Year)
        } else if matches_lower(v.as_slice(), "month") {
            Some(ScheduleEvery::Month)
        } else if matches_lower(v.as_slice(), "twoweeks") {
            Some(ScheduleEvery::TwoWeeks)
        } else if matches_lower(v.as_slice(), "week") {
            Some(ScheduleEvery::Week)
        } else if matches_lower(v.as_slice(), "day") {
            Some(ScheduleEvery::Day)
        } else if matches_lower(v.as_slice(), "hour") {
            Some(ScheduleEvery::Hour)
        } else if matches_lower(v.as_slice(), "minute") {
            Some(ScheduleEvery::Minute)
        } else if matches_lower(v.as_slice(), "second") {
            Some(ScheduleEvery::Second)
        } else {
            None
        }
    }
}

/// An instant with its UTC offset: seconds since the Unix epoch, the
/// nanosecond within that second, and the offset from UTC in seconds.
#[derive(Debug, Clone, Copy, PartialEq, Eq, Structural)]
pub struct ScheduleDate {
    pub unix_seconds: i64,
    pub nanosecond: u32,
    pub offset_seconds: i32,
}

/// When a notification is delivered.
#[derive(Debug, Clone, Copy, PartialEq, Eq, Structural)]
pub enum Schedule {
    /// At one instant, optionally repeating.
    At { date: ScheduleDate, repeating: bool, allow_while_idle: bool },
    /// Whenever the calendar fields match.
    Interval { interval: ScheduleInterval, allow_while_idle: bool },
    /// Every `count` units.
    Every { interval: ScheduleEvery, count: u8, allow_while_idle: bool },
}

/// A file attached to a notification, by id and URL text.
#[derive(Debug, Clone)]
pub struct Attachment {
    pub id: String,
    pub url: String,
}

impl Attachment {
    /// An attachment with the given id and URL.
    pub fn new(id: String, url: String) -> (a: Attachment)
        ensures
            a.id == id,
            a.url == url,
    {
        Attachment { id, url }
    }
}

// ── Windows toast extensions ───────────────────────────────────────────────

/// How an action button activates the application.
#[derive(Debug, Clone, Copy, Default, PartialEq, Eq, Structural)]
pub enum WindowsActionType {
    #[default]
    Foreground,
    Background,
    Protocol,
}

/// Where an action button is shown.
#[derive(Debug, Clone, Copy, Default, PartialEq, Eq, Structural)]
pub enum WindowsActionPlacement {
    #[default]
    Default,
    ContextMenu,
}

/// An interactive button on a Windows 10+ toast notification.
#[derive(Debug, Clone, Default)]
pub struct WindowsAction {
    pub id: String,
    pub label: String,
    pub action_type: WindowsActionType,
    pub protocol: Option<String>,
    pub icon: Option<String>,
    pub placement: WindowsActionPlacement,
    pub input_id: Option<String>,
}

/// The kind of an input field.
#[derive(Debug, Clone, Copy, Default, PartialEq, Eq, Structural)]
pub enum WindowsInputType {
    #[default]
    Text,
    Selection,
}

/// One choice of a selection input.
#[derive(Debug, Clone, Default)]
pub struct WindowsSelectionItem {
    pub id: String,
    pub content: String,
}

/// A text or selection input embedded in a Windows 10+ toast notification.
#[derive(Debug, Clone, Default)]
pub struct WindowsInput {
    pub id: String,
    pub placeholder: Option<String>,
    pub input_type: WindowsInputType,
    pub selections: Vec<WindowsSelectionItem>,
    pub default_selection: Option<String>,
}

/// The fill level of a progress bar. A negative fraction means an
/// indeterminate (animated) bar; a determinate fraction is held in
/// ten-thousandths, the precision at which the toast displays it.
#[derive(Debug, Clone, Copy, PartialEq, Eq, Structural)]
pub enum ProgressValue {
    /// An animated bar with no fill level.
    Indeterminate,
    /// A fill level of `n / 10000`; levels above one are shown full.
    TenThousandths(u32),
    /// A fill level that is not a number.
    NotANumber,
    /// A fill level of negative zero, shown as `-0.0000`.
    NegativeZero,
}

impl Default for ProgressValue {
    fn default() -> (r: ProgressValue)
        ensures
            r == ProgressValue::TenThousandths(0),
    {
        ProgressValue::TenThousandths(0)
    }
}

/// Progress bar state for a long-running operation notification (Win10 19041+).
/// Re-send with the same tag and group to update the bar in place.
#[derive(Debug, Clone, Default)]
pub struct WindowsProgress {
    pub value: ProgressValue,
    pub title: Option<String>,
    pub status: Option<String>,
    pub value_string: Option<String>,
}

/// System-level presentation mode (Win10+).
#[derive(Debug, Clone, Copy, PartialEq, Eq, Structural)]
pub enum WindowsScenario {
    Default,
    Alarm,
    Reminder,
    IncomingCall,
    /// Win11 only; falls back to `Reminder` on Win10.
    Urgent,
}

/// Delivery priority (Win10+).
#[derive(Debug, Clone, Copy, PartialEq, Eq, Structural)]
pub enum WindowsPriority {
    Default,
    High,
    /// Win11 only; delivered as `High`.
    Urgent,
}

// ── The notification ───────────────────────────────────────────────────────

/// Everything a notification carries.
#[derive(Debug)]
pub struct NotificationData {
    pub id: i32,
    pub channel_id: Option<String>,
    pub title: Option<String>,
    pub body: Option<String>,
    /// When to deliver the notification.
    pub schedule: Option<Schedule>,
    pub large_body: Option<String>,
    pub summary: Option<String>,
    pub action_type_id: Option<String>,
    pub group: Option<String>,
    pub group_summary: bool,
    pub sound: Option<String>,
    pub inbox_lines: Vec<String>,
    pub icon: Option<String>,
    pub large_icon: Option<String>,
    pub icon_color: Option<String>,
    /// Attached files.
    pub attachments: Vec<Attachment>,
    /// Extra values by key, each as JSON text.
    pub extra: InputMap,
    pub ongoing: bool,
    pub auto_cancel: bool,
    pub silent: bool,
    /// Notification tag — composite key with `group` for the history API. Win10+.
    pub tag: Option<String>,
    /// Hero image at the top of the toast. Win10+.
    pub hero_image: Option<String>,
    /// Interactive action buttons. Win10+.
    pub windows_actions: Vec<WindowsAction>,
    /// Text/selection inputs. Win10+.
    pub windows_inputs: Vec<WindowsInput>,
    /// Progress bar. Win10 build 19041+.
    pub progress: Option<WindowsProgress>,
    /// Auto-remove after this many milliseconds. Win10+.
    pub expiry_ms: Option<u64>,
    /// System-level presentation mode. Win10+.
    pub scenario: Option<WindowsScenario>,
    /// Delivery priority; `Urgent` needs Win11.
    pub priority: Option<WindowsPriority>,
    /// Remove from the Action Center on reboot. Win11+.
    pub expires_on_reboot: bool,
    /// Enable background COM activation. Win8+.
    pub background_activation: bool,
}

/// A random notification id (`rand::random::<i32>()`); nothing is claimed of
/// the value.
#[verifier::external_body]
fn random_id() -> i32 {
    rand::random::<i32>()
}

/// The notification with no content: every optional field absent, every
/// list empty and every flag off.
pub open spec fn is_blank(d: NotificationData) -> bool {
    &&& d.channel_id is None
    &&& d.title is None
    &&& d.body is None
    &&& d.schedule is None
    &&& d.large_body is None
    &&& d.summary is None
    &&& d.action_type_id is None
    &&& d.group is None
    &&& !d.group_summary
    &&& d.sound is None
    &&& d.inbox_lines@.len() == 0
    &&& d.icon is None
    &&& d.large_icon is None
    &&& d.icon_color is None
    &&& d.attachments@.len() == 0
    &&& d.extra@ == Map::<Seq<char>, Seq<char>>::empty()
    &&& !d.ongoing
    &&& !d.auto_cancel
    &&& !d.silent
    &&& d.tag is None
    &&& d.hero_image is None
    &&& d.windows_actions@.len() == 0
    &&& d.windows_inputs@.len() == 0
    &&& d.progress is None
    &&& d.expiry_ms is None
    &&& d.scenario is None
    &&& d.priority is None
    &&& !d.expires_on_reboot
    &&& !d.background_activation
}

impl Default for NotificationData {
    /// A blank notification with a random id.
    fn default() -> (d: NotificationData)
        ensures
            is_blank(d),
    {
        NotificationData {
            id: random_id(),
            channel_id: None,
            title: None,
            body: None,
            schedule: None,
            large_body: None,
            summary: None,
            action_type_id: None,
            group: None,
            group_summary: false,
            sound: None,
            inbox_lines: Vec::new(),
            icon: None,
            large_icon: None,
            icon_color: None,
            attachments: Vec::new(),
            extra: InputMap::new(),
            ongoing: false,
            auto_cancel: false,
            silent: false,
            tag: None,
            hero_image: None,
            windows_actions: Vec::new(),
            windows_inputs: Vec::new(),
            progress: None,
            expiry_ms: None,
            scenario: None,
            priority: None,
            expires_on_reboot: false,
            background_activation: false,
        }
    }
}

// ── Events and listener results ────────────────────────────────────────────

/// Payload of the `notification://action` event.
#[derive(Debug, Clone)]
pub struct NotificationActionEvent {
    pub action_id: String,
    pub inputs: InputMap,
    pub tag: Option<String>,
    pub group: Option<String>,
}

/// A notification currently visible in the Windows Action Center.
#[derive(Debug, Clone)]
pub struct WinActiveNotification {
    pub id: u32,
    pub tag: Option<String>,
    pub group: Option<String>,
    pub title: Option<String>,
    pub body: Option<String>,
    pub app_id: Option<String>,
}

/// Notification Listener access permission status.
#[derive(Debug, Clone, Copy, PartialEq, Eq, Structural)]
pub enum ListenerAccessStatus {
    Allowed,
    Denied,
    Unspecified,
    NotSupported,
}

/// Plugin configuration (`plugins.notification` in the app config).
#[derive(Debug, Clone, Default)]
pub struct PluginConfig {
    /// Stable GUID for COM background activation.
    pub com_server_guid: Option<String>,
}

// ── Mobile action types ────────────────────────────────────────────────────

/// A group of actions shown together on mobile platforms.
#[derive(Debug)]
pub struct ActionType {
    id: String,
    actions: Vec<Action>,
    hidden_previews_body_placeholder: Option<String>,
    custom_dismiss_action: bool,
    allow_in_car_play: bool,
    hidden_previews_show_title: bool,
    hidden_previews_show_subtitle: bool,
}

/// One action of an [`ActionType`].
#[derive(Debug)]
pub struct Action {
    id: String,
    title: String,
    requires_authentication: bool,
    foreground: bool,
    destructive: bool,
    input: bool,
    input_button_title: Option<String>,
    input_placeholder: Option<String>,
}

// ── Android channels ───────────────────────────────────────────────────────

/// How strongly a channel interrupts the user.
#[derive(Debug, Clone, Copy, PartialEq, Eq, Structural)]
pub enum Importance {
    /// Notifications of the channel are not shown (Android `IMPORTANCE_NONE`).
    Blocked,
    Min,
    Low,
    Default,
    High,
}

impl Default for Importance {
    fn default() -> (r: Importance)
        ensures
            r == Importance::Default,
    {
        Importance::Default
    }
}

impl Importance {
    /// The numeric level used on the wire (`None` = 0 … `High` = 4).
    pub fn code(&self) -> (r: u8)
        ensures
            r == match *self {
                Importance::Blocked => 0u8,
                Importance::Min => 1u8,
                Importance::Low => 2u8,
                Importance::Default => 3u8,
                Importance::High => 4u8,
            },
    {
        match self {
            Importance::Blocked => 0,
            Importance::Min => 1,
            Importance::Low => 2,
            Importance::Default => 3,
            Importance::High => 4,
        }
    }
}

/// Lock-screen visibility of a channel's notifications.
#[derive(Debug, Clone, Copy, PartialEq, Eq, Structural)]
pub enum Visibility {
    Secret,
    Private,
    Public,
}

impl Visibility {
    /// The numeric level used on the wire (`Secret` = -1, `Private` = 0,
    /// `Public` = 1).
    pub fn code(&self) -> (r: i8)
        ensures
            r == match *self {
                Visibility::Secret => -1i8,
                Visibility::Private => 0i8,
                Visibility::Public => 1i8,
            },
    {
        match self {
            Visibility::Secret => -1,
            Visibility::Private => 0,
            Visibility::Public => 1,
        }
    }
}

/// An Android notification channel.
#[derive(Debug)]
pub struct Channel {
    id: String,
    name: String,
    description: Option<String>,
    sound: Option<String>,
    lights: bool,
    light_color: Option<String>,
    vibration: bool,
    importance: Importance,
    visibility: Option<Visibility>,
}

/// The settings of a channel, in field order: id, name, description, sound,
/// lights, light colour, vibration, importance, visibility.
pub type ChannelSettings = (
    Seq<char>,
    Seq<char>,
    Option<Seq<char>>,
    Option<Seq<char>>,
    bool,
    Option<Seq<char>>,
    bool,
    Importance,
    Option<Visibility>,
);

impl View for Channel {
    type V = ChannelSettings;

    closed spec fn view(&self) -> ChannelSettings {
        (
            self.id@,
            self.name@,
            opt_view(self.description),
            opt_view(self.sound),
            self.lights,
            opt_view(self.light_color),
            self.vibration,
            self.importance,
            self.visibility,
        )
    }
}

/// Builder of a [`Channel`].
#[derive(Debug)]
pub struct ChannelBuilder(Channel);

impl View for ChannelBuilder {
    type V = ChannelSettings;

    closed spec fn view(&self) -> ChannelSettings {
        self.0@
    }
}

fn opt_str(o: &Option<String>) -> (r: Option<&str>)
    ensures
        opt_str_view(r) == opt_view(*o),
{
    match o {
        Some(s) => Some(s.as_str()),
        None => None,
    }
}

/// The optional text as a sequence view.
pub open spec fn opt_str_view(o: Option<&str>) -> Option<Seq<char>> {
    match o {
        Some(s) => Some(s@),
        None => None,
    }
}

impl Channel {
    /// A builder for a channel with the given id and name and every other
    /// setting at its default (no description, sound or light colour, lights
    /// and vibration off, `Default` importance, no visibility).
    pub fn builder(id: String, name: String) -> (b: ChannelBuilder)
        ensures
            b@ == (id@, name@, None::<Seq<char>>, None::<Seq<char>>, false, None::<Seq<char>>, false,
                Importance::Default, None::<Visibility>),
    {
        ChannelBuilder(Channel {
            id,
            name,
            description: None,
            sound: None,
            lights: false,
            light_color: None,
            vibration: false,
            importance: Importance::Default,
            visibility: None,
        })
    }

    pub fn id(&self) -> (r: &str)
        ensures
            r@ == self@.0,
    {
        self.id.as_str()
    }

    pub fn name(&self) -> (r: &str)
        ensures
            r@ == self@.1,
    {
        self.name.as_str()
    }

    pub fn description(&self) -> (r: Option<&str>)
        ensures
            opt_str_view(r) == self@.2,
    {
        opt_str(&self.description)
    }

    pub fn sound(&self) -> (r: Option<&str>)
        ensures
            opt_str_view(r) == self@.3,
    {
        opt_str(&self.sound)
    }

    pub fn lights(&self) -> (r: bool)
        ensures
            r == self@.4,
    {
        self.lights
    }

    pub fn light_color(&self) -> (r: Option<&str>)
        ensures
            opt_str_view(r) == self@.5,
    {
        opt_str(&self.light_color)
    }

    pub fn vibration(&self) -> (r: bool)
        ensures
            r == self@.6,
    {
        self.vibration
    }

    pub fn importance(&self) -> (r: Importance)
        ensures
            r == self@.7,
    {
        self.importance
    }

    pub fn visibility(&self) -> (r: Option<Visibility>)
        ensures
            r == self@.8,
    {
        self.visibility
    }
}

impl ChannelBuilder {
    pub fn description(self, description: String) -> (r: ChannelBuilder)
        ensures
            r@ == (self@.0, self@.1, Some(description@), self@.3, self@.4, self@.5, self@.6, self@.7,
                self@.8),
    {
        let mut b = self;
        b.0.description = Some(description);
        b
    }

    pub fn sound(self, sound: String) -> (r: ChannelBuilder)
        ensures
            r@ == (self@.0, self@.1, self@.2, Some(sound@), self@.4, self@.5, self@.6, self@.7,
                self@.8),
    {
        let mut b = self;
        b.0.sound = Some(sound);
        b
    }

    pub fn lights(self, lights: bool) -> (r: ChannelBuilder)
        ensures
            r@ == (self@.0, self@.1, self@.2, self@.3, lights, self@.5, self@.6, self@.7, self@.8),
    {
        let mut b = self;
        b.0.lights = lights;
        b
    }

    pub fn light_color(self, color: String) -> (r: ChannelBuilder)
        ensures
            r@ == (self@.0, self@.1, self@.2, self@.3, self@.4, Some(color@), self@.6, self@.7,
                self@.8),
    {
        let mut b = self;
        b.0.light_color = Some(color);
        b
    }

    pub fn vibration(self, vibration: bool) -> (r: ChannelBuilder)
        ensures
            r@ == (self@.0, self@.1, self@.2, self@.3, self@.4, self@.5, vibration, self@.7, self@.8),
    {
        let mut b = self;
        b.0.vibration = vibration;
        b
    }

    pub fn importance(self, importance: Importance) -> (r: ChannelBuilder)
        ensures
            r@ == (self@.0, self@.1, self@.2, self@.3, self@.4, self@.5, self@.6, importance, self@.8),
    {
        let mut b = self;
        b.0.importance = importance;
        b
    }

    pub fn visibility(self, visibility: Visibility) -> (r: ChannelBuilder)
        ensures
            r@ == (self@.0, self@.1, self@.2, self@.3, self@.4, self@.5, self@.6, self@.7,
                Some(visibility)),
    {
        let mut b = self;
        b.0.visibility = Some(visibility);
        b
    }

    pub fn build(self) -> (c: Channel)
        ensures
            c@ == self@,
    {
        self.0
    }
}

} // verus!
