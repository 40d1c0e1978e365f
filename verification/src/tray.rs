//! The tray menu as data: what each entry says and whether it can be clicked,
//! and how status reports, version reports and updates change it.
use vstd::prelude::*;
use crate::text::{contains, contains_str, str_eq};
use crate::version_checker::{
    get_update_title, get_version_title, is_update_enabled, offered_prerelease,
    should_show_prerelease_update, update_enabled, update_title, version_title, SpecVersionState,
    SpecVersionStatus, VersionState, VersionStatus,
};

verus! {

/// One entry of the tray menu.
#[derive(Debug, PartialEq, Eq)]
pub struct MenuEntry {
    pub text: String,
    pub enabled: bool,
}

/// The mathematical value of a [`MenuEntry`].
pub struct SpecMenuEntry {
    pub text: Seq<char>,
    pub enabled: bool,
}

impl View for MenuEntry {
    type V = SpecMenuEntry;

    open spec fn view(&self) -> SpecMenuEntry {
        SpecMenuEntry { text: self.text@, enabled: self.enabled }
    }
}

impl MenuEntry {
    /// An entry with the given text.
    pub fn new(text: &str, enabled: bool) -> (r: Self)
        ensures
            r@ == (SpecMenuEntry { text: text@, enabled }),
    {
        MenuEntry { text: String::from_str(text), enabled }
    }
}

/// The value of an optional entry.
pub open spec fn entry_view(e: Option<MenuEntry>) -> Option<SpecMenuEntry> {
    match e {
        Some(x) => Some(x@),
        None => None,
    }
}

/// Which status dot the tray shows.
#[derive(Debug, PartialEq, Eq, Clone, Copy)]
pub enum StatusIcon {
    /// The green dot: the agent is active and connected.
    Enabled,
    /// The gray dot: anything else.
    Disabled,
}

/// Shared state for tray menu items.
pub struct TrayState {
    pub status_item: MenuEntry,
    pub connection_item: MenuEntry,
    pub update_item: MenuEntry,
    pub version_item: MenuEntry,
    pub prerelease_item: Option<MenuEntry>,
    pub prerelease_update_item: Option<MenuEntry>,
    pub version_state: VersionState,
    pub enabled_icon: Vec<u8>,
    pub disabled_icon: Vec<u8>,
    pub status_icon: StatusIcon,
    pub update_in_progress: bool,
}

/// The mathematical value of a [`TrayState`].
pub struct SpecTrayState {
    pub status_item: SpecMenuEntry,
    pub connection_item: SpecMenuEntry,
    pub update_item: SpecMenuEntry,
    pub version_item: SpecMenuEntry,
    pub prerelease_item: Option<SpecMenuEntry>,
    pub prerelease_update_item: Option<SpecMenuEntry>,
    pub version_state: SpecVersionState,
    pub enabled_icon: Seq<u8>,
    pub disabled_icon: Seq<u8>,
    pub status_icon: StatusIcon,
    pub update_in_progress: bool,
}

impl View for TrayState {
    type V = SpecTrayState;

    open spec fn view(&self) -> SpecTrayState {
        SpecTrayState {
            status_item: self.status_item@,
            connection_item: self.connection_item@,
            update_item: self.update_item@,
            version_item: self.version_item@,
            prerelease_item: entry_view(self.prerelease_item),
            prerelease_update_item: entry_view(self.prerelease_update_item),
            version_state: self.version_state@,
            enabled_icon: self.enabled_icon@,
            disabled_icon: self.disabled_icon@,
            status_icon: self.status_icon,
            update_in_progress: self.update_in_progress,
        }
    }
}

/// The text of the agent entry for a reported agent status.
pub open spec fn agent_text(status: Seq<char>) -> Seq<char> {
    "Agent: "@ + if status == "Active"@ {
        "Active"@
    } else {
        "Inactive"@
    }
}

/// The text of the connection entry for a reported connection status.
pub open spec fn connection_text(connection: Seq<char>) -> Seq<char> {
    "Connection: "@ + if connection == "Connected"@ {
        "Connected"@
    } else {
        "Disconnected"@
    }
}

/// The status dot for a reported agent and connection status: green exactly when
/// the agent is active and connected.
pub open spec fn status_icon_for(status: Seq<char>, connection: Seq<char>) -> StatusIcon {
    if status == "Active"@ && connection == "Connected"@ {
        StatusIcon::Enabled
    } else {
        StatusIcon::Disabled
    }
}

/// The tray after a status report.
pub open spec fn status_shown(t: SpecTrayState, status: Seq<char>, connection: Seq<char>) -> SpecTrayState {
    SpecTrayState {
        status_item: SpecMenuEntry { text: agent_text(status), enabled: t.status_item.enabled },
        connection_item: SpecMenuEntry {
            text: connection_text(connection),
            enabled: t.connection_item.enabled,
        },
        status_icon: status_icon_for(status, connection),
        ..t
    }
}

/// Whether a status says that the installed version is an up-to-date release candidate.
pub open spec fn is_current_release_candidate(s: SpecVersionStatus) -> bool {
    match s {
        SpecVersionStatus::UpToDate(v) => contains(v, "rc"@),
        _ => false,
    }
}

/// The tray after a version report.
pub open spec fn version_shown(t: SpecTrayState, s: SpecVersionStatus) -> SpecTrayState {
    SpecTrayState {
        version_item: SpecMenuEntry { text: version_title(s), enabled: t.version_item.enabled },
        update_item: SpecMenuEntry { text: update_title(s), enabled: update_enabled(s) },
        prerelease_item: if is_current_release_candidate(s) {
            None
        } else {
            t.prerelease_item
        },
        prerelease_update_item: if is_current_release_candidate(s) {
            None
        } else {
            t.prerelease_update_item
        },
        ..t
    }
}

/// The prerelease that a version report announces to the user, if any: one is
/// announced only while the notice was not yet given in this session.
pub open spec fn announced_prerelease(t: SpecTrayState, s: SpecVersionStatus) -> Option<Seq<char>> {
    if t.version_state.prerelease_shown {
        None
    } else {
        offered_prerelease(s)
    }
}

/// The tray after an update is asked for: refused, and unchanged, while one runs.
pub open spec fn update_started(t: SpecTrayState) -> SpecTrayState {
    if t.update_in_progress {
        t
    } else {
        SpecTrayState {
            update_in_progress: true,
            update_item: SpecMenuEntry { text: "Starting Update..."@, enabled: false },
            ..t
        }
    }
}

/// The tray after a progress report of the running update.
pub open spec fn progress_shown(t: SpecTrayState, progress: Seq<char>) -> SpecTrayState {
    SpecTrayState {
        update_item: SpecMenuEntry {
            text: "Updating: "@ + progress,
            enabled: t.update_item.enabled,
        },
        ..t
    }
}

/// The tray after the running update ended, well or not.
pub open spec fn update_finished(t: SpecTrayState, succeeded: bool) -> SpecTrayState {
    if succeeded {
        SpecTrayState { update_in_progress: false, ..t }
    } else {
        SpecTrayState {
            update_in_progress: false,
            update_item: SpecMenuEntry { text: "Update Failed"@, enabled: true },
            ..t
        }
    }
}

/// What a click on a menu entry asks for.
#[derive(Debug, PartialEq, Eq, Clone, Copy)]
pub enum MenuRequest {
    /// Run an update; `true` for the prerelease channel.
    Update(bool),
    /// Leave the application (with exit code 0).
    Quit,
}

/// What a click on the menu entry `id` asks for, if anything.
pub open spec fn menu_request(id: Seq<char>) -> Option<MenuRequest> {
    if id == "update"@ {
        Some(MenuRequest::Update(false))
    } else if id == "prerelease_update"@ {
        Some(MenuRequest::Update(true))
    } else if id == "quit"@ {
        Some(MenuRequest::Quit)
    } else {
        None
    }
}

/// The tray as it is built, before any report.
pub open spec fn initial_tray(enabled_icon: Seq<u8>, disabled_icon: Seq<u8>) -> SpecTrayState {
    SpecTrayState {
        status_item: SpecMenuEntry { text: "Agent: Unknown"@, enabled: false },
        connection_item: SpecMenuEntry { text: "Connection: Unknown"@, enabled: false },
        update_item: SpecMenuEntry { text: "---"@, enabled: false },
        version_item: SpecMenuEntry { text: "v---"@, enabled: false },
        prerelease_item: None,
        prerelease_update_item: None,
        version_state: SpecVersionState {
            status: SpecVersionStatus::Unknown,
            prerelease_shown: false,
        },
        enabled_icon,
        disabled_icon,
        status_icon: StatusIcon::Disabled,
        update_in_progress: false,
    }
}

impl TrayState {
    /// A tray state over the given entries, with no prerelease entries, the gray
    /// status dot and no update running.
    pub fn new(
        status_item: MenuEntry,
        connection_item: MenuEntry,
        update_item: MenuEntry,
        version_item: MenuEntry,
        version_state: VersionState,
        enabled_icon: Vec<u8>,
        disabled_icon: Vec<u8>,
    ) -> (r: Self)
        ensures
            r@ == (SpecTrayState {
                status_item: status_item@,
                connection_item: connection_item@,
                update_item: update_item@,
                version_item: version_item@,
                prerelease_item: None,
                prerelease_update_item: None,
                version_state: version_state@,
                enabled_icon: enabled_icon@,
                disabled_icon: disabled_icon@,
                status_icon: StatusIcon::Disabled,
                update_in_progress: false,
            }),
    {
        TrayState {
            status_item,
            connection_item,
            update_item,
            version_item,
            prerelease_item: None,
            prerelease_update_item: None,
            version_state,
            enabled_icon,
            disabled_icon,
            status_icon: StatusIcon::Disabled,
            update_in_progress: false,
        }
    }

    /// Update status items with new status values.
    pub fn update_status(&mut self, status: &str, connection: &str)
        ensures
            final(self)@ == status_shown(old(self)@, status@, connection@),
    {
        let is_active = str_eq(status, "Active");
        let agent = if is_active {
            "Active"
        } else {
            "Inactive"
        };
        self.status_item.text = String::from_str("Agent: ").concat(agent);
        let is_connected = str_eq(connection, "Connected");
        let link = if is_connected {
            "Connected"
        } else {
            "Disconnected"
        };
        self.connection_item.text = String::from_str("Connection: ").concat(link);
        self.status_icon = if is_active && is_connected {
            StatusIcon::Enabled
        } else {
            StatusIcon::Disabled
        };
    }

    /// The image of the status dot that the tray shows.
    pub fn shown_status_icon(&self) -> (r: &Vec<u8>)
        ensures
            r@ == (if self@.status_icon == StatusIcon::Enabled {
                self@.enabled_icon
            } else {
                self@.disabled_icon
            }),
    {
        match self.status_icon {
            StatusIcon::Enabled => &self.enabled_icon,
            StatusIcon::Disabled => &self.disabled_icon,
        }
    }

    /// Update version-related menu items; returns the prerelease to announce, if any.
    pub fn update_version_display(&mut self, status: VersionStatus) -> (r: Option<String>)
        ensures
            final(self)@ == version_shown(old(self)@, status@),
            r.deep_view() == announced_prerelease(old(self)@, status@),
    {
        let version_title = get_version_title(&status);
        let update_title = get_update_title(&status);
        let enabled = is_update_enabled(&status);
        self.version_item.text = version_title;
        self.update_item.text = update_title;
        self.update_item.enabled = enabled;
        let mut announced: Option<String> = None;
        if let Some(prerelease_version) = should_show_prerelease_update(&status) {
            if self.show_prerelease_notification(&prerelease_version) {
                announced = Some(prerelease_version);
            }
        }
        match &status {
            VersionStatus::UpToDate(v) => {
                if contains_str(v.as_str(), "rc") {
                    self.hide_prerelease_items();
                }
            },
            _ => {},
        }
        announced
    }

    /// Whether the notice of a prerelease is still to be given in this session.
    pub fn show_prerelease_notification(&self, prerelease_version: &str) -> (r: bool)
        ensures
            r == !self@.version_state.prerelease_shown,
    {
        !self.version_state.is_prerelease_shown()
    }

    /// Hide prerelease notification items.
    pub fn hide_prerelease_items(&mut self)
        ensures
            final(self)@ == (SpecTrayState {
                prerelease_item: None,
                prerelease_update_item: None,
                ..old(self)@
            }),
    {
        self.prerelease_item = None;
        self.prerelease_update_item = None;
    }

    /// Claims the update slot; `false`, with nothing changed, while an update runs.
    pub fn start_update(&mut self) -> (r: bool)
        ensures
            r == !old(self)@.update_in_progress,
            final(self)@ == update_started(old(self)@),
    {
        if self.update_in_progress {
            return false;
        }
        self.update_in_progress = true;
        self.update_item.text = String::from_str("Starting Update...");
        self.update_item.enabled = false;
        true
    }

    /// Shows a progress report of the running update.
    pub fn show_update_progress(&mut self, progress: &str)
        ensures
            final(self)@ == progress_shown(old(self)@, progress@),
    {
        self.update_item.text = String::from_str("Updating: ").concat(progress);
    }

    /// Releases the update slot; a failed update is shown and can be retried.
    pub fn finish_update(&mut self, succeeded: bool)
        ensures
            final(self)@ == update_finished(old(self)@, succeeded),
    {
        if !succeeded {
            self.update_item.text = String::from_str("Update Failed");
            self.update_item.enabled = true;
        }
        self.update_in_progress = false;
    }
}

/// The tray state as the tray is built: every entry disabled, nothing known yet.
pub fn initial_tray_state(enabled_icon: Vec<u8>, disabled_icon: Vec<u8>) -> (r: TrayState)
    ensures
        r@ == initial_tray(enabled_icon@, disabled_icon@),
{
    TrayState::new(
        MenuEntry::new("Agent: Unknown", false),
        MenuEntry::new("Connection: Unknown", false),
        MenuEntry::new("---", false),
        MenuEntry::new("v---", false),
        VersionState::new(),
        enabled_icon,
        disabled_icon,
    )
}

/// What a click on the menu entry `id` asks for, if anything.
pub fn menu_request_for(id: &str) -> (r: Option<MenuRequest>)
    ensures
        r == menu_request(id@),
{
    if str_eq(id, "update") {
        Some(MenuRequest::Update(false))
    } else if str_eq(id, "prerelease_update") {
        Some(MenuRequest::Update(true))
    } else if str_eq(id, "quit") {
        Some(MenuRequest::Quit)
    } else {
        None
    }
}

} // verus!
