use vstd::prelude::*;

verus! {

/// The notification settings that the settings page shows.
#[derive(Clone, Copy, PartialEq, Eq, Structural, Debug)]
pub struct NotificationConfig {
    /// Notifications as a whole.
    pub enabled: bool,
    pub friends_notifications: bool,
    pub messages_notifications: bool,
    pub settings_notifications: bool,
}

/// One switch of the notification settings page.
#[derive(Clone, Copy, PartialEq, Eq, Structural, Debug)]
pub enum NotificationSwitch {
    /// The switch for notifications as a whole.
    Enabled,
    Friends,
    Messages,
    Settings,
}

/// How a switch is drawn.
#[derive(Clone, Copy, PartialEq, Eq, Structural, Debug)]
pub struct SwitchState {
    /// The switch shows as on.
    pub active: bool,
    /// The switch is greyed out and cannot be flipped.
    pub disabled: bool,
}

/// How a switch is drawn: the switch for notifications as a whole shows
/// their state and is never greyed out; each of the others shows as on only
/// where notifications are on and its own kind is on, and is greyed out
/// while notifications are off.
pub open spec fn switch_state_of(config: NotificationConfig, switch: NotificationSwitch) -> SwitchState {
    match switch {
        NotificationSwitch::Enabled => SwitchState { active: config.enabled, disabled: false },
        NotificationSwitch::Friends => SwitchState {
            active: config.enabled && config.friends_notifications,
            disabled: !config.enabled,
        },
        NotificationSwitch::Messages => SwitchState {
            active: config.enabled && config.messages_notifications,
            disabled: !config.enabled,
        },
        NotificationSwitch::Settings => SwitchState {
            active: config.enabled && config.settings_notifications,
            disabled: !config.enabled,
        },
    }
}

/// How `switch` is drawn for `config`.
pub fn switch_state(config: &NotificationConfig, switch: NotificationSwitch) -> (state: SwitchState)
    ensures
        state == switch_state_of(*config, switch),
{
    match switch {
        NotificationSwitch::Enabled => SwitchState { active: config.enabled, disabled: false },
        NotificationSwitch::Friends => SwitchState {
            active: config.enabled && config.friends_notifications,
            disabled: !config.enabled,
        },
        NotificationSwitch::Messages => SwitchState {
            active: config.enabled && config.messages_notifications,
            disabled: !config.enabled,
        },
        NotificationSwitch::Settings => SwitchState {
            active: config.enabled && config.settings_notifications,
            disabled: !config.enabled,
        },
    }
}

/// The style class of the block of per-kind switches: `enabled` or
/// `disabled`, after notifications as a whole.
pub fn section_class(enabled: bool) -> (class: String)
    ensures
        class@ == (if enabled { "enabled"@ } else { "disabled"@ }),
{
    if enabled {
        String::from_str("enabled")
    } else {
        String::from_str("disabled")
    }
}

/// A change of the configuration that a flipped switch asks for.
#[derive(Clone, Copy, PartialEq, Eq, Structural, Debug)]
pub enum ConfigAction {
    SetNotificationsEnabled(bool),
    SetFriendsNotificationsEnabled(bool),
    SetMessagesNotificationsEnabled(bool),
    SetSettingsNotificationsEnabled(bool),
}

/// What flipping a switch does: play the flip sound or not, and ask for a
/// change of the configuration.
#[derive(Clone, Copy, PartialEq, Eq, Structural, Debug)]
pub struct FlipOutcome {
    pub play_flip_sound: bool,
    pub action: ConfigAction,
}

/// The change that flipping `switch` to `value` asks for.
pub open spec fn action_of(switch: NotificationSwitch, value: bool) -> ConfigAction {
    match switch {
        NotificationSwitch::Enabled => ConfigAction::SetNotificationsEnabled(value),
        NotificationSwitch::Friends => ConfigAction::SetFriendsNotificationsEnabled(value),
        NotificationSwitch::Messages => ConfigAction::SetMessagesNotificationsEnabled(value),
        NotificationSwitch::Settings => ConfigAction::SetSettingsNotificationsEnabled(value),
    }
}

/// Flipping `switch` to `value`: the flip sound plays where interface
/// sounds are on, and the configuration of that switch's kind is set to
/// `value`.
pub fn on_switch_flipped(switch: NotificationSwitch, value: bool, interface_sounds: bool) -> (outcome: FlipOutcome)
    ensures
        outcome.play_flip_sound == interface_sounds,
        outcome.action == action_of(switch, value),
{
    let action = match switch {
        NotificationSwitch::Enabled => ConfigAction::SetNotificationsEnabled(value),
        NotificationSwitch::Friends => ConfigAction::SetFriendsNotificationsEnabled(value),
        NotificationSwitch::Messages => ConfigAction::SetMessagesNotificationsEnabled(value),
        NotificationSwitch::Settings => ConfigAction::SetSettingsNotificationsEnabled(value),
    };
    FlipOutcome { play_flip_sound: interface_sounds, action }
}

/// While notifications are off, every per-kind switch shows as off and is
/// greyed out, whatever its own setting.
pub proof fn lemma_disabled_notifications_grey_out(config: NotificationConfig, switch: NotificationSwitch)
    requires
        !config.enabled,
        switch != NotificationSwitch::Enabled,
    ensures
        !switch_state_of(config, switch).active,
        switch_state_of(config, switch).disabled,
{
}

/// A per-kind switch shows as on only while notifications as a whole are on.
pub proof fn lemma_active_switch_needs_notifications(config: NotificationConfig, switch: NotificationSwitch)
    requires
        switch_state_of(config, switch).active,
    ensures
        config.enabled,
{
}

/// Different switches, or different values, ask for different changes.
pub proof fn lemma_flip_actions_distinct(a: NotificationSwitch, x: bool, b: NotificationSwitch, y: bool)
    requires
        action_of(a, x) == action_of(b, y),
    ensures
        a == b,
        x == y,
{
}

/// How each switch is drawn, in terms of the configuration: the switch for
/// notifications as a whole shows `enabled` and is never greyed out; the
/// friends, messages and settings switches each show their own kind's flag
/// while notifications are on, and are greyed out exactly while they are
/// off.
pub proof fn lemma_switch_state_meaning(config: NotificationConfig)
    ensures
        switch_state_of(config, NotificationSwitch::Enabled) == (SwitchState {
            active: config.enabled,
            disabled: false,
        }),
        switch_state_of(config, NotificationSwitch::Friends).active == (config.enabled
            && config.friends_notifications),
        switch_state_of(config, NotificationSwitch::Messages).active == (config.enabled
            && config.messages_notifications),
        switch_state_of(config, NotificationSwitch::Settings).active == (config.enabled
            && config.settings_notifications),
        switch_state_of(config, NotificationSwitch::Friends).disabled == !config.enabled,
        switch_state_of(config, NotificationSwitch::Messages).disabled == !config.enabled,
        switch_state_of(config, NotificationSwitch::Settings).disabled == !config.enabled,
{
}

/// The change that flipping a switch asks for names that switch's own kind
/// and carries the new value.
pub proof fn lemma_flip_action_meaning(value: bool)
    ensures
        action_of(NotificationSwitch::Enabled, value) == ConfigAction::SetNotificationsEnabled(value),
        action_of(NotificationSwitch::Friends, value) == ConfigAction::SetFriendsNotificationsEnabled(value),
        action_of(NotificationSwitch::Messages, value) == ConfigAction::SetMessagesNotificationsEnabled(value),
        action_of(NotificationSwitch::Settings, value) == ConfigAction::SetSettingsNotificationsEnabled(value),
{
}

} // verus!
