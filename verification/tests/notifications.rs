use uplink::notifications::{
    on_switch_flipped, section_class, switch_state, ConfigAction, NotificationConfig,
    NotificationSwitch, SwitchState,
};

fn config(enabled: bool) -> NotificationConfig {
    NotificationConfig {
        enabled,
        friends_notifications: true,
        messages_notifications: false,
        settings_notifications: true,
    }
}

#[test]
fn master_switch_shows_state() {
    assert_eq!(switch_state(&config(true), NotificationSwitch::Enabled), SwitchState { active: true, disabled: false });
    assert_eq!(switch_state(&config(false), NotificationSwitch::Enabled), SwitchState { active: false, disabled: false });
}

#[test]
fn kind_switches_follow_master() {
    let on = config(true);
    assert_eq!(switch_state(&on, NotificationSwitch::Friends), SwitchState { active: true, disabled: false });
    assert_eq!(switch_state(&on, NotificationSwitch::Messages), SwitchState { active: false, disabled: false });
    assert_eq!(switch_state(&on, NotificationSwitch::Settings), SwitchState { active: true, disabled: false });
}

#[test]
fn disabled_notifications_grey_out_kinds() {
    let off = config(false);
    for s in [NotificationSwitch::Friends, NotificationSwitch::Messages, NotificationSwitch::Settings] {
        assert_eq!(switch_state(&off, s), SwitchState { active: false, disabled: true });
    }
}

#[test]
fn section_class_names() {
    assert_eq!(section_class(true), "enabled");
    assert_eq!(section_class(false), "disabled");
}

#[test]
fn flip_asks_for_matching_change() {
    let o = on_switch_flipped(NotificationSwitch::Messages, true, true);
    assert!(o.play_flip_sound);
    assert_eq!(o.action, ConfigAction::SetMessagesNotificationsEnabled(true));
    let o = on_switch_flipped(NotificationSwitch::Enabled, false, false);
    assert!(!o.play_flip_sound);
    assert_eq!(o.action, ConfigAction::SetNotificationsEnabled(false));
    assert_eq!(on_switch_flipped(NotificationSwitch::Friends, false, true).action, ConfigAction::SetFriendsNotificationsEnabled(false));
    assert_eq!(on_switch_flipped(NotificationSwitch::Settings, true, true).action, ConfigAction::SetSettingsNotificationsEnabled(true));
}
