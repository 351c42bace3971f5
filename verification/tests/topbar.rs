use uplink::topbar::{
    context_menu_items, conversation_title, members_count, topbar_permissions, ConversationSettings,
    ConversationType, TopbarContext, TopbarEffect, TopbarEvent, TopbarMenuItem, TopbarPermissions,
    TopbarSignals, topbar_view, TopbarView, UserInfoView, StatusLine,
};
use uuid::Uuid;

fn group(add: bool, rename: bool) -> ConversationSettings {
    ConversationSettings::Group { members_can_add_participants: add, members_can_change_name: rename }
}

fn ctx(direct: bool) -> TopbarContext {
    TopbarContext { conversation_id: Uuid::from_u128(7), direct_message: direct, title: "Team".to_string() }
}

#[test]
fn direct_chat_permissions() {
    let p = topbar_permissions(ConversationType::Direct, ConversationSettings::Direct, false);
    assert_eq!(p, TopbarPermissions { direct_message: true, show_rename: true, show_manage_members: false, show_group_settings: false });
    assert_eq!(context_menu_items(&p), vec![TopbarMenuItem::CloseChat]);
}

#[test]
fn group_member_permissions_follow_settings() {
    let p = topbar_permissions(ConversationType::Group, group(true, false), false);
    assert_eq!(p, TopbarPermissions { direct_message: false, show_rename: false, show_manage_members: true, show_group_settings: false });
    assert_eq!(context_menu_items(&p), vec![TopbarMenuItem::ManageMembers]);
    let p = topbar_permissions(ConversationType::Group, group(false, false), false);
    assert!(context_menu_items(&p).is_empty());
}

#[test]
fn group_owner_gets_everything() {
    let p = topbar_permissions(ConversationType::Group, group(false, false), true);
    assert_eq!(
        context_menu_items(&p),
        vec![TopbarMenuItem::Rename, TopbarMenuItem::ManageMembers, TopbarMenuItem::GroupSettings]
    );
}

#[test]
fn title_prefers_name() {
    assert_eq!(conversation_title(Some("Team".to_string()), "Ann, Bo".to_string()), "Team");
    assert_eq!(conversation_title(None, "Ann, Bo".to_string()), "Ann, Bo");
}

#[test]
fn members_include_self() {
    assert_eq!(members_count(0), 1);
    assert_eq!(members_count(4), 5);
}

#[test]
fn user_info_click_toggles_member_list() {
    let c = ctx(false);
    let mut s = TopbarSignals::new();
    s.show_rename_group = true;
    assert_eq!(s.handle_event(&c, TopbarEvent::UserInfoClicked), TopbarEffect::Nothing);
    assert!(s.show_group_list(&c.conversation_id));
    assert!(!s.show_rename_group);
    s.handle_event(&c, TopbarEvent::UserInfoClicked);
    assert!(!s.show_group_list(&c.conversation_id));
    assert_eq!(s.show_group_users, None);
}

#[test]
fn user_info_click_on_other_chat_list_switches_to_this_one() {
    let c = ctx(false);
    let mut s = TopbarSignals::new();
    s.show_group_users = Some(Uuid::from_u128(9));
    s.handle_event(&c, TopbarEvent::UserInfoClicked);
    assert_eq!(s.show_group_users, Some(Uuid::from_u128(7)));
}

#[test]
fn user_info_click_in_direct_chat_does_nothing() {
    let c = ctx(true);
    let mut s = TopbarSignals::new();
    s.show_rename_group = true;
    let before = s;
    s.handle_event(&c, TopbarEvent::UserInfoClicked);
    assert_eq!(s, before);
}

#[test]
fn menu_presses() {
    let c = ctx(false);
    let mut s = TopbarSignals::new();
    assert_eq!(s.handle_event(&c, TopbarEvent::MenuItemPressed(TopbarMenuItem::Rename)), TopbarEffect::Nothing);
    assert!(s.show_rename_group);
    s.handle_event(&c, TopbarEvent::MenuItemPressed(TopbarMenuItem::ManageMembers));
    assert_eq!(s.show_manage_members, Some(Uuid::from_u128(7)));
    s.handle_event(&c, TopbarEvent::MenuItemPressed(TopbarMenuItem::GroupSettings));
    assert!(s.show_group_settings);
    let before = s;
    assert_eq!(
        s.handle_event(&ctx(true), TopbarEvent::MenuItemPressed(TopbarMenuItem::CloseChat)),
        TopbarEffect::RemoveFromSidebar(Uuid::from_u128(7))
    );
    assert_eq!(s, before);
}

#[test]
fn rename_submission() {
    let c = ctx(false);
    let mut s = TopbarSignals::new();
    s.show_rename_group = true;
    let e = s.handle_event(&c, TopbarEvent::RenameSubmitted { value: "New".to_string(), is_valid: false });
    assert_eq!(e, TopbarEffect::Nothing);
    assert!(s.show_rename_group);
    let e = s.handle_event(&c, TopbarEvent::RenameSubmitted { value: "Team".to_string(), is_valid: true });
    assert_eq!(e, TopbarEffect::Nothing);
    assert!(!s.show_rename_group);
    s.show_rename_group = true;
    let e = s.handle_event(&c, TopbarEvent::RenameSubmitted { value: "New".to_string(), is_valid: true });
    assert_eq!(e, TopbarEffect::UpdateGroupName(Uuid::from_u128(7), "New".to_string()));
    assert!(!s.show_rename_group);
}

#[test]
fn rename_close_button() {
    let c = ctx(false);
    let mut s = TopbarSignals::new();
    s.show_rename_group = true;
    assert_eq!(s.handle_event(&c, TopbarEvent::RenameClosed), TopbarEffect::Nothing);
    assert!(!s.show_rename_group);
}

#[test]
fn topbar_view_choices() {
    assert_eq!(topbar_view(false, false, ConversationType::Group, 3), TopbarView::Loading);
    assert_eq!(topbar_view(true, true, ConversationType::Direct, 1), TopbarView::Ready(UserInfoView::RenameEditor));
    assert_eq!(
        topbar_view(true, false, ConversationType::Direct, 1),
        TopbarView::Ready(UserInfoView::TitleAndStatus(StatusLine::Subtext))
    );
    assert_eq!(
        topbar_view(true, false, ConversationType::Group, 3),
        TopbarView::Ready(UserInfoView::TitleAndStatus(StatusLine::MembersCount(4)))
    );
}
