use vstd::prelude::*;
use uuid::Uuid;

verus! {

#[verifier::external_type_specification]
#[verifier::external_body]
pub struct ExUuid(Uuid);

/// Calls `==` on two `uuid::Uuid`s, which the crate derives from the sixteen
/// bytes they hold; the contract claims that the answer is whether the two
/// values are the same.
#[verifier::external_body]
fn uuid_eq(a: &Uuid, b: &Uuid) -> (same: bool)
    ensures
        same == (*a == *b),
{
    *a == *b
}

/// Whether a conversation is between two users or a group.
#[derive(Clone, Copy, PartialEq, Eq, Structural, Debug)]
pub enum ConversationType {
    Direct,
    Group,
}

/// The settings of a conversation that the top bar reads.
#[derive(Clone, Copy, PartialEq, Eq, Structural, Debug)]
pub enum ConversationSettings {
    Direct,
    Group { members_can_add_participants: bool, members_can_change_name: bool },
}

/// What the top bar offers for the active chat.
#[derive(Clone, Copy, PartialEq, Eq, Structural, Debug)]
pub struct TopbarPermissions {
    /// The chat is between two users.
    pub direct_message: bool,
    /// The group may be renamed by this user.
    pub show_rename: bool,
    /// The members of the group may be managed by this user.
    pub show_manage_members: bool,
    /// The group settings may be opened by this user.
    pub show_group_settings: bool,
}

/// What the top bar offers: a direct chat can always be renamed and offers
/// neither member management nor group settings; in a group, renaming and
/// managing members are open to the owner and, where the settings allow it,
/// to every member, and the settings are open to the owner alone.
pub open spec fn permissions_of(
    conversation_type: ConversationType,
    settings: ConversationSettings,
    is_owner: bool,
) -> TopbarPermissions {
    match settings {
        ConversationSettings::Group { members_can_add_participants, members_can_change_name } => {
            TopbarPermissions {
                direct_message: conversation_type == ConversationType::Direct,
                show_rename: is_owner || members_can_change_name,
                show_manage_members: is_owner || members_can_add_participants,
                show_group_settings: is_owner,
            }
        },
        ConversationSettings::Direct => TopbarPermissions {
            direct_message: conversation_type == ConversationType::Direct,
            show_rename: true,
            show_manage_members: false,
            show_group_settings: false,
        },
    }
}

/// What the top bar offers for a chat of this type and settings, to its
/// owner or to another member.
pub fn topbar_permissions(
    conversation_type: ConversationType,
    settings: ConversationSettings,
    is_owner: bool,
) -> (perms: TopbarPermissions)
    ensures
        perms == permissions_of(conversation_type, settings, is_owner),
{
    let direct_message = match conversation_type {
        ConversationType::Direct => true,
        ConversationType::Group => false,
    };
    match settings {
        ConversationSettings::Group { members_can_add_participants, members_can_change_name } => {
            TopbarPermissions {
                direct_message,
                show_rename: is_owner || members_can_change_name,
                show_manage_members: is_owner || members_can_add_participants,
                show_group_settings: is_owner,
            }
        },
        ConversationSettings::Direct => TopbarPermissions {
            direct_message,
            show_rename: true,
            show_manage_members: false,
            show_group_settings: false,
        },
    }
}

/// An entry of the top bar's context menu.
#[derive(Clone, Copy, PartialEq, Eq, Structural, Debug)]
pub enum TopbarMenuItem {
    CloseChat,
    Rename,
    ManageMembers,
    GroupSettings,
}

/// `item` alone where `shown`, nothing otherwise.
pub open spec fn item_if(shown: bool, item: TopbarMenuItem) -> Seq<TopbarMenuItem> {
    if shown {
        seq![item]
    } else {
        seq![]
    }
}

/// The context menu: a direct chat offers only to close it; a group offers
/// renaming, member management and settings, each where it is permitted,
/// in that order.
pub open spec fn menu_items_of(perms: TopbarPermissions) -> Seq<TopbarMenuItem> {
    if perms.direct_message {
        seq![TopbarMenuItem::CloseChat]
    } else {
        item_if(perms.show_rename, TopbarMenuItem::Rename) + item_if(
            perms.show_manage_members,
            TopbarMenuItem::ManageMembers,
        ) + item_if(perms.show_group_settings, TopbarMenuItem::GroupSettings)
    }
}

/// The entries of the top bar's context menu.
pub fn context_menu_items(perms: &TopbarPermissions) -> (items: Vec<TopbarMenuItem>)
    ensures
        items@ == menu_items_of(*perms),
{
    let mut items: Vec<TopbarMenuItem> = Vec::new();
    if perms.direct_message {
        items.push(TopbarMenuItem::CloseChat);
    } else {
        if perms.show_rename {
            items.push(TopbarMenuItem::Rename);
        }
        if perms.show_manage_members {
            items.push(TopbarMenuItem::ManageMembers);
        }
        if perms.show_group_settings {
            items.push(TopbarMenuItem::GroupSettings);
        }
    }
    assert(items@ =~= menu_items_of(*perms));
    items
}

/// The title of the chat: its name where it has one, else the names of the
/// other participants.
pub fn conversation_title(conversation_name: Option<String>, other_participants_names: String) -> (title: String)
    ensures
        title@ == match conversation_name {
            Some(name) => name@,
            None => other_participants_names@,
        },
{
    match conversation_name {
        Some(name) => name,
        None => other_participants_names,
    }
}

/// How many members the group has: the other participants and this user.
pub fn members_count(other_participants: usize) -> (count: usize)
    requires
        other_participants < usize::MAX,
    ensures
        count == other_participants + 1,
{
    other_participants + 1
}

/// The second line under the chat's title.
#[derive(Clone, Copy, PartialEq, Eq, Structural, Debug)]
pub enum StatusLine {
    /// The other user's status text, in a direct chat.
    Subtext,
    /// How many members the group has, this user included.
    MembersCount(usize),
}

/// What stands beside the chat's picture.
#[derive(Clone, Copy, PartialEq, Eq, Structural, Debug)]
pub enum UserInfoView {
    /// The editor for the group's new name.
    RenameEditor,
    /// The chat's title and the status line under it.
    TitleAndStatus(StatusLine),
}

/// What the top bar shows.
#[derive(Clone, Copy, PartialEq, Eq, Structural, Debug)]
pub enum TopbarView {
    /// Placeholders, while the chat's data is not there yet.
    Loading,
    /// The chat's bar.
    Ready(UserInfoView),
}

/// What the top bar shows: placeholders until the chat is loaded; then the
/// rename editor while it is open, else the title over the other user's
/// status text in a direct chat, or over the number of members, this user
/// included, in a group.
pub open spec fn topbar_view_of(
    is_initialized: bool,
    show_rename_group: bool,
    conversation_type: ConversationType,
    other_participants: usize,
) -> TopbarView {
    if !is_initialized {
        TopbarView::Loading
    } else if show_rename_group {
        TopbarView::Ready(UserInfoView::RenameEditor)
    } else if conversation_type == ConversationType::Direct {
        TopbarView::Ready(UserInfoView::TitleAndStatus(StatusLine::Subtext))
    } else {
        TopbarView::Ready(
            UserInfoView::TitleAndStatus(StatusLine::MembersCount((other_participants + 1) as usize)),
        )
    }
}

/// What the top bar shows for a chat that is loaded or not, with the
/// rename editor open or not, of this type and with this many other
/// participants.
pub fn topbar_view(
    is_initialized: bool,
    show_rename_group: bool,
    conversation_type: ConversationType,
    other_participants: usize,
) -> (view: TopbarView)
    requires
        is_initialized ==> other_participants < usize::MAX,
    ensures
        view == topbar_view_of(is_initialized, show_rename_group, conversation_type, other_participants),
{
    if !is_initialized {
        TopbarView::Loading
    } else if show_rename_group {
        TopbarView::Ready(UserInfoView::RenameEditor)
    } else {
        match conversation_type {
            ConversationType::Direct => TopbarView::Ready(UserInfoView::TitleAndStatus(StatusLine::Subtext)),
            ConversationType::Group => TopbarView::Ready(
                UserInfoView::TitleAndStatus(StatusLine::MembersCount(members_count(other_participants))),
            ),
        }
    }
}

/// The open or closed parts of the top bar.
#[derive(Clone, Copy, PartialEq, Eq, Debug)]
pub struct TopbarSignals {
    /// The chat whose member list is shown, if any.
    pub show_group_users: Option<Uuid>,
    /// The rename editor is open.
    pub show_rename_group: bool,
    /// The chat whose member manager is open, if any.
    pub show_manage_members: Option<Uuid>,
    /// The group settings are open.
    pub show_group_settings: bool,
}

/// Whether the member list of chat `id` is shown.
pub open spec fn group_list_shown(s: TopbarSignals, id: Uuid) -> bool {
    s.show_group_users == Some(id)
}

/// What a click on the chat's name and status does: in a direct chat
/// nothing; in a group it hides the member list where it is shown for this
/// chat, and otherwise shows it and closes the rename editor.
pub open spec fn after_user_info_click(s: TopbarSignals, direct_message: bool, id: Uuid) -> TopbarSignals {
    if direct_message {
        s
    } else if group_list_shown(s, id) {
        TopbarSignals { show_group_users: None, ..s }
    } else {
        TopbarSignals { show_group_users: Some(id), show_rename_group: false, ..s }
    }
}

/// What pressing a context-menu entry does to the bar: renaming opens the
/// editor, managing members opens the manager for this chat, settings opens
/// the settings; closing the chat leaves the bar as it is.
pub open spec fn after_menu_press(s: TopbarSignals, item: TopbarMenuItem, id: Uuid) -> TopbarSignals {
    match item {
        TopbarMenuItem::CloseChat => s,
        TopbarMenuItem::Rename => TopbarSignals { show_rename_group: true, ..s },
        TopbarMenuItem::ManageMembers => TopbarSignals { show_manage_members: Some(id), ..s },
        TopbarMenuItem::GroupSettings => TopbarSignals { show_group_settings: true, ..s },
    }
}

/// The chat that the top bar belongs to.
pub struct TopbarContext {
    pub conversation_id: Uuid,
    pub direct_message: bool,
    /// The title shown, and offered in the rename editor.
    pub title: String,
}

/// Something the user does in the top bar.
#[derive(Clone, Debug, PartialEq, Eq)]
pub enum TopbarEvent {
    /// A click on the chat's name and status.
    UserInfoClicked,
    /// A context-menu entry was pressed.
    MenuItemPressed(TopbarMenuItem),
    /// The rename editor was submitted with `value`, which the input judged
    /// valid or not.
    RenameSubmitted { value: String, is_valid: bool },
    /// The rename editor's close button was pressed.
    RenameClosed,
}

/// What the application must do in answer to an event.
#[derive(Debug, PartialEq, Eq)]
pub enum TopbarEffect {
    Nothing,
    /// Take the chat out of the sidebar.
    RemoveFromSidebar(Uuid),
    /// Ask for the group to be renamed.
    UpdateGroupName(Uuid, String),
}

impl TopbarSignals {
    /// The bar with everything closed.
    pub fn new() -> (s: TopbarSignals)
        ensures
            s == (TopbarSignals {
                show_group_users: None,
                show_rename_group: false,
                show_manage_members: None,
                show_group_settings: false,
            }),
    {
        TopbarSignals {
            show_group_users: None,
            show_rename_group: false,
            show_manage_members: None,
            show_group_settings: false,
        }
    }

    /// Whether the member list of chat `id` is shown.
    pub fn show_group_list(&self, id: &Uuid) -> (shown: bool)
        ensures
            shown == group_list_shown(*self, *id),
    {
        match &self.show_group_users {
            Some(shown_for) => uuid_eq(shown_for, id),
            None => false,
        }
    }

    /// Applies one event of the top bar of the chat `ctx` and says what the
    /// application must do in answer.
    pub fn handle_event(&mut self, ctx: &TopbarContext, event: TopbarEvent) -> (effect: TopbarEffect)
        ensures
            match event {
                TopbarEvent::UserInfoClicked => {
                    &&& *final(self) == after_user_info_click(*old(self), ctx.direct_message, ctx.conversation_id)
                    &&& effect is Nothing
                },
                TopbarEvent::MenuItemPressed(item) => {
                    &&& *final(self) == after_menu_press(*old(self), item, ctx.conversation_id)
                    &&& match effect {
                        TopbarEffect::RemoveFromSidebar(id) => item == TopbarMenuItem::CloseChat
                            && id == ctx.conversation_id,
                        TopbarEffect::Nothing => item != TopbarMenuItem::CloseChat,
                        TopbarEffect::UpdateGroupName(_, _) => false,
                    }
                },
                TopbarEvent::RenameSubmitted { value, is_valid } => {
                    &&& *final(self) == (if is_valid {
                        TopbarSignals { show_rename_group: false, ..*old(self) }
                    } else {
                        *old(self)
                    })
                    &&& match effect {
                        TopbarEffect::UpdateGroupName(id, name) => is_valid && value@ != ctx.title@
                            && id == ctx.conversation_id && name@ == value@,
                        TopbarEffect::Nothing => !is_valid || value@ == ctx.title@,
                        TopbarEffect::RemoveFromSidebar(_) => false,
                    }
                },
                TopbarEvent::RenameClosed => {
                    &&& *final(self) == (TopbarSignals { show_rename_group: false, ..*old(self) })
                    &&& effect is Nothing
                },
            },
    {
        match event {
            TopbarEvent::UserInfoClicked => {
                if ctx.direct_message {
                } else if self.show_group_list(&ctx.conversation_id) {
                    self.show_group_users = None;
                } else {
                    self.show_group_users = Some(ctx.conversation_id);
                    self.show_rename_group = false;
                }
                TopbarEffect::Nothing
            },
            TopbarEvent::MenuItemPressed(item) => match item {
                TopbarMenuItem::CloseChat => TopbarEffect::RemoveFromSidebar(ctx.conversation_id),
                TopbarMenuItem::Rename => {
                    self.show_rename_group = true;
                    TopbarEffect::Nothing
                },
                TopbarMenuItem::ManageMembers => {
                    self.show_manage_members = Some(ctx.conversation_id);
                    TopbarEffect::Nothing
                },
                TopbarMenuItem::GroupSettings => {
                    self.show_group_settings = true;
                    TopbarEffect::Nothing
                },
            },
            TopbarEvent::RenameSubmitted { value, is_valid } => {
                if !is_valid {
                    return TopbarEffect::Nothing;
                }
                let effect = if value != ctx.title {
                    TopbarEffect::UpdateGroupName(ctx.conversation_id, value)
                } else {
                    TopbarEffect::Nothing
                };
                self.show_rename_group = false;
                effect
            },
            TopbarEvent::RenameClosed => {
                self.show_rename_group = false;
                TopbarEffect::Nothing
            },
        }
    }
}

/// In a group chat, a click on the chat's name toggles whether its member
/// list is shown.
pub proof fn lemma_user_info_click_toggles_member_list(s: TopbarSignals, id: Uuid)
    ensures
        group_list_shown(after_user_info_click(s, false, id), id) == !group_list_shown(s, id),
{
}

/// In a direct chat, a click on the chat's name changes nothing.
pub proof fn lemma_user_info_click_direct_is_inert(s: TopbarSignals, id: Uuid)
    ensures
        after_user_info_click(s, true, id) == s,
{
}

/// Showing a group's member list closes the rename editor.
pub proof fn lemma_showing_members_closes_rename(s: TopbarSignals, id: Uuid)
    requires
        !group_list_shown(s, id),
    ensures
        group_list_shown(after_user_info_click(s, false, id), id),
        !after_user_info_click(s, false, id).show_rename_group,
{
}

/// A direct chat offers exactly one menu entry, closing it; a group chat
/// never offers to close the chat, and always offers the settings to its
/// owner.
pub proof fn lemma_menu_by_chat_kind(
    conversation_type: ConversationType,
    settings: ConversationSettings,
    is_owner: bool,
)
    ensures
        ({
            let perms = permissions_of(conversation_type, settings, is_owner);
            let items = menu_items_of(perms);
            &&& conversation_type == ConversationType::Direct ==> items == seq![TopbarMenuItem::CloseChat]
            &&& conversation_type == ConversationType::Group ==> !items.contains(TopbarMenuItem::CloseChat)
            &&& (conversation_type == ConversationType::Group && is_owner
                && settings !is Direct) ==> items.contains(TopbarMenuItem::GroupSettings)
        }),
{
    let perms = permissions_of(conversation_type, settings, is_owner);
    let items = menu_items_of(perms);
    if conversation_type == ConversationType::Group {
        let a = item_if(perms.show_rename, TopbarMenuItem::Rename);
        let b = item_if(perms.show_manage_members, TopbarMenuItem::ManageMembers);
        let c = item_if(perms.show_group_settings, TopbarMenuItem::GroupSettings);
        assert(items == a + b + c);
        if items.contains(TopbarMenuItem::CloseChat) {
            let i = choose|i: int| 0 <= i < items.len() && items[i] == TopbarMenuItem::CloseChat;
            if i < a.len() {
                assert(items[i] == a[i]);
            } else if i < a.len() + b.len() {
                assert(items[i] == b[i - a.len()]);
            } else {
                assert(items[i] == c[i - a.len() - b.len()]);
            }
        }
        if is_owner && settings !is Direct {
            assert(items[items.len() - 1] == TopbarMenuItem::GroupSettings);
        }
    }
}

/// What the top bar offers, in terms of the chat's type and settings and
/// whether this user owns it: in a group, renaming is open to the owner or
/// where members may change the name, member management to the owner or
/// where members may add participants, and the settings to the owner alone;
/// in a direct chat, renaming is always open and the others never are.
pub proof fn lemma_permissions_meaning(
    conversation_type: ConversationType,
    settings: ConversationSettings,
    is_owner: bool,
)
    ensures
        ({
            let perms = permissions_of(conversation_type, settings, is_owner);
            &&& perms.direct_message == (conversation_type == ConversationType::Direct)
            &&& settings matches ConversationSettings::Group {
                members_can_add_participants: add,
                members_can_change_name: rename,
            } ==> {
                &&& perms.show_rename == (is_owner || rename)
                &&& perms.show_manage_members == (is_owner || add)
                &&& perms.show_group_settings == is_owner
            }
            &&& settings is Direct ==> {
                &&& perms.show_rename
                &&& !perms.show_manage_members
                &&& !perms.show_group_settings
            }
        }),
{
}

/// What the top bar shows, in terms of its inputs: placeholders exactly
/// until the chat is loaded; once loaded, the rename editor whenever it is
/// open, for any chat; otherwise the title over the status text in a direct
/// chat, and over the member count, one more than the other participants,
/// in a group.
pub proof fn lemma_topbar_view_meaning(
    is_initialized: bool,
    show_rename_group: bool,
    conversation_type: ConversationType,
    other_participants: usize,
)
    requires
        other_participants < usize::MAX,
    ensures
        ({
            let view = topbar_view_of(is_initialized, show_rename_group, conversation_type, other_participants);
            &&& (view == TopbarView::Loading) == !is_initialized
            &&& is_initialized && show_rename_group ==> view == TopbarView::Ready(UserInfoView::RenameEditor)
            &&& is_initialized && !show_rename_group && conversation_type == ConversationType::Direct
                ==> view == TopbarView::Ready(UserInfoView::TitleAndStatus(StatusLine::Subtext))
            &&& is_initialized && !show_rename_group && conversation_type == ConversationType::Group
                ==> view == TopbarView::Ready(
                UserInfoView::TitleAndStatus(StatusLine::MembersCount((other_participants + 1) as usize)),
            )
        }),
{
}

/// An item of one of three parts stands in their concatenation.
proof fn lemma_contains_in_sum(a: Seq<TopbarMenuItem>, b: Seq<TopbarMenuItem>, c: Seq<TopbarMenuItem>, x: TopbarMenuItem)
    requires
        a.contains(x) || b.contains(x) || c.contains(x),
    ensures
        (a + b + c).contains(x),
{
    let s = a + b + c;
    if a.contains(x) {
        let i = choose|i: int| 0 <= i < a.len() && a[i] == x;
        assert(s[i] == x);
    } else if b.contains(x) {
        let i = choose|i: int| 0 <= i < b.len() && b[i] == x;
        assert(s[a.len() + i] == x);
    } else {
        let i = choose|i: int| 0 <= i < c.len() && c[i] == x;
        assert(s[a.len() + b.len() + i] == x);
    }
}

/// An item of a concatenation of three parts stands in one of them.
proof fn lemma_sum_contains(a: Seq<TopbarMenuItem>, b: Seq<TopbarMenuItem>, c: Seq<TopbarMenuItem>, x: TopbarMenuItem)
    requires
        (a + b + c).contains(x),
    ensures
        a.contains(x) || b.contains(x) || c.contains(x),
{
    let s = a + b + c;
    let i = choose|i: int| 0 <= i < s.len() && s[i] == x;
    if i < a.len() {
        assert(a[i] == x);
    } else if i < a.len() + b.len() {
        assert(b[i - a.len()] == x);
    } else {
        assert(c[i - a.len() - b.len()] == x);
    }
}

/// A conditional entry holds its item exactly where it is shown.
pub proof fn lemma_item_if_contains(shown: bool, item: TopbarMenuItem, x: TopbarMenuItem)
    ensures
        item_if(shown, item).contains(x) <==> (shown && x == item),
{
    if shown && x == item {
        assert(item_if(shown, item)[0] == x);
    }
}

/// The context menu in terms of the permissions: a direct chat's menu is
/// closing it alone; a group's menu holds renaming, member management and
/// settings exactly where each is permitted, never more than once each, in
/// that order, and never closing the chat.
pub proof fn lemma_menu_items_meaning(perms: TopbarPermissions)
    ensures
        perms.direct_message ==> menu_items_of(perms) == seq![TopbarMenuItem::CloseChat],
        !perms.direct_message ==> {
            let items = menu_items_of(perms);
            &&& items.contains(TopbarMenuItem::Rename) == perms.show_rename
            &&& items.contains(TopbarMenuItem::ManageMembers) == perms.show_manage_members
            &&& items.contains(TopbarMenuItem::GroupSettings) == perms.show_group_settings
            &&& !items.contains(TopbarMenuItem::CloseChat)
            &&& items.len() == (if perms.show_rename { 1int } else { 0 }) + (if perms.show_manage_members { 1int } else { 0 })
                + (if perms.show_group_settings { 1int } else { 0 })
            &&& forall|i: int, j: int| 0 <= i < j < items.len() ==> items[i] != items[j]
            &&& (perms.show_rename && items.len() > 0) ==> items[0] == TopbarMenuItem::Rename
            &&& (perms.show_group_settings && items.len() > 0) ==> items[items.len() - 1]
                == TopbarMenuItem::GroupSettings
        },
{
    if !perms.direct_message {
        let a = item_if(perms.show_rename, TopbarMenuItem::Rename);
        let b = item_if(perms.show_manage_members, TopbarMenuItem::ManageMembers);
        let c = item_if(perms.show_group_settings, TopbarMenuItem::GroupSettings);
        let items = menu_items_of(perms);
        assert(items == a + b + c);
        assert forall|x: TopbarMenuItem| #![trigger items.contains(x)]
            items.contains(x) <==> ((perms.show_rename && x == TopbarMenuItem::Rename) || (perms.show_manage_members
                && x == TopbarMenuItem::ManageMembers) || (perms.show_group_settings && x
                == TopbarMenuItem::GroupSettings)) by {
            lemma_item_if_contains(perms.show_rename, TopbarMenuItem::Rename, x);
            lemma_item_if_contains(perms.show_manage_members, TopbarMenuItem::ManageMembers, x);
            lemma_item_if_contains(perms.show_group_settings, TopbarMenuItem::GroupSettings, x);
            if a.contains(x) || b.contains(x) || c.contains(x) {
                lemma_contains_in_sum(a, b, c, x);
            }
            if items.contains(x) {
                lemma_sum_contains(a, b, c, x);
            }
        }
        assert forall|i: int, j: int| 0 <= i < j < items.len() implies items[i] != items[j] by {
            if i < a.len() {
                assert(items[i] == a[i]);
            } else if i < a.len() + b.len() {
                assert(items[i] == b[i - a.len()]);
            } else {
                assert(items[i] == c[i - a.len() - b.len()]);
            }
            if j < a.len() {
                assert(items[j] == a[j]);
            } else if j < a.len() + b.len() {
                assert(items[j] == b[j - a.len()]);
            } else {
                assert(items[j] == c[j - a.len() - b.len()]);
            }
        }
        if perms.show_rename {
            assert(items[0] == a[0]);
        }
        if perms.show_group_settings {
            assert(items[items.len() - 1] == c[0]);
        }
    }
}

/// A click on the chat's name in a group changes only which member list is
/// shown and, when it shows the list, closes the rename editor; member
/// management and settings stay as they were.
pub proof fn lemma_user_info_click_touches_only_list(s: TopbarSignals, id: Uuid)
    ensures
        after_user_info_click(s, false, id).show_manage_members == s.show_manage_members,
        after_user_info_click(s, false, id).show_group_settings == s.show_group_settings,
        group_list_shown(s, id) ==> after_user_info_click(s, false, id).show_group_users is None,
        group_list_shown(s, id) ==> after_user_info_click(s, false, id).show_rename_group == s.show_rename_group,
        !group_list_shown(s, id) ==> after_user_info_click(s, false, id).show_group_users == Some(id),
        !group_list_shown(s, id) ==> !after_user_info_click(s, false, id).show_rename_group,
{
}

/// Pressing a menu entry opens what it names and leaves the rest alone:
/// renaming opens the editor, member management opens it for this chat,
/// settings opens the settings, and closing the chat changes nothing in the
/// bar.
pub proof fn lemma_menu_press_meaning(s: TopbarSignals, item: TopbarMenuItem, id: Uuid)
    ensures
        ({
            let t = after_menu_press(s, item, id);
            &&& t.show_group_users == s.show_group_users
            &&& t.show_rename_group == (s.show_rename_group || item == TopbarMenuItem::Rename)
            &&& t.show_manage_members == (if item == TopbarMenuItem::ManageMembers {
                Some(id)
            } else {
                s.show_manage_members
            })
            &&& t.show_group_settings == (s.show_group_settings || item == TopbarMenuItem::GroupSettings)
        }),
{
}

} // verus!
