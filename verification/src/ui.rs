//! The interface state that keys change, and one step of it: a key is
//! routed (see `route`), and what the route does to the interface is
//! applied here. Work that needs the server or the other tabs' data is
//! handed back to the caller as an action.
use vstd::prelude::*;
use crate::composer::ComposerMode;
use crate::conversations::{handle_dms_keys, input_mode_after_edit, spec_dm_command, DmCommand};
use crate::dms::DMSelection;
use crate::keys::{KeyCode, KeyEvent};
use crate::route::{
    handle_key_event, handle_main_keys, handle_posts_keys, spec_main_command, spec_posts_command,
    spec_route, KeyContext, KeyRoute, MainCommand, PostsCommand,
};
use crate::state::{InputMode, Screen, Tab};
use crate::text::{chars_of, pop_char, push_char, trim, trim_chars};

verus! {

/// Where the interface is, and what decides how keys are read.
#[derive(Debug, Clone, Copy, PartialEq, Eq, Structural)]
pub struct Frame {
    /// The application keeps running.
    pub running: bool,
    pub screen: Screen,
    pub tab: Tab,
    pub input_mode: InputMode,
    /// The tab to switch to once the save confirmation is answered; `None`
    /// means exit.
    pub pending_tab: Option<Tab>,
    pub settings_unsaved: bool,
    /// Launched inside a repository, whose community decides the board.
    pub launched_in_repo: bool,
    /// A community's board is open.
    pub community_open: bool,
    /// The number of listed conversations.
    pub dm_conversations: usize,
}

/// Which overlays are shown.
#[derive(Debug, Clone, Copy, PartialEq, Eq, Structural)]
pub struct Overlays {
    pub show_help: bool,
    /// Another user's profile is shown over the app.
    pub profile_view_open: bool,
    /// The settings ask whether to save before leaving.
    pub show_save_confirmation: bool,
    pub show_community_modal: bool,
    pub notifications_open: bool,
    pub filter_modal_open: bool,
    pub filter_add_input_open: bool,
    pub new_conversation_modal_open: bool,
    pub dm_error_shown: bool,
    pub friends_modal_open: bool,
    pub user_search_open: bool,
    pub hashtags_modal_open: bool,
    pub viewing_post_detail: bool,
    pub detail_delete_confirmation: bool,
    pub detail_full_post_modal: bool,
    pub show_edit_bio_modal: bool,
    pub new_post_modal: bool,
}

/// What the keys see of the interface.
pub struct UiState {
    pub frame: Frame,
    pub overlays: Overlays,
    /// What the composer writes, when it is open.
    pub composer_mode: Option<ComposerMode>,
    pub composer_text: String,
    pub new_conversation_username: String,
    pub dm_selection: DMSelection,
    /// The text of the DM message box.
    pub dm_text: String,
}

/// What the caller still has to do after a key.
#[derive(Debug, Clone, Copy, PartialEq, Eq, Structural)]
pub enum UiAction {
    /// The key's work is done.
    Done,
    /// The key goes to the handler this route names; nothing changed yet.
    Route(KeyRoute),
    /// A main-screen command for another tab, or a tab switch.
    Main(MainCommand),
    /// A command of the posts tab (not the composer or the community modal).
    Posts(PostsCommand),
    /// A command of the DM tab. After `StartTyping` the box already holds
    /// the key; the caller loads the conversation's messages if none are
    /// shown.
    Dms(DmCommand),
    /// The board was closed: its posts and chat are to be cleared.
    CommunityClosed,
}

/// The routing context of an interface state.
pub open spec fn ui_context(s: UiState) -> KeyContext {
    KeyContext {
        show_help: s.overlays.show_help,
        profile_view_open: s.overlays.profile_view_open,
        show_save_confirmation: s.overlays.show_save_confirmation,
        show_community_modal: s.overlays.show_community_modal,
        notifications_open: s.overlays.notifications_open,
        filter_modal_open: s.overlays.filter_modal_open,
        filter_add_input_open: s.overlays.filter_add_input_open,
        composer_open: s.composer_mode is Some,
        new_conversation_modal_open: s.overlays.new_conversation_modal_open,
        dm_error_shown: s.overlays.dm_error_shown,
        friends_modal_open: s.overlays.friends_modal_open,
        user_search_open: s.overlays.user_search_open,
        hashtags_modal_open: s.overlays.hashtags_modal_open,
        viewing_post_detail: s.overlays.viewing_post_detail,
        detail_delete_confirmation: s.overlays.detail_delete_confirmation,
        detail_full_post_modal: s.overlays.detail_full_post_modal,
        input_mode: s.frame.input_mode,
        screen: s.frame.screen,
        tab: s.frame.tab,
        settings_unsaved: s.frame.settings_unsaved,
        home_board_open: !s.frame.launched_in_repo && s.frame.community_open,
    }
}

/// Launched outside a repository with no board open: the posts tab shows
/// the joined communities.
pub open spec fn home_list(s: UiState) -> bool {
    !s.frame.launched_in_repo && !s.frame.community_open
}

/// The message box after key `k`: a character is added, Backspace takes
/// the last one off, other keys leave it.
pub open spec fn edited(t: Seq<char>, k: KeyCode) -> Seq<char> {
    match k {
        KeyCode::Char(c) => t.push(c),
        KeyCode::Backspace => if t.len() > 0 {
            t.drop_last()
        } else {
            t
        },
        _ => t,
    }
}

/// `s0` with input mode `m`.
pub open spec fn with_mode(s0: UiState, m: InputMode) -> Frame {
    Frame { input_mode: m, ..s0.frame }
}

/// `s1` is `s0` with the DM box edited by `k` and input mode `m`.
#[verifier::opaque]
pub open spec fn dm_typed(s0: UiState, k: KeyCode, m: InputMode, s1: UiState) -> bool {
    &&& s1.dm_text@ == edited(s0.dm_text@, k)
    &&& s1 == (UiState { dm_text: s1.dm_text, frame: with_mode(s0, m), ..s0 })
}

/// `s1` is `s0` with the DM box emptied and typing stopped.
#[verifier::opaque]
pub open spec fn dm_cleared(s0: UiState, s1: UiState) -> bool {
    &&& s1.dm_text@.len() == 0
    &&& s1 == (UiState { dm_text: s1.dm_text, frame: with_mode(s0, InputMode::Navigation), ..s0 })
}

/// What a key that reaches the main screen's handlers does: Tab and
/// BackTab and the other tabs' keys go to the caller; on the posts tab `n`
/// opens an empty new-post composer and `i` the community modal; on the
/// DM tab keys type into the message box, Esc empties it and stops typing.
pub open spec fn main_step(s0: UiState, k: KeyCode, s1: UiState, a: UiAction) -> bool {
    match spec_main_command(k, s0.frame.tab) {
        MainCommand::Tab(Tab::Posts) => posts_step(
            s0,
            spec_posts_command(k, s0.overlays.new_post_modal, home_list(s0), s0.frame.community_open),
            s1,
            a,
        ),
        MainCommand::Tab(Tab::DMs) => dms_step(
            s0,
            k,
            spec_dm_command(k, s0.frame.input_mode, s0.dm_selection, s0.frame.dm_conversations as int),
            s1,
            a,
        ),
        m => a == UiAction::Main(m) && s1 == s0,
    }
}

/// What posts-tab command `p` does: `OpenComposer` opens an empty
/// new-post composer for typing, `ShowCommunityModal` shows the modal,
/// anything else goes to the caller.
pub open spec fn posts_step(s0: UiState, p: PostsCommand, s1: UiState, a: UiAction) -> bool {
    match p {
        PostsCommand::OpenComposer => {
            &&& a == UiAction::Done
            &&& s1.composer_text@.len() == 0
            &&& s1 == (UiState {
                composer_mode: Some(ComposerMode::NewPost),
                composer_text: s1.composer_text,
                frame: with_mode(s0, InputMode::Typing),
                ..s0
            })
        },
        PostsCommand::ShowCommunityModal => a == UiAction::Done && s1 == (UiState {
            overlays: Overlays { show_community_modal: true, ..s0.overlays },
            ..s0
        }),
        _ => a == UiAction::Posts(p) && s1 == s0,
    }
}

/// What DM-tab command `d` of key `k` does: starting to type puts the key
/// into the box; editing edits it, and a Backspace that leaves it blank
/// stops typing; Esc empties it and stops typing; the rest goes to the
/// caller.
pub open spec fn dms_step(s0: UiState, k: KeyCode, d: DmCommand, s1: UiState, a: UiAction) -> bool {
    match d {
        DmCommand::StartTyping => a == UiAction::Dms(DmCommand::StartTyping) && dm_typed(
            s0,
            k,
            InputMode::Typing,
            s1,
        ),
        DmCommand::EditDraft => a == UiAction::Done && dm_typed(
            s0,
            k,
            if trim(edited(s0.dm_text@, k)).len() == 0 && k == KeyCode::Backspace {
                InputMode::Navigation
            } else {
                InputMode::Typing
            },
            s1,
        ),
        DmCommand::ClearDraft => a == UiAction::Done && dm_cleared(s0, s1),
        _ => a == UiAction::Dms(d) && s1 == s0,
    }
}

/// One key in interface state `s0` leads to `s1` and leaves action `a`:
/// quitting stops the application; help opens and closes; Esc in the save
/// confirmation cancels it; leaving with unsaved settings asks first;
/// closing the community modal, the composer or the new-conversation
/// modal closes it and empties its text; Esc on a board opened from the
/// home list closes the board; the main screen's keys as `main_step` says.
/// Every other route goes to the caller unchanged.
pub open spec fn ui_step(s0: UiState, e: KeyEvent, s1: UiState, a: UiAction) -> bool {
    route_effect(s0, spec_route(e, ui_context(s0)), e.code, s1, a)
}

/// What route `r` of key `k` does to interface state `s0` (see `ui_step`).
pub open spec fn route_effect(s0: UiState, r: KeyRoute, k: KeyCode, s1: UiState, a: UiAction) -> bool {
    match r {
        KeyRoute::Quit => a == UiAction::Done && stopped(s0, s1),
        KeyRoute::ToggleHelp => a == UiAction::Done && help_toggled(s0, s1),
        KeyRoute::CancelTabSwitch => a == UiAction::Done && save_confirmation_set(s0, false, s1),
        KeyRoute::ConfirmExit => a == UiAction::Done && save_confirmation_set(s0, true, s1),
        KeyRoute::CloseCommunityModal => a == UiAction::Done && community_modal_closed(s0, s1),
        KeyRoute::CloseComposer => a == UiAction::Done && composer_closed(s0, s1),
        KeyRoute::CloseNewConversation => a == UiAction::Done && new_conversation_closed(s0, s1),
        KeyRoute::CloseCommunity => a == UiAction::CommunityClosed && board_closed(s0, s1),
        KeyRoute::MainKeys => main_step(s0, k, s1, a),
        _ => a == UiAction::Route(r) && s1 == s0,
    }
}

/// The application stops.
#[verifier::opaque]
pub open spec fn stopped(s0: UiState, s1: UiState) -> bool {
    s1 == (UiState { frame: Frame { running: false, ..s0.frame }, ..s0 })
}

/// The help overlay opens or closes.
#[verifier::opaque]
pub open spec fn help_toggled(s0: UiState, s1: UiState) -> bool {
    s1 == (UiState { overlays: Overlays { show_help: !s0.overlays.show_help, ..s0.overlays }, ..s0 })
}

/// The save confirmation is shown (`shown`) or cancelled, with no tab to
/// switch to afterwards.
#[verifier::opaque]
pub open spec fn save_confirmation_set(s0: UiState, shown: bool, s1: UiState) -> bool {
    s1 == (UiState {
        overlays: Overlays { show_save_confirmation: shown, ..s0.overlays },
        frame: Frame { pending_tab: None, ..s0.frame },
        ..s0
    })
}

/// The community modal closes.
#[verifier::opaque]
pub open spec fn community_modal_closed(s0: UiState, s1: UiState) -> bool {
    s1 == (UiState { overlays: Overlays { show_community_modal: false, ..s0.overlays }, ..s0 })
}

/// The composer closes with its text emptied, and typing stops.
#[verifier::opaque]
pub open spec fn composer_closed(s0: UiState, s1: UiState) -> bool {
    &&& s1.composer_text@.len() == 0
    &&& s1 == (UiState {
        composer_mode: None,
        composer_text: s1.composer_text,
        frame: with_mode(s0, InputMode::Navigation),
        ..s0
    })
}

/// The new-conversation modal closes with its name emptied, and typing
/// stops.
#[verifier::opaque]
pub open spec fn new_conversation_closed(s0: UiState, s1: UiState) -> bool {
    &&& s1.new_conversation_username@.len() == 0
    &&& s1 == (UiState {
        overlays: Overlays { new_conversation_modal_open: false, ..s0.overlays },
        new_conversation_username: s1.new_conversation_username,
        frame: with_mode(s0, InputMode::Navigation),
        ..s0
    })
}

/// The board closes (and with it the community modal).
#[verifier::opaque]
pub open spec fn board_closed(s0: UiState, s1: UiState) -> bool {
    s1 == (UiState {
        frame: Frame { community_open: false, ..s0.frame },
        overlays: Overlays { show_community_modal: false, ..s0.overlays },
        ..s0
    })
}

/// An equal copy of a DM selection.
fn copy_selection(s: &DMSelection) -> (r: DMSelection)
    ensures
        r == *s,
{
    match s {
        DMSelection::NewConversation => DMSelection::NewConversation,
        DMSelection::PendingDraft => DMSelection::PendingDraft,
        DMSelection::Request(i) => DMSelection::Request(*i),
        DMSelection::Conversation(i) => DMSelection::Conversation(*i),
    }
}

/// Edit `t` with key `k` as the message box does.
fn edit_text(t: &mut String, k: KeyCode)
    ensures
        final(t)@ == edited(old(t)@, k),
{
    match k {
        KeyCode::Char(c) => push_char(t, c),
        KeyCode::Backspace => pop_char(t),
        _ => {},
    }
}

/// Every overlay closed.
pub open spec fn no_overlays() -> Overlays {
    Overlays {
        show_help: false,
        profile_view_open: false,
        show_save_confirmation: false,
        show_community_modal: false,
        notifications_open: false,
        filter_modal_open: false,
        filter_add_input_open: false,
        new_conversation_modal_open: false,
        dm_error_shown: false,
        friends_modal_open: false,
        user_search_open: false,
        hashtags_modal_open: false,
        viewing_post_detail: false,
        detail_delete_confirmation: false,
        detail_full_post_modal: false,
        show_edit_bio_modal: false,
        new_post_modal: false,
    }
}

impl Overlays {
    /// Every overlay closed.
    pub fn none() -> (o: Overlays)
        ensures
            o == no_overlays(),
    {
        Overlays {
            show_help: false,
            profile_view_open: false,
            show_save_confirmation: false,
            show_community_modal: false,
            notifications_open: false,
            filter_modal_open: false,
            filter_add_input_open: false,
            new_conversation_modal_open: false,
            dm_error_shown: false,
            friends_modal_open: false,
            user_search_open: false,
            hashtags_modal_open: false,
            viewing_post_detail: false,
            detail_delete_confirmation: false,
            detail_full_post_modal: false,
            show_edit_bio_modal: false,
            new_post_modal: false,
        }
    }
}

impl UiState {
    /// The routing context of this state.
    /// The interface at start: running on the sign-in screen, posts tab,
    /// browsing, no overlay, no board open, nothing typed; launched inside
    /// a repository or not.
    pub fn new(launched_in_repo: bool) -> (s: UiState)
        ensures
            s.frame == (Frame {
                running: true,
                screen: Screen::Auth,
                tab: Tab::Posts,
                input_mode: InputMode::Navigation,
                pending_tab: None,
                settings_unsaved: false,
                launched_in_repo: launched_in_repo,
                community_open: false,
                dm_conversations: 0,
            }),
            s.overlays == no_overlays(),
            s.composer_mode is None,
            s.composer_text@.len() == 0,
            s.new_conversation_username@.len() == 0,
            s.dm_selection == DMSelection::NewConversation,
            s.dm_text@.len() == 0,
    {
        UiState {
            frame: Frame {
                running: true,
                screen: Screen::Auth,
                tab: Tab::Posts,
                input_mode: InputMode::Navigation,
                pending_tab: None,
                settings_unsaved: false,
                launched_in_repo,
                community_open: false,
                dm_conversations: 0,
            },
            overlays: Overlays::none(),
            composer_mode: None,
            composer_text: String::new(),
            new_conversation_username: String::new(),
            dm_selection: DMSelection::NewConversation,
            dm_text: String::new(),
        }
    }

    pub fn context(&self) -> (c: KeyContext)
        ensures
            c == ui_context(*self),
    {
        let composer_open = match &self.composer_mode {
            Some(_) => true,
            None => false,
        };
        let o = self.overlays;
        let f = self.frame;
        KeyContext {
            show_help: o.show_help,
            profile_view_open: o.profile_view_open,
            show_save_confirmation: o.show_save_confirmation,
            show_community_modal: o.show_community_modal,
            notifications_open: o.notifications_open,
            filter_modal_open: o.filter_modal_open,
            filter_add_input_open: o.filter_add_input_open,
            composer_open,
            new_conversation_modal_open: o.new_conversation_modal_open,
            dm_error_shown: o.dm_error_shown,
            friends_modal_open: o.friends_modal_open,
            user_search_open: o.user_search_open,
            hashtags_modal_open: o.hashtags_modal_open,
            viewing_post_detail: o.viewing_post_detail,
            detail_delete_confirmation: o.detail_delete_confirmation,
            detail_full_post_modal: o.detail_full_post_modal,
            input_mode: f.input_mode,
            screen: f.screen,
            tab: f.tab,
            settings_unsaved: f.settings_unsaved,
            home_board_open: !f.launched_in_repo && f.community_open,
        }
    }

    /// A posts-tab command (see `posts_step`).
    fn posts_keys(&mut self, p: PostsCommand) -> (a: UiAction)
        ensures
            posts_step(*old(self), p, *final(self), a),
    {
        match p {
            PostsCommand::OpenComposer => {
                self.composer_mode = Some(ComposerMode::NewPost);
                self.composer_text = String::new();
                self.frame.input_mode = InputMode::Typing;
                UiAction::Done
            },
            PostsCommand::ShowCommunityModal => {
                self.overlays.show_community_modal = true;
                UiAction::Done
            },
            _ => UiAction::Posts(p),
        }
    }

    fn type_into_dm(&mut self, k: KeyCode)
        ensures
            dm_typed(*old(self), k, InputMode::Typing, *final(self)),
    {
        self.frame.input_mode = InputMode::Typing;
        edit_text(&mut self.dm_text, k);
        proof {
            reveal(dm_typed);
        }
    }

    fn edit_dm(&mut self, k: KeyCode)
        ensures
            dm_typed(
                *old(self),
                k,
                if trim(edited(old(self).dm_text@, k)).len() == 0 && k == KeyCode::Backspace {
                    InputMode::Navigation
                } else {
                    InputMode::Typing
                },
                *final(self),
            ),
    {
        edit_text(&mut self.dm_text, k);
        let cs = chars_of(self.dm_text.as_str());
        let t = trim_chars(cs.as_slice());
        self.frame.input_mode = input_mode_after_edit(k, t.len() == 0);
        proof {
            reveal(dm_typed);
        }
    }

    fn clear_dm(&mut self)
        ensures
            dm_cleared(*old(self), *final(self)),
    {
        self.dm_text = String::new();
        self.frame.input_mode = InputMode::Navigation;
        proof {
            reveal(dm_cleared);
        }
    }

    /// A DM-tab command of key `k` (see `dms_step`).
    fn dms_keys(&mut self, k: KeyCode, d: DmCommand) -> (a: UiAction)
        ensures
            dms_step(*old(self), k, d, *final(self), a),
    {
        match d {
            DmCommand::StartTyping => {
                self.type_into_dm(k);
                UiAction::Dms(DmCommand::StartTyping)
            },
            DmCommand::EditDraft => {
                self.edit_dm(k);
                UiAction::Done
            },
            DmCommand::ClearDraft => {
                self.clear_dm();
                UiAction::Done
            },
            _ => UiAction::Dms(d),
        }
    }

    /// A key that reaches the main screen's handlers (see `main_step`).
    pub fn main_keys(&mut self, k: KeyCode) -> (a: UiAction)
        ensures
            main_step(*old(self), k, *final(self), a),
    {
        match handle_main_keys(k, self.frame.tab) {
            MainCommand::Tab(Tab::Posts) => {
                let home = !self.frame.launched_in_repo && !self.frame.community_open;
                let p = handle_posts_keys(
                    k,
                    self.overlays.new_post_modal,
                    home,
                    self.frame.community_open,
                );
                self.posts_keys(p)
            },
            MainCommand::Tab(Tab::DMs) => {
                let sel = copy_selection(&self.dm_selection);
                let d = handle_dms_keys(k, self.frame.input_mode, sel, self.frame.dm_conversations);
                self.dms_keys(k, d)
            },
            m => UiAction::Main(m),
        }
    }

    fn stop(&mut self)
        ensures
            stopped(*old(self), *final(self)),
    {
        self.frame.running = false;
        proof {
            reveal(stopped);
        }
    }

    fn toggle_help(&mut self)
        ensures
            help_toggled(*old(self), *final(self)),
    {
        self.overlays.show_help = !self.overlays.show_help;
        proof {
            reveal(help_toggled);
        }
    }

    fn set_save_confirmation(&mut self, shown: bool)
        ensures
            save_confirmation_set(*old(self), shown, *final(self)),
    {
        self.overlays = Overlays { show_save_confirmation: shown, ..self.overlays };
        self.frame = Frame { pending_tab: None, ..self.frame };
        proof {
            reveal(save_confirmation_set);
        }
    }

    fn close_community_modal(&mut self)
        ensures
            community_modal_closed(*old(self), *final(self)),
    {
        self.overlays.show_community_modal = false;
        proof {
            reveal(community_modal_closed);
        }
    }

    fn close_composer(&mut self)
        ensures
            composer_closed(*old(self), *final(self)),
    {
        self.composer_mode = None;
        self.composer_text = String::new();
        self.frame.input_mode = InputMode::Navigation;
        proof {
            reveal(composer_closed);
        }
    }

    fn close_new_conversation(&mut self)
        ensures
            new_conversation_closed(*old(self), *final(self)),
    {
        self.overlays = Overlays { new_conversation_modal_open: false, ..self.overlays };
        self.new_conversation_username = String::new();
        self.frame = Frame { input_mode: InputMode::Navigation, ..self.frame };
        proof {
            reveal(new_conversation_closed);
        }
    }

    fn close_board(&mut self)
        ensures
            board_closed(*old(self), *final(self)),
    {
        self.frame.community_open = false;
        self.overlays.show_community_modal = false;
        proof {
            reveal(board_closed);
        }
    }

    /// Apply route `r` of key `k` (see `route_effect`).
    fn apply_route(&mut self, r: KeyRoute, k: KeyCode) -> (a: UiAction)
        ensures
            route_effect(*old(self), r, k, *final(self), a),
    {
        match r {
            KeyRoute::Quit => {
                self.stop();
                UiAction::Done
            },
            KeyRoute::ToggleHelp => {
                self.toggle_help();
                UiAction::Done
            },
            KeyRoute::CancelTabSwitch => {
                self.set_save_confirmation(false);
                UiAction::Done
            },
            KeyRoute::ConfirmExit => {
                self.set_save_confirmation(true);
                UiAction::Done
            },
            KeyRoute::CloseCommunityModal => {
                self.close_community_modal();
                UiAction::Done
            },
            KeyRoute::CloseComposer => {
                self.close_composer();
                UiAction::Done
            },
            KeyRoute::CloseNewConversation => {
                self.close_new_conversation();
                UiAction::Done
            },
            KeyRoute::CloseCommunity => {
                self.close_board();
                UiAction::CommunityClosed
            },
            KeyRoute::MainKeys => self.main_keys(k),
            _ => UiAction::Route(r),
        }
    }

    /// Take key `key`: route it and apply what the route does to the
    /// interface (see `ui_step`).
    pub fn step(&mut self, key: KeyEvent) -> (a: UiAction)
        ensures
            ui_step(*old(self), key, *final(self), a),
    {
        let c = self.context();
        let r = handle_key_event(key, &c);
        self.apply_route(r, key.code)
    }
}

/// The switch to `new_tab` waits for the save confirmation, shown now.
#[verifier::opaque]
pub open spec fn tab_switch_asked(s0: UiState, new_tab: Tab, s1: UiState) -> bool {
    s1 == (UiState {
        overlays: Overlays { show_save_confirmation: true, ..s0.overlays },
        frame: Frame { pending_tab: Some(new_tab), ..s0.frame },
        ..s0
    })
}

/// The interface shows `new_tab`.
#[verifier::opaque]
pub open spec fn tab_switched(s0: UiState, new_tab: Tab, s1: UiState) -> bool {
    s1 == (UiState { frame: Frame { tab: new_tab, ..s0.frame }, ..s0 })
}

impl UiState {
    fn ask_tab_switch(&mut self, new_tab: Tab)
        ensures
            tab_switch_asked(*old(self), new_tab, *final(self)),
    {
        self.overlays = Overlays { show_save_confirmation: true, ..self.overlays };
        self.frame = Frame { pending_tab: Some(new_tab), ..self.frame };
        proof {
            reveal(tab_switch_asked);
        }
    }

    fn show_tab(&mut self, new_tab: Tab)
        ensures
            tab_switched(*old(self), new_tab, *final(self)),
    {
        self.frame = Frame { tab: new_tab, ..self.frame };
        proof {
            reveal(tab_switched);
        }
    }

    /// Switch to `new_tab`: leaving the settings tab with unsaved changes
    /// asks first and remembers where to go; otherwise the tab shows at
    /// once.
    pub fn request_tab_switch(&mut self, new_tab: Tab)
        ensures
            old(self).frame.tab == Tab::Settings && old(self).frame.settings_unsaved ==> tab_switch_asked(
                *old(self),
                new_tab,
                *final(self),
            ),
            !(old(self).frame.tab == Tab::Settings && old(self).frame.settings_unsaved) ==> tab_switched(
                *old(self),
                new_tab,
                *final(self),
            ),
    {
        let on_settings = match self.frame.tab {
            Tab::Settings => true,
            _ => false,
        };
        if on_settings && self.frame.settings_unsaved {
            self.ask_tab_switch(new_tab);
        } else {
            self.show_tab(new_tab);
        }
    }
}

/// Nothing is shown over the main view: no overlay and no composer.
pub open spec fn bare(s: UiState) -> bool {
    s.overlays == no_overlays() && s.composer_mode is None
}

/// With help shown, Esc or `?` closes it and changes nothing else; the
/// application keeps running.
pub proof fn lemma_help_closes_first(s0: UiState, e: KeyEvent, s1: UiState, a: UiAction)
    requires
        e.is_press,
        e.code == KeyCode::Esc || e.code == KeyCode::Char('?'),
        s0.overlays.show_help,
        ui_step(s0, e, s1, a),
    ensures
        a == UiAction::Done,
        s1 == (UiState { overlays: Overlays { show_help: false, ..s0.overlays }, ..s0 }),
        s1.frame.running == s0.frame.running,
{
    reveal(help_toggled);
}

/// Leaving the settings tab with unsaved changes (`q` or Esc) shows the
/// save confirmation, with no tab to go to, and does not stop the
/// application.
pub proof fn lemma_leaving_unsaved_settings_asks(s0: UiState, e: KeyEvent, s1: UiState, a: UiAction)
    requires
        e.is_press,
        e.code == KeyCode::Esc || e.code == KeyCode::Char('q'),
        bare(s0),
        s0.frame.input_mode == InputMode::Navigation,
        s0.frame.screen == Screen::Main,
        s0.frame.tab == Tab::Settings,
        s0.frame.settings_unsaved,
        ui_step(s0, e, s1, a),
    ensures
        s1.overlays.show_save_confirmation,
        s1.frame.pending_tab is None,
        s1.frame.running == s0.frame.running,
{
    reveal(save_confirmation_set);
}

/// Outside the settings' unsaved changes and away from a board opened
/// from the home list, `q` or Esc with nothing shown stops the
/// application.
pub proof fn lemma_bare_escape_quits(s0: UiState, e: KeyEvent, s1: UiState, a: UiAction)
    requires
        e.is_press,
        e.code == KeyCode::Esc || e.code == KeyCode::Char('q'),
        bare(s0),
        s0.frame.input_mode == InputMode::Navigation,
        !(s0.frame.screen == Screen::Main && s0.frame.tab == Tab::Settings && s0.frame.settings_unsaved),
        !(e.code == KeyCode::Esc && s0.frame.screen == Screen::Main && s0.frame.tab == Tab::Posts
            && !s0.frame.launched_in_repo && s0.frame.community_open),
        ui_step(s0, e, s1, a),
    ensures
        !s1.frame.running,
{
    reveal(stopped);
}

/// Esc on the posts tab of a board opened from the home list closes the
/// board without stopping the application; the caller clears what the
/// board showed.
pub proof fn lemma_escape_leaves_home_board(s0: UiState, e: KeyEvent, s1: UiState, a: UiAction)
    requires
        e.is_press,
        e.code == KeyCode::Esc,
        bare(s0),
        s0.frame.input_mode == InputMode::Navigation,
        s0.frame.screen == Screen::Main,
        s0.frame.tab == Tab::Posts,
        !s0.frame.launched_in_repo,
        s0.frame.community_open,
        ui_step(s0, e, s1, a),
    ensures
        a == UiAction::CommunityClosed,
        !s1.frame.community_open,
        s1.frame.running == s0.frame.running,
{
    reveal(board_closed);
}

} // verus!
