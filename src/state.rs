use vstd::prelude::*;

use crossterm::event::KeyCode;

use crate::input::Input;
use crate::models::{is_id, Chat, Message, Role, ID_LENGTH};
use crate::stateful_list::{next_index, prev_index, select_index, StatefulList};
use crate::text::{spaces_trimmed, trim_spaces};

verus! {

/// crossterm's `KeyCode`: a key that no rule handles, carried through unread.
#[verifier::external_type_specification]
#[verifier::external_body]
pub struct ExKeyCode(KeyCode);

/// The dialog shown over the panels.
#[derive(Clone, Copy, Debug, PartialEq, Eq, Structural)]
pub enum Modal {
    NewChat,
    RenameChat,
}

/// A panel that keyboard input can be routed to.
#[derive(Clone, Copy, Debug, PartialEq, Eq, Structural)]
pub enum Section {
    Chats,
    Messages,
    Input,
    Modal,
}

/// An input event, in the terms of the panels rather than of the keyboard.
pub enum Action {
    Up,
    Down,
    Left,
    Right,
    Enter,
    Esc,
    Char(char),
    Key(KeyCode),
    Backspace,
}

/// A conversation to hand to the completion service, and the chat its
/// reply belongs to.
pub struct Submission {
    pub chat_idx: usize,
    pub history: Vec<Message>,
}

/// A failure reported by the completion service.
#[derive(Clone, Debug)]
pub struct GatewayError {
    pub message: String,
}

/// How a panel is drawn: focused, hovered, or neither.
#[derive(Clone, Copy, Debug, PartialEq, Eq, Structural)]
pub enum SectionStatus {
    Hovered,
    Focused,
    Normal,
}

/// The whole interaction state of the client.
pub struct App {
    pub loading: bool,
    pub active_chat_idx: Option<usize>,
    pub chats: StatefulList<Chat>,
    pub input: Input,
    pub modal_input: Input,
    pub section: Section,
    pub focus: Option<Section>,
    pub modal: Option<Modal>,
}

impl App {
    /// Selections and the active chat point at items, the text fields are consistent, the modal
    /// and the modal focus come together, and a focused panel is also hovered.
    pub open spec fn wf(&self) -> bool {
        &&& self.chats.wf()
        &&& (self.active_chat_idx matches Some(i) ==> i < self.chats.items@.len())
        &&& forall|j: int| 0 <= j < self.chats.items@.len() ==> (#[trigger] self.chats.items@[j]).wf()
        &&& self.input.wf()
        &&& self.modal_input.wf()
        &&& (self.focus == Some(Section::Modal)) == (self.modal is Some)
        &&& self.modal is None ==> self.modal_input.text@.len() == 0
        &&& (self.focus matches Some(s) ==> self.section == s)
        &&& self.section == Section::Modal ==> self.focus == Some(Section::Modal)
    }

    /// The index of the active chat, when it points at a chat.
    pub open spec fn active(&self) -> Option<int> {
        match self.active_chat_idx {
            Some(i) => if i < self.chats.items@.len() { Some(i as int) } else { None },
            None => None,
        }
    }

    /// `self` with panel `s` hovered and focused.
    pub open spec fn focused_on(self, s: Section) -> App {
        App { focus: Some(s), section: s, ..self }
    }

    /// `self` with the chat selection `sel`.
    pub open spec fn with_chat_selection(self, sel: Option<usize>) -> App {
        App { chats: StatefulList { selected: sel, ..self.chats }, ..self }
    }

    /// The chat selection that `select_current_chat` makes: the active chat,
    /// else the first one.
    pub open spec fn current_chat_selection(self) -> Option<usize> {
        match self.active_chat_idx {
            Some(i) => select_index(self.chats.selected, self.chats.items@.len(), i),
            None => if self.chats.items@.len() == 0 { self.chats.selected } else { Some(0usize) },
        }
    }

    /// `self` with the modal `m` open and focused.
    pub open spec fn with_modal(self, m: Modal) -> App {
        App { modal: Some(m), ..self.focused_on(Section::Modal) }
    }

    /// `new` is `self` with the modal closed and its field emptied.
    pub open spec fn modal_closed(self, new: App) -> bool {
        &&& self.modal_input.emptied(new.modal_input)
        &&& new == App { modal: None, modal_input: new.modal_input, ..self }
    }

    /// `new` differs from `self` only in the messages of chat `i`.
    pub open spec fn only_messages_of(self, i: int, new: App) -> bool {
        &&& new == App { chats: StatefulList { items: new.chats.items, ..self.chats }, ..self }
        &&& new.chats.items@ == self.chats.items@.update(
            i,
            Chat { messages: new.chats.items@[i].messages, ..self.chats.items@[i] },
        )
    }

    /// `new` is `self` with a chat titled `title` appended, selected and
    /// focused, and the modal closed.
    pub open spec fn chat_created(self, title: Seq<char>, new: App) -> bool {
        let n = self.chats.items@.len();
        let c = new.chats.items@[n as int];
        &&& new.chats.items@.len() == n + 1
        &&& new.chats.items@.take(n as int) == self.chats.items@
        &&& c.title@ == title
        &&& c.messages.items@.len() == 0
        &&& c.messages.selected is None
        &&& is_id(c.id@, ID_LENGTH as nat)
        &&& new.chats.selected == Some(n as usize)
        &&& self.modal_input.emptied(new.modal_input)
        &&& new == (App {
            chats: new.chats,
            modal: None,
            modal_input: new.modal_input,
            ..self.focused_on(Section::Chats)
        })
    }

    /// `new` is `self` with the active chat, if any, titled `title`.
    pub open spec fn chat_renamed(self, title: String, new: App) -> bool {
        match self.active() {
            Some(i) => new == (App {
                chats: StatefulList { items: new.chats.items, ..self.chats },
                ..self
            }) && new.chats.items@ == self.chats.items@.update(
                i,
                Chat { title, ..self.chats.items@[i] },
            ),
            None => new == self,
        }
    }

    /// The active chat index once chat `removed`, if any, is gone: none when
    /// the active chat itself went, one lower when an earlier chat went.
    pub open spec fn active_after_removal(active: Option<usize>, removed: Option<usize>) -> Option<usize> {
        match (active, removed) {
            (Some(a), Some(i)) => if a == i {
                None
            } else if a > i {
                Some((a - 1) as usize)
            } else {
                Some(a)
            },
            _ => active,
        }
    }

    /// `new` is `self` without its selected chat, the active chat index still
    /// naming the same chat, or none when that chat was removed.
    pub open spec fn chat_deleted(self, new: App) -> bool {
        &&& self.chats.removed_selected(new.chats)
        &&& new == (App {
            chats: new.chats,
            active_chat_idx: App::active_after_removal(self.active_chat_idx, self.chats.selected),
            ..self
        })
    }

    /// `new` is `self` without the selected message of the active chat.
    pub open spec fn message_deleted(self, new: App) -> bool {
        match self.active() {
            Some(i) => self.only_messages_of(i, new) && self.chats.items@[i].messages.removed_selected(
                new.chats.items@[i].messages,
            ),
            None => new == self,
        }
    }

    /// Appends a chat titled `title`, selects it and returns focus to the chats.
    pub fn new_chat(&mut self, title: &str)
        requires
            old(self).wf(),
        ensures
            final(self).wf(),
            old(self).chat_created(title@, *final(self)),
    {
        self.chats.items.push(Chat::new(title));
        self.close_modal();
        self.section = Section::Chats;
        self.focus = Some(Section::Chats);
        self.chats.select_last();
        proof {
            let n = old(self).chats.items@.len();
            assert(self.chats.items@.take(n as int) =~= old(self).chats.items@);
            assert forall|j: int| 0 <= j < self.chats.items@.len() implies (
            #[trigger] self.chats.items@[j]).wf() by {
                if j < n {
                    assert(self.chats.items@[j] == old(self).chats.items@[j]);
                }
            }
        }
    }

    /// Gives the active chat, if any, the title `title`.
    pub fn rename_current_chat(&mut self, title: String)
        requires
            old(self).wf(),
        ensures
            final(self).wf(),
            old(self).chat_renamed(title, *final(self)),
    {
        if let Some(i) = self.active_chat_idx {
            if i < self.chats.items.len() {
                self.chats.items[i].title = title;
                proof {
                    assert forall|j: int| 0 <= j < self.chats.items@.len() implies (
                    #[trigger] self.chats.items@[j]).wf() by {
                        if j != i {
                            assert(self.chats.items@[j] == old(self).chats.items@[j]);
                        }
                    }
                    assert(self.chats.items@ =~= old(self).chats.items@.update(
                        i as int,
                        Chat { title, ..old(self).chats.items@[i as int] },
                    ));
                }
            }
        }
    }

    /// Removes the selected chat and selects the one before it; an emptied
    /// list is left without selection. The active chat index follows its chat.
    pub fn delete_current_chat(&mut self)
        requires
            old(self).wf(),
        ensures
            final(self).wf(),
            old(self).chat_deleted(*final(self)),
    {
        if let (Some(a), Some(i)) = (self.active_chat_idx, self.chats.selected) {
            if a == i {
                self.active_chat_idx = None;
            } else if a > i {
                self.active_chat_idx = Some(a - 1);
            }
        }
        let _ = self.chats.remove_selected();
        proof {
            if let Some(i) = old(self).chats.selected {
                assert forall|j: int| 0 <= j < self.chats.items@.len() implies (
                #[trigger] self.chats.items@[j]).wf() by {
                    if j < i {
                        assert(self.chats.items@[j] == old(self).chats.items@[j]);
                    } else {
                        assert(self.chats.items@[j] == old(self).chats.items@[j + 1]);
                    }
                }
            }
        }
    }

    /// Removes the selected message of the active chat and selects the one
    /// before it.
    pub fn delete_message(&mut self)
        requires
            old(self).wf(),
        ensures
            final(self).wf(),
            old(self).message_deleted(*final(self)),
    {
        if let Some(i) = self.active_chat_idx {
            if i < self.chats.items.len() {
                assert(self.chats.items@[i as int].wf());
                let _ = self.chats.items[i].messages.remove_selected();
                proof {
                    assert forall|j: int| 0 <= j < self.chats.items@.len() implies (
                    #[trigger] self.chats.items@[j]).wf() by {
                        if j != i {
                            assert(self.chats.items@[j] == old(self).chats.items@[j]);
                        }
                    }
                    assert(self.chats.items@ =~= old(self).chats.items@.update(
                        i as int,
                        Chat { messages: self.chats.items@[i as int].messages, ..old(self).chats.items@[i as int] },
                    ));
                }
            }
        }
    }

    /// `new` and `r` are what submitting the composer text of `self` gives:
    /// nothing but an emptied composer for an empty text; otherwise the
    /// trimmed text appended as a user message to the active chat, with a
    /// request for that chat's whole history while `loading` is set; without
    /// an active chat the text is dropped.
    pub open spec fn submitted(self, new: App, r: Option<Submission>) -> bool {
        &&& self.input.emptied(new.input)
        &&& if self.input.text@.len() == 0 {
            r is None && new == (App { input: new.input, ..self })
        } else {
            match self.active() {
                Some(i) => {
                    let old_msgs = self.chats.items@[i].messages;
                    let msgs = new.chats.items@[i].messages;
                    let m = msgs.items@.last();
                    &&& new == (App {
                        loading: true,
                        input: new.input,
                        chats: StatefulList { items: new.chats.items, ..self.chats },
                        ..self
                    })
                    &&& new.chats.items@ == self.chats.items@.update(
                        i,
                        Chat { messages: msgs, ..self.chats.items@[i] },
                    )
                    &&& msgs.selected == old_msgs.selected
                    &&& msgs.items@ == old_msgs.items@.push(m)
                    &&& m.role == Role::User
                    &&& m.content@ == spaces_trimmed(self.input.text@)
                    &&& is_id(m.id@, ID_LENGTH as nat)
                    &&& r matches Some(sub) && sub.chat_idx == i && sub.history@ == msgs.items@
                },
                None => r is None && new == (App { loading: false, input: new.input, ..self }),
            }
        }
    }

    /// `new` and `r` are what the outcome `reply` of a request for chat
    /// `chat_idx` makes of `self`: a reply is appended to that chat as an
    /// assistant message, a failure is handed back, and `loading` is cleared
    /// in every case.
    pub open spec fn completed(
        self,
        chat_idx: usize,
        reply: Result<Option<String>, GatewayError>,
        new: App,
        r: Result<(), GatewayError>,
    ) -> bool {
        &&& r == match reply {
            Ok(_) => Ok(()),
            Err(e) => Err::<(), GatewayError>(e),
        }
        &&& match reply {
            Ok(Some(content)) if chat_idx < self.chats.items@.len() => {
                let i = chat_idx as int;
                let old_msgs = self.chats.items@[i].messages;
                let msgs = new.chats.items@[i].messages;
                let m = msgs.items@.last();
                &&& new == (App {
                    loading: false,
                    chats: StatefulList { items: new.chats.items, ..self.chats },
                    ..self
                })
                &&& new.chats.items@ == self.chats.items@.update(
                    i,
                    Chat { messages: msgs, ..self.chats.items@[i] },
                )
                &&& msgs.selected == old_msgs.selected
                &&& msgs.items@ == old_msgs.items@.push(m)
                &&& m.role == Role::Assistant
                &&& m.content@ == content@
                &&& is_id(m.id@, ID_LENGTH as nat)
            },
            _ => new == (App { loading: false, ..self }),
        }
    }

    /// Starts sending the composer text; see `submitted`. The request that is
    /// returned goes to the completion service, and its outcome to
    /// `complete_submission`.
    pub fn submit_message(&mut self) -> (r: Option<Submission>)
        requires
            old(self).wf(),
        ensures
            final(self).wf(),
            old(self).submitted(*final(self), r),
    {
        if self.input.is_empty() {
            self.input.clear();
            return None;
        }
        self.loading = true;
        let content = trim_spaces(self.input.text.as_str());
        let message = Message::new(Role::User, content.as_str());
        self.input.clear();
        let mut request: Option<Submission> = None;
        if let Some(i) = self.active_chat_idx {
            if i < self.chats.items.len() {
                assert(self.chats.items@[i as int].wf());
                self.chats.items[i].append_message(message);
                let history = self.history_of(i);
                request = Some(Submission { chat_idx: i, history });
                proof {
                    self.lemma_one_chat_changed(*old(self), i as int);
                }
            }
        }
        if request.is_none() {
            self.loading = false;
        }
        request
    }

    /// Ends a request for chat `chat_idx` with its outcome; see `completed`.
    pub fn complete_submission(
        &mut self,
        chat_idx: usize,
        reply: Result<Option<String>, GatewayError>,
    ) -> (r: Result<(), GatewayError>)
        requires
            old(self).wf(),
        ensures
            final(self).wf(),
            old(self).completed(chat_idx, reply, *final(self), r),
    {
        self.loading = false;
        match reply {
            Ok(Some(content)) => {
                if chat_idx < self.chats.items.len() {
                    assert(self.chats.items@[chat_idx as int].wf());
                    self.chats.items[chat_idx].append_message(Message::assistant(content.as_str()));
                    proof {
                        self.lemma_one_chat_changed(*old(self), chat_idx as int);
                    }
                }
                Ok(())
            },
            Ok(None) => Ok(()),
            Err(e) => Err(e),
        }
    }

    /// A copy of the messages of chat `i`.
    fn history_of(&self, i: usize) -> (r: Vec<Message>)
        requires
            i < self.chats.items@.len(),
        ensures
            r@ == self.chats.items@[i as int].messages.items@,
    {
        let items = &self.chats.items[i].messages.items;
        let mut out: Vec<Message> = Vec::new();
        let mut k: usize = 0;
        while k < items.len()
            invariant
                k <= items@.len(),
                out@ == items@.take(k as int),
            decreases items@.len() - k,
        {
            out.push(items[k].duplicate());
            k = k + 1;
            assert(out@ =~= items@.take(k as int));
        }
        assert(items@.take(items@.len() as int) =~= items@);
        out
    }

    /// Chat `i` of `self` is chat `i` of `prev` with new messages, and every
    /// other chat is unchanged.
    proof fn lemma_one_chat_changed(&self, prev: App, i: int)
        requires
            0 <= i < self.chats.items@.len(),
            self.chats.items@.len() == prev.chats.items@.len(),
            forall|j: int| 0 <= j < prev.chats.items@.len() ==> (#[trigger] prev.chats.items@[j]).wf(),
            self.chats.items@[i].wf(),
            self.chats.items@[i].id == prev.chats.items@[i].id,
            self.chats.items@[i].title == prev.chats.items@[i].title,
            forall|j: int| 0 <= j < self.chats.items@.len() && j != i
                ==> #[trigger] self.chats.items@[j] == prev.chats.items@[j],
        ensures
            forall|j: int| 0 <= j < self.chats.items@.len() ==> (#[trigger] self.chats.items@[j]).wf(),
            self.chats.items@ == prev.chats.items@.update(
                i,
                Chat { messages: self.chats.items@[i].messages, ..prev.chats.items@[i] },
            ),
    {
        assert forall|j: int| 0 <= j < self.chats.items@.len() implies (
        #[trigger] self.chats.items@[j]).wf() by {
            if j != i {
                assert(self.chats.items@[j] == prev.chats.items@[j]);
            }
        }
        assert(self.chats.items@ =~= prev.chats.items@.update(
            i,
            Chat { messages: self.chats.items@[i].messages, ..prev.chats.items@[i] },
        ));
    }

    /// The state after `action` when no panel is focused: the hovered panel
    /// moves, or a panel takes focus.
    pub open spec fn hover_step(self, action: Action) -> App {
        match self.section {
            Section::Chats => match action {
                Action::Enter => self.focused_on(Section::Chats).with_chat_selection(
                    self.current_chat_selection(),
                ),
                _ => self,
            },
            Section::Messages => match action {
                Action::Esc | Action::Left | Action::Right | Action::Char('c') => self.focused_on(
                    Section::Chats,
                ),
                Action::Enter => self.focused_on(Section::Messages),
                Action::Up | Action::Down => App { section: Section::Input, ..self },
                Action::Char('i') => self.focused_on(Section::Input),
                _ => self,
            },
            Section::Input => match action {
                Action::Esc | Action::Left | Action::Right | Action::Char('c') => self.focused_on(
                    Section::Chats,
                ),
                Action::Char('m') => self.focused_on(Section::Messages),
                Action::Enter => self.focused_on(Section::Input),
                Action::Up | Action::Down => App { section: Section::Messages, ..self },
                _ => self,
            },
            Section::Modal => self,
        }
    }

    /// `new` is the state after `action` while the modal is focused.
    pub open spec fn modal_step(self, action: Action, new: App) -> bool {
        match action {
            Action::Esc => self.focused_on(Section::Chats).with_chat_selection(
                self.current_chat_selection(),
            ).modal_closed(new),
            Action::Char(c) => self.modal_input.inserted(c, new.modal_input) && new == (App {
                modal_input: new.modal_input,
                ..self
            }),
            Action::Backspace => self.modal_input.deleted(new.modal_input) && new == (App {
                modal_input: new.modal_input,
                ..self
            }),
            Action::Left => self.modal_input.moved_left(new.modal_input) && new == (App {
                modal_input: new.modal_input,
                ..self
            }),
            Action::Right => self.modal_input.moved_right(new.modal_input) && new == (App {
                modal_input: new.modal_input,
                ..self
            }),
            Action::Enter => match self.modal {
                Some(Modal::NewChat) => self.chat_created(self.modal_input.text@, new),
                Some(Modal::RenameChat) => {
                    &&& self.chat_renamed(
                        self.modal_input.text,
                        App {
                            modal: self.modal,
                            modal_input: self.modal_input,
                            section: self.section,
                            focus: self.focus,
                            ..new
                        },
                    )
                    &&& new.modal is None
                    &&& self.modal_input.emptied(new.modal_input)
                    &&& new.section == Section::Chats
                    &&& new.focus == Some(Section::Chats)
                },
                None => new == self,
            },
            _ => new == self,
        }
    }

    /// `new` is the state after `action` while the chat list is focused.
    pub open spec fn chats_step(self, action: Action, new: App) -> bool {
        match action {
            Action::Up => new == self.with_chat_selection(
                prev_index(self.chats.selected, self.chats.items@.len()),
            ),
            Action::Down => new == self.with_chat_selection(
                next_index(self.chats.selected, self.chats.items@.len()),
            ),
            Action::Enter => match self.chats.selected {
                Some(i) => new == (App {
                    active_chat_idx: Some(i),
                    ..self.focused_on(Section::Input)
                }),
                None => new == self,
            },
            Action::Backspace => self.chat_deleted(new),
            Action::Char('n') => new == self.with_modal(Modal::NewChat),
            _ => new == self,
        }
    }

    /// `new` is the state after `action` while the message panel is focused;
    /// nothing happens without an active chat.
    pub open spec fn messages_step(self, action: Action, new: App) -> bool {
        match self.active() {
            None => new == self,
            Some(i) => {
                let msgs = self.chats.items@[i].messages;
                let len = msgs.items@.len();
                match action {
                    Action::Backspace => self.message_deleted(new),
                    Action::Up => self.only_messages_of(i, new) && new.chats.items@[i].messages == (
                    StatefulList { selected: prev_index(msgs.selected, len), ..msgs }),
                    Action::Down => self.only_messages_of(i, new) && new.chats.items@[i].messages == (
                    StatefulList { selected: next_index(msgs.selected, len), ..msgs }),
                    Action::Char('n') => new == self.with_modal(Modal::NewChat),
                    Action::Char('r') => {
                        &&& self.modal_input.holds_value(
                            self.chats.items@[i].title@,
                            new.modal_input,
                        )
                        &&& new == (App {
                            modal_input: new.modal_input,
                            ..self.with_modal(Modal::RenameChat)
                        })
                    },
                    Action::Esc => new == (App { focus: None, ..self }),
                    _ => new == self,
                }
            },
        }
    }

    /// `new` and `r` are the state and request after `action` while the
    /// composer is focused.
    pub open spec fn input_step(self, action: Action, new: App, r: Option<Submission>) -> bool {
        match action {
            Action::Enter => self.submitted(new, r),
            Action::Char(c) => r is None && self.input.inserted(c, new.input) && new == (App {
                input: new.input,
                ..self
            }),
            Action::Backspace => r is None && self.input.deleted(new.input) && new == (App {
                input: new.input,
                ..self
            }),
            Action::Left => r is None && self.input.moved_left(new.input) && new == (App {
                input: new.input,
                ..self
            }),
            Action::Right => r is None && self.input.moved_right(new.input) && new == (App {
                input: new.input,
                ..self
            }),
            Action::Esc => r is None && new == (App { focus: None, ..self }),
            _ => r is None && new == self,
        }
    }

    /// `new` and `r` are the state and request after `action`.
    pub open spec fn dispatched(self, action: Action, new: App, r: Option<Submission>) -> bool {
        match self.focus {
            None => r is None && new == self.hover_step(action),
            Some(Section::Modal) => r is None && self.modal_step(action, new),
            Some(Section::Chats) => r is None && self.chats_step(action, new),
            Some(Section::Messages) => r is None && self.messages_step(action, new),
            Some(Section::Input) => self.input_step(action, new, r),
        }
    }

    /// Applies one input event. A request is returned only when the composer
    /// text was submitted to an active chat; `loading` then stays set until
    /// `complete_submission` takes the service's answer.
    pub fn dispatch(&mut self, action: Action) -> (r: Option<Submission>)
        requires
            old(self).wf(),
        ensures
            final(self).wf(),
            old(self).dispatched(action, *final(self), r),
    {
        match self.focus {
            None => {
                self.hover(action);
                None
            },
            Some(Section::Modal) => {
                self.dispatch_modal(action);
                None
            },
            Some(Section::Chats) => {
                self.dispatch_chats(action);
                None
            },
            Some(Section::Messages) => {
                self.dispatch_messages(action);
                None
            },
            Some(Section::Input) => self.dispatch_input(action),
        }
    }

    fn hover(&mut self, action: Action)
        requires
            old(self).wf(),
            old(self).focus is None,
        ensures
            final(self).wf(),
            *final(self) == old(self).hover_step(action),
    {
        match self.section {
            Section::Chats => match action {
                Action::Enter => {
                    self.focus(Section::Chats);
                    self.select_current_chat();
                },
                _ => {},
            },
            Section::Messages => match action {
                Action::Esc | Action::Left | Action::Right | Action::Char('c') => self.focus(
                    Section::Chats,
                ),
                Action::Enter => self.focus(Section::Messages),
                Action::Up | Action::Down => self.section = Section::Input,
                Action::Char('i') => self.focus(Section::Input),
                _ => {},
            },
            Section::Input => match action {
                Action::Esc | Action::Left | Action::Right | Action::Char('c') => self.focus(
                    Section::Chats,
                ),
                Action::Char('m') => self.focus(Section::Messages),
                Action::Enter => self.focus(Section::Input),
                Action::Up | Action::Down => self.section = Section::Messages,
                _ => {},
            },
            Section::Modal => {},
        }
    }

    fn dispatch_modal(&mut self, action: Action)
        requires
            old(self).wf(),
            old(self).focus == Some(Section::Modal),
        ensures
            final(self).wf(),
            old(self).modal_step(action, *final(self)),
    {
        match action {
            Action::Esc => {
                self.close_modal();
                self.focus(Section::Chats);
                self.select_current_chat();
            },
            Action::Char(c) => self.modal_input.insert(c),
            Action::Backspace => self.modal_input.delete(),
            Action::Left => self.modal_input.left(),
            Action::Right => self.modal_input.right(),
            Action::Enter => match self.modal {
                Some(Modal::NewChat) => {
                    let title = self.modal_input.text.clone();
                    self.new_chat(title.as_str());
                },
                Some(Modal::RenameChat) => {
                    let title = self.modal_input.text.clone();
                    self.rename_current_chat(title);
                    self.close_modal();
                    self.focus(Section::Chats);
                },
                None => {},
            },
            _ => {},
        }
    }

    fn dispatch_chats(&mut self, action: Action)
        requires
            old(self).wf(),
            old(self).focus == Some(Section::Chats),
        ensures
            final(self).wf(),
            old(self).chats_step(action, *final(self)),
    {
        match action {
            Action::Up => self.chats.prev(),
            Action::Down => self.chats.next(),
            Action::Enter => {
                if let Some(i) = self.chats.selected {
                    self.active_chat_idx = Some(i);
                    self.focus(Section::Input);
                }
            },
            Action::Backspace => self.delete_current_chat(),
            Action::Char('n') => self.open_modal(Modal::NewChat, None),
            _ => {},
        }
    }

    fn dispatch_messages(&mut self, action: Action)
        requires
            old(self).wf(),
            old(self).focus == Some(Section::Messages),
        ensures
            final(self).wf(),
            old(self).messages_step(action, *final(self)),
    {
        let i = match self.active_chat_idx {
            Some(i) => i,
            None => return ,
        };
        if i >= self.chats.items.len() {
            return ;
        }
        assert(self.chats.items@[i as int].wf());
        match action {
            Action::Backspace => self.delete_message(),
            Action::Up => {
                self.chats.items[i].messages.prev();
                proof {
                    self.lemma_one_chat_changed(*old(self), i as int);
                }
            },
            Action::Down => {
                self.chats.items[i].messages.next();
                proof {
                    self.lemma_one_chat_changed(*old(self), i as int);
                }
            },
            Action::Char('n') => self.open_modal(Modal::NewChat, None),
            Action::Char('r') => {
                let title = self.chats.items[i].title.clone();
                self.open_modal(Modal::RenameChat, Some(title));
            },
            Action::Esc => self.blur(),
            _ => {},
        }
    }

    fn dispatch_input(&mut self, action: Action) -> (r: Option<Submission>)
        requires
            old(self).wf(),
            old(self).focus == Some(Section::Input),
        ensures
            final(self).wf(),
            old(self).input_step(action, *final(self), r),
    {
        match action {
            Action::Enter => self.submit_message(),
            Action::Char(c) => {
                self.input.insert(c);
                None
            },
            Action::Backspace => {
                self.input.delete();
                None
            },
            Action::Left => {
                self.input.left();
                None
            },
            Action::Right => {
                self.input.right();
                None
            },
            Action::Esc => {
                self.focus = None;
                None
            },
            _ => None,
        }
    }

    /// The focused panel shows as focused, else the hovered one as hovered.
    pub fn section_status(&self, section: Section) -> (r: SectionStatus)
        ensures
            r == (if self.focus == Some(section) {
                SectionStatus::Focused
            } else if self.section == section {
                SectionStatus::Hovered
            } else {
                SectionStatus::Normal
            }),
    {
        match self.focus {
            Some(selected) if selected == section => SectionStatus::Focused,
            _ => if self.section == section {
                SectionStatus::Hovered
            } else {
                SectionStatus::Normal
            },
        }
    }

    /// The active chat, for changes in place.
    pub fn get_active_chat_mut(&mut self) -> (r: Option<&mut Chat>)
        ensures
            match old(self).active() {
                None => r is None && *final(self) == *old(self),
                Some(i) => r matches Some(c) && *c == old(self).chats.items@[i]
                    && final(self).chats.items@ == old(self).chats.items@.update(i, *final(c))
                    && *final(self) == (App {
                    chats: StatefulList { items: final(self).chats.items, ..old(self).chats },
                    ..*old(self)
                }),
            },
    {
        match self.active_chat_idx {
            Some(index) => if index < self.chats.items.len() {
                Some(&mut self.chats.items[index])
            } else {
                None
            },
            None => None,
        }
    }

    pub fn is_focused(&self, s: Section) -> (r: bool)
        ensures
            r == (self.focus == Some(s)),
    {
        match self.focus {
            Some(f) => f == s,
            None => false,
        }
    }

    pub fn focus(&mut self, section: Section)
        ensures
            *final(self) == old(self).focused_on(section),
    {
        self.focus = Some(section);
        self.section = section;
    }

    /// Opens `modal`; the field takes `input_value` when one is given.
    pub fn open_modal(&mut self, modal: Modal, input_value: Option<String>)
        requires
            old(self).wf(),
        ensures
            final(self).wf(),
            match input_value {
                None => *final(self) == old(self).with_modal(modal),
                Some(v) => {
                    &&& old(self).modal_input.holds_value(v@, final(self).modal_input)
                    &&& *final(self) == (App { modal_input: final(self).modal_input, ..old(self).with_modal(modal) })
                },
            },
    {
        self.modal = Some(modal);
        self.focus = Some(Section::Modal);
        self.section = Section::Modal;
        if let Some(value) = input_value {
            self.modal_input.set_value(value);
        }
    }

    /// Closes the modal and empties its field; focus is left to the caller.
    pub fn close_modal(&mut self)
        requires
            old(self).modal_input.wf(),
        ensures
            final(self).modal_input.wf(),
            old(self).modal_closed(*final(self)),
    {
        self.modal = None;
        self.modal_input.clear();
    }

    /// Selects the active chat, or the first chat when none is active.
    pub fn select_current_chat(&mut self)
        requires
            old(self).wf(),
        ensures
            final(self).wf(),
            ({
                let a = *old(self);
                *final(self) == a.with_chat_selection(a.current_chat_selection())
            }),
    {
        if let Some(i) = self.active_chat_idx {
            self.chats.select(i);
        } else {
            self.chats.select_first();
        }
    }

    pub fn blur(&mut self)
        requires
            old(self).wf(),
            old(self).focus != Some(Section::Modal),
        ensures
            final(self).wf(),
            *final(self) == (App { focus: None, ..*old(self) }),
    {
        self.focus = None;
    }
}

impl Default for App {
    /// Two chats, "Demo" without messages and "Christmas" with a question and
    /// its answer; the chat list is hovered and focused.
    fn default() -> (r: App)
        ensures
            r.wf(),
            !r.loading,
            r.active_chat_idx is None,
            r.section == Section::Chats,
            r.focus == Some(Section::Chats),
            r.modal is None,
            r.input.text@.len() == 0,
            r.input.max_length == 250,
            r.modal_input.max_length == 250,
            r.chats.selected is None,
            r.chats.items@.len() == 2,
            r.chats.items@[0].title@ == "Demo"@,
            r.chats.items@[0].messages.items@.len() == 0,
            r.chats.items@[1].title@ == "Christmas"@,
            r.chats.items@[1].messages.items@.len() == 2,
            r.chats.items@[1].messages.items@[0].role == Role::User,
            r.chats.items@[1].messages.items@[0].content@ == "What is christmas?"@,
            r.chats.items@[1].messages.items@[1].role == Role::Assistant,
    {
        let christmas = Chat::with_messages(
            "Christmas",
            vec![
                Message::user("What is christmas?"),
                Message::assistant(
                    "Christmas is a religious holiday celebrating the birth of Jesus as well as a cultural and commercial event. Learn about the history of Christmas, Santa Claus, and holiday traditions worldwide.",
                ),
            ],
        );
        App {
            modal: None,
            loading: false,
            section: Section::Chats,
            focus: Some(Section::Chats),
            input: Input::default(),
            modal_input: Input::default(),
            active_chat_idx: None,
            chats: StatefulList::with_items(vec![Chat::new("Demo"), christmas]),
        }
    }
}

/// Submitting an empty composer text sends nothing and leaves every chat,
/// and the loading flag, as they were.
pub proof fn lemma_empty_submit_keeps_chats(a: App, new: App, r: Option<Submission>)
    requires
        a.wf(),
        a.input.text@.len() == 0,
        a.submitted(new, r),
    ensures
        r is None,
        new.chats == a.chats,
        new.loading == a.loading,
{
}

/// Submitting a non-empty text to the active chat appends exactly one user
/// message and sets `loading`; completing that request clears `loading`
/// whatever the outcome, and appends at most one assistant message.
pub proof fn lemma_submission_round(
    a: App,
    mid: App,
    r: Option<Submission>,
    reply: Result<Option<String>, GatewayError>,
    fin: App,
    r2: Result<(), GatewayError>,
)
    requires
        a.wf(),
        a.input.text@.len() > 0,
        a.active() is Some,
        a.submitted(mid, r),
        r is Some,
        mid.completed(r->0.chat_idx, reply, fin, r2),
    ensures
        ({
            let i = a.active()->0;
            let before = a.chats.items@[i].messages.items@;
            let sent = mid.chats.items@[i].messages.items@;
            let after = fin.chats.items@[i].messages.items@;
            &&& r->0.chat_idx == i
            &&& mid.loading
            &&& sent == before.push(sent.last())
            &&& sent.last().role == Role::User
            &&& !fin.loading
            &&& (after == sent || (after == sent.push(after.last()) && after.last().role
                == Role::Assistant))
            &&& (reply matches Ok(Some(_)) ==> after.len() == sent.len() + 1)
            &&& (reply is Err ==> after == sent && r2 is Err)
        }),
{
}

/// Deleting the only chat leaves an empty list without selection.
pub proof fn lemma_deleting_last_chat_unselects(a: App, new: App)
    requires
        a.wf(),
        a.chats.items@.len() == 1,
        a.chats.selected is Some,
        a.chat_deleted(new),
    ensures
        new.chats.items@.len() == 0,
        new.chats.selected is None,
        new.wf(),
{
}

/// Leaving a modal with Esc closes it and focuses the chat list with the
/// active chat selected again, or the first one when none is active.
pub proof fn lemma_modal_escape_restores_chats(a: App, new: App, r: Option<Submission>)
    requires
        a.wf(),
        a.focus == Some(Section::Modal),
        a.dispatched(Action::Esc, new, r),
    ensures
        r is None,
        new.modal is None,
        new.focus == Some(Section::Chats),
        new.section == Section::Chats,
        new.modal_input.text@.len() == 0,
        a.active() matches Some(i) ==> new.chats.selected == Some(i as usize),
        (a.active_chat_idx is None && a.chats.items@.len() > 0) ==> new.chats.selected == Some(
            0usize,
        ),
{
}

} // verus!
