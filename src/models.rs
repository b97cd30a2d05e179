use vstd::prelude::*;

use rand::Rng;

use crate::stateful_list::StatefulList;
use crate::text::chars_of;

verus! {

/// The characters that a generated identifier is made of.
pub open spec fn is_id_char(c: char) -> bool {
    ('A' <= c && c <= 'Z') || ('a' <= c && c <= 'z') || ('0' <= c && c <= '9')
}

/// A fresh identifier: `length` characters drawn from `is_id_char`.
pub open spec fn is_id(id: Seq<char>, length: nat) -> bool {
    id.len() == length && forall|k: int| 0 <= k < id.len() ==> is_id_char(#[trigger] id[k])
}

/// Relies on `rand::thread_rng` and `Rng::sample_iter` over
/// `rand::distributions::Alphanumeric`: an endless stream of bytes, each one of
/// the 62 ASCII letters and digits, of which `length` are taken.
#[verifier::external_body]
fn random_id(length: usize) -> (r: String)
    ensures
        is_id(r@, length as nat),
{
    rand::thread_rng().sample_iter(&rand::distributions::Alphanumeric).take(length).map(
        char::from,
    ).collect()
}

/// Length of every generated identifier.
pub const ID_LENGTH: usize = 7;

/// Whether the characters of `v` are those of `lit`.
fn same_chars(v: &Vec<char>, lit: &str) -> (r: bool)
    ensures
        r == (v@ == lit@),
{
    let w = chars_of(lit);
    if v.len() != w.len() {
        return false;
    }
    let mut i: usize = 0;
    while i < v.len()
        invariant
            v@.len() == w@.len(),
            w@ == lit@,
            i <= v@.len(),
            forall|k: int| 0 <= k < i ==> v@[k] == w@[k],
        decreases v@.len() - i,
    {
        if v[i] != w[i] {
            assert(v@[i as int] != w@[i as int]);
            return false;
        }
        i = i + 1;
    }
    assert(v@ =~= w@);
    true
}

/// Who wrote a message.
#[derive(Clone, Copy, Debug, PartialEq, Eq, Structural)]
pub enum Role {
    User,
    Assistant,
}

/// A name that is neither `user` nor `assistant`.
#[derive(Clone, Copy, Debug, PartialEq, Eq, Structural)]
pub struct UnknownRole;

impl Role {
    /// The wire name of the role.
    pub open spec fn name(self) -> Seq<char> {
        match self {
            Role::User => "user"@,
            Role::Assistant => "assistant"@,
        }
    }

    pub fn to_string(&self) -> (r: String)
        ensures
            r@ == self.name(),
    {
        match self {
            Role::User => "user".to_owned(),
            Role::Assistant => "assistant".to_owned(),
        }
    }

    pub fn from_str(s: &str) -> (r: Result<Role, UnknownRole>)
        ensures
            r == (if s@ == Role::User.name() {
                Ok(Role::User)
            } else if s@ == Role::Assistant.name() {
                Ok(Role::Assistant)
            } else {
                Err(UnknownRole)
            }),
    {
        let v = chars_of(s);
        if same_chars(&v, "user") {
            Ok(Role::User)
        } else if same_chars(&v, "assistant") {
            Ok(Role::Assistant)
        } else {
            Err(UnknownRole)
        }
    }
}

/// One message of a conversation.
#[derive(Clone, Debug)]
pub struct Message {
    pub id: String,
    pub content: String,
    pub role: Role,
}

impl Message {
    pub fn new(role: Role, content: &str) -> (r: Message)
        ensures
            r.role == role,
            r.content@ == content@,
            is_id(r.id@, ID_LENGTH as nat),
    {
        Message { id: random_id(ID_LENGTH), content: content.to_owned(), role }
    }

    /// A copy of the message, identifier included.
    pub fn duplicate(&self) -> (r: Message)
        ensures
            r == *self,
    {
        Message { id: self.id.clone(), content: self.content.clone(), role: self.role }
    }

    pub fn assistant(content: &str) -> (r: Message)
        ensures
            r.role == Role::Assistant,
            r.content@ == content@,
            is_id(r.id@, ID_LENGTH as nat),
    {
        Message::new(Role::Assistant, content)
    }

    pub fn user(content: &str) -> (r: Message)
        ensures
            r.role == Role::User,
            r.content@ == content@,
            is_id(r.id@, ID_LENGTH as nat),
    {
        Message::new(Role::User, content)
    }
}

/// A titled conversation.
#[derive(Clone, Debug)]
pub struct Chat {
    pub id: String,
    pub title: String,
    pub messages: StatefulList<Message>,
}

impl Chat {
    pub open spec fn wf(&self) -> bool {
        self.messages.wf()
    }

    pub fn new(title: &str) -> (r: Chat)
        ensures
            r.wf(),
            r.title@ == title@,
            r.messages.items@.len() == 0,
            r.messages.selected is None,
            is_id(r.id@, ID_LENGTH as nat),
    {
        Chat { id: random_id(ID_LENGTH), title: title.to_owned(), messages: StatefulList::with_items(Vec::new()) }
    }

    pub fn append_message(&mut self, message: Message)
        requires
            old(self).wf(),
        ensures
            final(self).wf(),
            final(self).id == old(self).id,
            final(self).title == old(self).title,
            final(self).messages.selected == old(self).messages.selected,
            final(self).messages.items@ == old(self).messages.items@.push(message),
    {
        self.messages.items.push(message);
    }

    pub fn with_messages(title: &str, messages: Vec<Message>) -> (r: Chat)
        ensures
            r.wf(),
            r.title@ == title@,
            r.messages.items@ == messages@,
            r.messages.selected is None,
            is_id(r.id@, ID_LENGTH as nat),
    {
        Chat { id: random_id(ID_LENGTH), title: title.to_owned(), messages: StatefulList::with_items(messages) }
    }
}

} // verus!
