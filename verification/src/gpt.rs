//! Message and transcript data model: role-tagged chat messages, the request
//! payload sent to the completion endpoint, and the response shape it answers
//! with.

use vstd::prelude::*;

verus! {

/// The role a composed message carries: the editor toggles between exactly
/// these two values. Assistant replies carry their role as a plain string and
/// never pass through the toggle.
#[derive(Clone, Copy, PartialEq, Eq, Structural, Debug)]
pub enum RoleType {
    User,
    System,
}

/// The characters of the wire name of a role.
pub open spec fn role_string_spec(t: RoleType) -> Seq<char> {
    match t {
        RoleType::User => "user"@,
        RoleType::System => "system"@,
    }
}

/// The other of the two toggleable roles.
pub open spec fn toggle_spec(t: RoleType) -> RoleType {
    match t {
        RoleType::User => RoleType::System,
        RoleType::System => RoleType::User,
    }
}

/// The transient role-toggle state of one message being composed.
pub struct Role {
    t: RoleType,
}

impl Role {
    /// Which of the two roles this state currently selects.
    pub closed spec fn role_type(&self) -> RoleType {
        self.t
    }

    /// A fresh toggle state always starts at `user`.
    pub fn new() -> (r: Role)
        ensures
            r.role_type() == RoleType::User,
    {
        Role { t: RoleType::User }
    }

    /// The wire name of the currently selected role.
    pub fn get_role_string(&self) -> (r: String)
        ensures
            r@ == role_string_spec(self.role_type()),
    {
        match self.t {
            RoleType::User => "user".to_owned(),
            RoleType::System => "system".to_owned(),
        }
    }

    /// Flip between the two roles.
    pub fn toggle(&mut self)
        ensures
            final(self).role_type() == toggle_spec(old(self).role_type()),
    {
        self.t = match self.t {
            RoleType::User => RoleType::System,
            RoleType::System => RoleType::User,
        };
    }
}

/// Toggling twice returns to the starting role: the toggle strictly
/// alternates between exactly two values.
pub proof fn lemma_toggle_involutive(t: RoleType)
    ensures
        toggle_spec(toggle_spec(t)) == t,
        toggle_spec(t) != t,
{
}

/// The closed set of roles a message can carry: `user` and `system` come
/// from composition, `assistant` only from completion replies.
pub open spec fn valid_role_spec(s: Seq<char>) -> bool {
    s == "user"@ || s == "system"@ || s == "assistant"@
}

/// Whether `role` is one of the three role names a message can carry.
/// Callers that receive a role from the wire check it here before
/// constructing a message.
pub fn is_valid_role(role: &str) -> (r: bool)
    ensures
        r == valid_role_spec(role@),
{
    let owned = role.to_owned();
    owned == "user".to_owned() || owned == "system".to_owned() || owned == "assistant".to_owned()
}

/// One entry of a transcript: an immutable role-tagged text. Its role is
/// always one of the closed set of valid role names.
#[derive(Clone, Debug)]
pub struct ChatMessage {
    role: String,
    content: String,
}

impl ChatMessage {
    /// The characters of the message text.
    pub closed spec fn content_spec(&self) -> Seq<char> {
        self.content@
    }

    /// The characters of the role tag.
    pub closed spec fn role_spec(&self) -> Seq<char> {
        self.role@
    }

    pub fn new(content: String, role: String) -> (m: ChatMessage)
        requires
            valid_role_spec(role@),
        ensures
            m.content_spec() == content@,
            m.role_spec() == role@,
    {
        ChatMessage { content, role }
    }

    pub fn get_content(&self) -> (r: &str)
        ensures
            r@ == self.content_spec(),
    {
        self.content.as_str()
    }

    pub fn get_role(&self) -> (r: &str)
        ensures
            r@ == self.role_spec(),
    {
        self.role.as_str()
    }

    /// Whether this message carries the `user` role; a `user`-role message is
    /// what ends the composition phase of a turn.
    pub fn is_user_role(&self) -> (r: bool)
        ensures
            r == (self.role_spec() == "user"@),
    {
        self.role == "user".to_owned()
    }

    /// An equal copy of this message.
    pub fn duplicate(&self) -> (m: ChatMessage)
        ensures
            m == *self,
    {
        ChatMessage { role: self.role.clone(), content: self.content.clone() }
    }
}

/// An equal copy of a transcript, element for element.
pub fn duplicate_messages(v: &Vec<ChatMessage>) -> (r: Vec<ChatMessage>)
    ensures
        r@ == v@,
{
    let mut r: Vec<ChatMessage> = Vec::new();
    let n = v.len();
    let mut i: usize = 0;
    while i < n
        invariant
            0 <= i <= n == v@.len(),
            r@ == v@.take(i as int),
        decreases n - i,
    {
        r.push(v[i].duplicate());
        proof {
            assert(v@.take(i as int).push(v@[i as int]) =~= v@.take(i as int + 1));
        }
        i = i + 1;
    }
    proof {
        assert(v@.take(n as int) =~= v@);
    }
    r
}

/// The model name every request is sent with.
pub fn default_model() -> (r: String)
    ensures
        r@ == "gpt-3.5-turbo"@,
{
    "gpt-3.5-turbo".to_owned()
}

/// The payload of one completion request: the model name and the full
/// transcript, in order, exactly as it is serialised and sent.
#[derive(Clone, Debug)]
pub struct ChatRequest {
    model: String,
    messages: Vec<ChatMessage>,
}

impl ChatRequest {
    /// The model name of the request.
    pub closed spec fn model_spec(&self) -> Seq<char> {
        self.model@
    }

    /// The transcript the request carries, in order.
    pub closed spec fn messages_spec(&self) -> Seq<ChatMessage> {
        self.messages@
    }

    pub fn new(model: String, messages: Vec<ChatMessage>) -> (r: ChatRequest)
        ensures
            r.model_spec() == model@,
            r.messages_spec() == messages@,
    {
        ChatRequest { model, messages }
    }

    pub fn get_model(&self) -> (r: &str)
        ensures
            r@ == self.model_spec(),
    {
        self.model.as_str()
    }

    pub fn get_messages(&self) -> (r: &Vec<ChatMessage>)
        ensures
            r@ == self.messages_spec(),
    {
        &self.messages
    }
}

/// One choice of a completion response: the reply message it carries,
/// together with its position and the reason the reply finished.
#[derive(Clone, Debug)]
pub struct Choice {
    index: i32,
    message: ChatMessage,
    finish_reason: String,
}

impl Choice {
    /// The reply message this choice carries.
    pub closed spec fn message_spec(&self) -> ChatMessage {
        self.message
    }

    /// The position of this choice in the response.
    pub closed spec fn index_spec(&self) -> i32 {
        self.index
    }

    /// The reported reason the reply finished.
    pub closed spec fn finish_reason_spec(&self) -> Seq<char> {
        self.finish_reason@
    }

    pub fn new(index: i32, message: ChatMessage, finish_reason: String) -> (r: Choice)
        ensures
            r.index_spec() == index,
            r.message_spec() == message,
            r.finish_reason_spec() == finish_reason@,
    {
        Choice { index, message, finish_reason }
    }

    pub fn get_message(&self) -> (r: &ChatMessage)
        ensures
            *r == self.message_spec(),
    {
        &self.message
    }
}

/// A completion response: an ordered sequence of choices of which only the
/// first is ever used, together with the endpoint's bookkeeping fields.
#[derive(Clone, Debug)]
pub struct ChatResponse {
    id: String,
    object: String,
    created: i32,
    choices: Vec<Choice>,
}

impl ChatResponse {
    /// The choices the response carries, in order.
    pub closed spec fn choices_spec(&self) -> Seq<Choice> {
        self.choices@
    }

    pub fn new(id: String, object: String, created: i32, choices: Vec<Choice>) -> (r: ChatResponse)
        ensures
            r.choices_spec() == choices@,
    {
        ChatResponse { id, object, created, choices }
    }

    pub fn get_choices(&self) -> (r: &Vec<Choice>)
        ensures
            r@ == self.choices_spec(),
    {
        &self.choices
    }

    /// The message of the first choice, which is the one reply a turn uses;
    /// `None` exactly when the response carries no choice at all.
    pub fn first_message(&self) -> (r: Option<&ChatMessage>)
        ensures
            self.choices_spec().len() == 0 ==> r is None,
            self.choices_spec().len() > 0 ==> (r matches Some(m) && *m == self.choices_spec()[0].message_spec()),
    {
        if self.choices.len() > 0 {
            Some(self.choices[0].get_message())
        } else {
            None
        }
    }
}

} // verus!
