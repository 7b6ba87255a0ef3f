//! The conversation loop as a state machine. A session owns the growing
//! transcript and decides, from each editor result and each completion
//! reply, what happens next: keep composing while `system`-role messages are
//! stacked, send the transcript once a `user`-role message arrives, append a
//! successful reply, and end on an abort, on a failed request, or after one
//! reply in one-shot mode. The caller performs the actions (prompting,
//! sending, printing) and feeds the outcomes back in as plain values.

use vstd::prelude::*;

use crate::gpt::{ChatMessage, ChatRequest, ChatResponse, duplicate_messages};
use crate::text::{trim_spec, trimmed};

verus! {

/// Where a session stands.
#[derive(Clone, Copy, PartialEq, Eq, Structural, Debug)]
pub enum Phase {
    /// The next step is to compose a message in the editor.
    Composing,
    /// A `user`-role message was appended; the next step is to send the
    /// transcript and wait for the reply.
    AwaitingReply,
    /// The session is over; nothing further happens.
    Ended,
}

/// What the caller must do next.
#[derive(Clone, Copy, PartialEq, Eq, Structural, Debug)]
pub enum SessionAction {
    /// Run the line editor and report its result.
    Compose,
    /// Send the transcript to the completion endpoint and report the reply.
    Send,
    /// Stop: the session is over.
    End,
}

/// The action each phase calls for.
pub open spec fn action_for_phase(p: Phase) -> SessionAction {
    match p {
        Phase::Composing => SessionAction::Compose,
        Phase::AwaitingReply => SessionAction::Send,
        Phase::Ended => SessionAction::End,
    }
}

/// One conversation run: the transcript (append-only), the one-shot flag,
/// and the phase the loop is in.
pub struct Session {
    messages: Vec<ChatMessage>,
    oneshot: bool,
    phase: Phase,
}

impl Session {
    /// The transcript so far, in order.
    pub closed spec fn messages_spec(&self) -> Seq<ChatMessage> {
        self.messages@
    }

    /// Whether the session ends after the first successful reply.
    pub closed spec fn oneshot_spec(&self) -> bool {
        self.oneshot
    }

    /// Where the session stands.
    pub closed spec fn phase_spec(&self) -> Phase {
        self.phase
    }

    /// Start a session over a seed transcript: the seed is taken as-is, in
    /// order, and composition begins at once.
    pub fn new(seed: Vec<ChatMessage>, oneshot: bool) -> (s: Session)
        ensures
            s.messages_spec() == seed@,
            s.oneshot_spec() == oneshot,
            s.phase_spec() == Phase::Composing,
    {
        Session { messages: seed, oneshot, phase: Phase::Composing }
    }

    /// What the caller must do next, given where the session stands.
    pub fn next_action(&self) -> (a: SessionAction)
        ensures
            a == action_for_phase(self.phase_spec()),
    {
        match self.phase {
            Phase::Composing => SessionAction::Compose,
            Phase::AwaitingReply => SessionAction::Send,
            Phase::Ended => SessionAction::End,
        }
    }

    /// Feed the editor's result in. An abort (`None`) ends the session with
    /// the transcript untouched — never a partial message. A composed message
    /// is appended; a `system`-role message keeps the session composing, so
    /// that several context messages can be stacked, while a message of any
    /// other role — the editor only produces `user` besides `system` — moves
    /// the session on to sending.
    pub fn on_editor_result(&mut self, r: Option<ChatMessage>)
        requires
            old(self).phase_spec() == Phase::Composing,
        ensures
            final(self).oneshot_spec() == old(self).oneshot_spec(),
            r is None ==> final(self).messages_spec() == old(self).messages_spec()
                && final(self).phase_spec() == Phase::Ended,
            r matches Some(m) ==> final(self).messages_spec() == old(self).messages_spec().push(m)
                && final(self).phase_spec() == (if m.role_spec() == "user"@ {
                Phase::AwaitingReply
            } else {
                Phase::Composing
            }),
    {
        match r {
            None => {
                self.phase = Phase::Ended;
            },
            Some(m) => {
                let is_user = m.is_user_role();
                self.messages.push(m);
                if is_user {
                    self.phase = Phase::AwaitingReply;
                }
            },
        }
    }

    /// Feed the outcome of the network round trip in. A failed request or a
    /// reply without any choice (`None` / an empty response) ends the session
    /// with the transcript untouched and nothing to show. Otherwise the first
    /// choice's message is appended, its content is returned trimmed for
    /// display, and the session either ends (one-shot mode) or composes the
    /// next turn.
    pub fn on_reply(&mut self, reply: Option<&ChatResponse>) -> (shown: Option<String>)
        requires
            old(self).phase_spec() == Phase::AwaitingReply,
        ensures
            final(self).oneshot_spec() == old(self).oneshot_spec(),
            reply is None ==> final(self).messages_spec() == old(self).messages_spec()
                && final(self).phase_spec() == Phase::Ended && shown is None,
            reply matches Some(res) ==> ((res.choices_spec().len() == 0
                ==> final(self).messages_spec() == old(self).messages_spec()
                    && final(self).phase_spec() == Phase::Ended && shown is None) && (
            res.choices_spec().len() > 0
                ==> final(self).messages_spec() == old(self).messages_spec().push(
                    res.choices_spec()[0].message_spec(),
                ) && final(self).phase_spec() == (if old(self).oneshot_spec() {
                    Phase::Ended
                } else {
                    Phase::Composing
                }) && (shown matches Some(s) && s@ == trim_spec(
                    res.choices_spec()[0].message_spec().content_spec(),
                )))),
    {
        match reply {
            None => {
                self.phase = Phase::Ended;
                None
            },
            Some(res) => {
                match res.first_message() {
                    None => {
                        self.phase = Phase::Ended;
                        None
                    },
                    Some(m) => {
                        let shown_text = trimmed(m.get_content());
                        let copy = m.duplicate();
                        self.messages.push(copy);
                        if self.oneshot {
                            self.phase = Phase::Ended;
                        } else {
                            self.phase = Phase::Composing;
                        }
                        Some(shown_text)
                    },
                }
            },
        }
    }

    /// An equal copy of the transcript, for building a request payload.
    pub fn snapshot_messages(&self) -> (r: Vec<ChatMessage>)
        ensures
            r@ == self.messages_spec(),
    {
        duplicate_messages(&self.messages)
    }

    /// The request payload for the current transcript: the given model name
    /// and the messages exactly in transcript order.
    pub fn build_request(&self, model: String) -> (r: ChatRequest)
        ensures
            r.model_spec() == model@,
            r.messages_spec() == self.messages_spec(),
    {
        ChatRequest::new(model, self.snapshot_messages())
    }

    /// How many messages the transcript holds.
    pub fn message_count(&self) -> (n: usize)
        ensures
            n == self.messages_spec().len(),
    {
        self.messages.len()
    }
}

/// What one line of input does in the simple, non-role-toggling loop.
#[derive(Clone, Copy, PartialEq, Eq, Structural, Debug)]
pub enum SimpleStep {
    /// The line was the `quit` command: end the session, send nothing.
    Quit,
    /// The line became a `user` message: send the transcript.
    Send,
}

/// One step of the simple loop: the line is trimmed of surrounding
/// whitespace; if what remains is exactly `quit`, the session ends with the
/// transcript untouched and no request is issued, otherwise the trimmed line
/// is appended as a `user`-role message to be sent.
pub fn simple_step(messages: &mut Vec<ChatMessage>, line: &str) -> (a: SimpleStep)
    ensures
        trim_spec(line@) == "quit"@ ==> a == SimpleStep::Quit && final(messages)@ == old(messages)@,
        trim_spec(line@) != "quit"@ ==> a == SimpleStep::Send
            && final(messages)@.len() == old(messages)@.len() + 1
            && final(messages)@.drop_last() == old(messages)@
            && final(messages)@.last().content_spec() == trim_spec(line@)
            && final(messages)@.last().role_spec() == "user"@,
{
    let t = trimmed(line);
    if t == "quit".to_owned() {
        SimpleStep::Quit
    } else {
        let m = ChatMessage::new(t, "user".to_owned());
        messages.push(m);
        proof {
            assert(messages@.drop_last() =~= old(messages)@);
        }
        SimpleStep::Send
    }
}

} // verus!
