//! The line editor: a state machine that builds one role-tagged message from
//! a stream of key events. Printable characters append to the buffer,
//! backspace removes the last character (a no-op on an empty buffer), tab
//! toggles the role between `user` and `system`, enter submits, and an
//! interrupt aborts without producing a message. The terminal itself is
//! driven outside the library; it feeds `Key` values in and renders the
//! prompt line this module computes.

use vstd::prelude::*;

use crate::gpt::{ChatMessage, Role, RoleType, role_string_spec, toggle_spec};
use crate::text::chars_to_string;

verus! {

/// One key event, as the raw-mode terminal delivers it.
#[derive(Clone, Copy, Debug)]
pub enum Key {
    /// A character key; enter arrives as `'\n'` and tab as `'\t'`.
    Char(char),
    Backspace,
    /// A character pressed together with control; `Ctrl('c')` aborts.
    Ctrl(char),
    /// Any other key; the editor ignores it.
    Other,
}

/// What one key event did to the composition.
#[derive(Clone, Copy, PartialEq, Eq, Structural, Debug)]
pub enum StepResult {
    /// Composition continues.
    Pending,
    /// Enter was pressed: the current buffer and role form the message.
    Submit,
    /// The interrupt key was pressed: no message is produced.
    Abort,
}

/// The buffer after `k`, starting from `buf`: printable characters append,
/// backspace removes the last character if there is one, everything else
/// leaves the buffer unchanged.
pub open spec fn buffer_step(buf: Seq<char>, k: Key) -> Seq<char> {
    match k {
        Key::Char(c) => if c == '\n' || c == '\t' {
            buf
        } else {
            buf.push(c)
        },
        Key::Backspace => if buf.len() > 0 {
            buf.drop_last()
        } else {
            buf
        },
        _ => buf,
    }
}

/// The role after `k`: tab toggles it, every other key leaves it.
pub open spec fn role_step(t: RoleType, k: Key) -> RoleType {
    if k == Key::Char('\t') {
        toggle_spec(t)
    } else {
        t
    }
}

/// How `k` steers the composition: enter submits, `Ctrl('c')` aborts, every
/// other key keeps composing.
pub open spec fn step_outcome(k: Key) -> StepResult {
    if k == Key::Char('\n') {
        StepResult::Submit
    } else if k == Key::Ctrl('c') {
        StepResult::Abort
    } else {
        StepResult::Pending
    }
}

/// Whether `k` ends the composition (by submitting or aborting).
pub open spec fn is_terminator(k: Key) -> bool {
    step_outcome(k) != StepResult::Pending
}

/// The buffer obtained by simulating the append/remove-last effect of each
/// key of `keys` in order, starting from an empty buffer. Role toggles and
/// ignored keys do not touch it.
pub open spec fn sim_buffer(keys: Seq<Key>) -> Seq<char>
    decreases keys.len(),
{
    if keys.len() == 0 {
        Seq::empty()
    } else {
        buffer_step(sim_buffer(keys.drop_last()), keys.last())
    }
}

/// The role obtained by simulating each key of `keys` in order, starting
/// from `user`.
pub open spec fn sim_role(keys: Seq<Key>) -> RoleType
    decreases keys.len(),
{
    if keys.len() == 0 {
        RoleType::User
    } else {
        role_step(sim_role(keys.drop_last()), keys.last())
    }
}

/// The state of one message being composed.
pub struct Editor {
    buffer: Vec<char>,
    role: Role,
}

impl Editor {
    /// The characters composed so far.
    pub closed spec fn buffer_spec(&self) -> Seq<char> {
        self.buffer@
    }

    /// The currently selected role.
    pub closed spec fn role_type(&self) -> RoleType {
        self.role.role_type()
    }

    /// A fresh editor: empty buffer, `user` role.
    pub fn new() -> (e: Editor)
        ensures
            e.buffer_spec() == Seq::<char>::empty(),
            e.role_type() == RoleType::User,
    {
        Editor { buffer: Vec::new(), role: Role::new() }
    }

    /// Apply one key event: the buffer and role change exactly as the
    /// single-key simulation says, and the returned outcome tells the caller
    /// whether to keep composing, submit, or abort.
    pub fn apply_key(&mut self, k: Key) -> (r: StepResult)
        ensures
            final(self).buffer_spec() == buffer_step(old(self).buffer_spec(), k),
            final(self).role_type() == role_step(old(self).role_type(), k),
            r == step_outcome(k),
    {
        match k {
            Key::Char(c) => {
                if c == '\n' {
                    StepResult::Submit
                } else if c == '\t' {
                    self.role.toggle();
                    StepResult::Pending
                } else {
                    self.buffer.push(c);
                    StepResult::Pending
                }
            },
            Key::Backspace => {
                if self.buffer.len() > 0 {
                    self.buffer.pop();
                }
                StepResult::Pending
            },
            Key::Ctrl(c) => {
                if c == 'c' {
                    StepResult::Abort
                } else {
                    StepResult::Pending
                }
            },
            Key::Other => StepResult::Pending,
        }
    }

    /// The finalized message: its content is exactly the buffered characters
    /// and its role is the wire name of the selected role.
    pub fn finalize(&self) -> (m: ChatMessage)
        ensures
            m.content_spec() == self.buffer_spec(),
            m.role_spec() == role_string_spec(self.role_type()),
    {
        ChatMessage::new(chars_to_string(&self.buffer), self.role.get_role_string())
    }

    /// The wire name of the currently selected role, for rendering.
    pub fn current_role_string(&self) -> (r: String)
        ensures
            r@ == role_string_spec(self.role_type()),
    {
        self.role.get_role_string()
    }

    /// The buffered characters as a string, for rendering.
    pub fn buffer_string(&self) -> (r: String)
        ensures
            r@ == self.buffer_spec(),
    {
        chars_to_string(&self.buffer)
    }

    /// The prompt line to redraw after each keystroke: `[<role>] <buffer>`.
    pub fn prompt_line(&self) -> (r: String)
        ensures
            r@ == prompt_spec(self.role_type(), self.buffer_spec()),
    {
        let mut s: String = "[".to_owned();
        let role_name = self.role.get_role_string();
        s.append(role_name.as_str());
        s.append("] ");
        let buffer_text = chars_to_string(&self.buffer);
        s.append(buffer_text.as_str());
        proof {
            assert(s@ =~= prompt_spec(self.role_type(), self.buffer_spec()));
        }
        s
    }
}

/// The characters of the redrawn prompt line for role `t` and buffer `buf`.
pub open spec fn prompt_spec(t: RoleType, buf: Seq<char>) -> Seq<char> {
    "["@ + role_string_spec(t) + "] "@ + buf
}

/// What a whole composition yields, threading buffer `buf` and role `t`
/// through `keys` until the first terminator: `Some` of the buffer and role
/// at the moment enter is pressed, `None` on an interrupt or if the keys run
/// out before a terminator.
pub open spec fn editor_run(buf: Seq<char>, t: RoleType, keys: Seq<Key>) -> Option<
    (Seq<char>, RoleType),
>
    decreases keys.len(),
{
    if keys.len() == 0 {
        None
    } else {
        let k = keys[0];
        if step_outcome(k) == StepResult::Submit {
            Some((buf, t))
        } else if step_outcome(k) == StepResult::Abort {
            None
        } else {
            editor_run(buffer_step(buf, k), role_step(t, k), keys.drop_first())
        }
    }
}

/// What a composition that starts from a fresh editor yields on `keys`.
pub open spec fn editor_result(keys: Seq<Key>) -> Option<(Seq<char>, RoleType)> {
    editor_run(Seq::empty(), RoleType::User, keys)
}

/// Feed `keys` in order to a fresh editor until one of them submits or
/// aborts: `Some` of the finalized message on a submit, `None` on an abort or
/// if no key terminates the composition.
pub fn run_editor(keys: &Vec<Key>) -> (r: Option<ChatMessage>)
    ensures
        match editor_result(keys@) {
            Some(p) => r matches Some(m) && m.content_spec() == p.0 && m.role_spec()
                == role_string_spec(p.1),
            None => r is None,
        },
{
    let mut ed = Editor::new();
    let n = keys.len();
    let mut i: usize = 0;
    proof {
        assert(keys@.skip(0) =~= keys@);
    }
    while i < n
        invariant
            0 <= i <= n == keys@.len(),
            editor_result(keys@) == editor_run(ed.buffer_spec(), ed.role_type(), keys@.skip(
                i as int,
            )),
        decreases n - i,
    {
        let k = keys[i];
        proof {
            assert(keys@.skip(i as int)[0] == keys@[i as int]);
            assert(keys@.skip(i as int).drop_first() =~= keys@.skip(i as int + 1));
        }
        let step = ed.apply_key(k);
        match step {
            StepResult::Submit => {
                return Some(ed.finalize());
            },
            StepResult::Abort => {
                return None;
            },
            StepResult::Pending => {},
        }
        i = i + 1;
    }
    proof {
        assert(keys@.skip(n as int) =~= Seq::<Key>::empty());
    }
    None
}

/// Simulating one more key steps the simulated buffer by exactly that key.
pub proof fn lemma_sim_push(keys: Seq<Key>, k: Key)
    ensures
        sim_buffer(keys.push(k)) == buffer_step(sim_buffer(keys), k),
        sim_role(keys.push(k)) == role_step(sim_role(keys), k),
{
    assert(keys.push(k).drop_last() =~= keys);
}

proof fn lemma_editor_content_general(pre: Seq<Key>, rest: Seq<Key>)
    requires
        forall|j: int| 0 <= j < rest.len() ==> !is_terminator(rest[j]),
    ensures
        editor_run(sim_buffer(pre), sim_role(pre), rest.push(Key::Char('\n'))) == Some(
            (sim_buffer(pre + rest), sim_role(pre + rest)),
        ),
    decreases rest.len(),
{
    if rest.len() == 0 {
        assert(pre + rest =~= pre);
    } else {
        let k = rest[0];
        assert(!is_terminator(k));
        assert(rest.push(Key::Char('\n'))[0] == k);
        assert(rest.push(Key::Char('\n')).drop_first() =~= rest.drop_first().push(Key::Char('\n')));
        lemma_sim_push(pre, k);
        lemma_editor_content_general(pre.push(k), rest.drop_first());
        assert(pre.push(k) + rest.drop_first() =~= pre + rest);
    }
}

/// The content an editor run returns is exactly the append/remove-last
/// simulation of the keys fed before enter, and the role is the simulated
/// toggle state: for any terminator-free key sequence followed by enter, the
/// run submits the simulated buffer and role.
pub proof fn lemma_editor_content(keys: Seq<Key>)
    requires
        forall|j: int| 0 <= j < keys.len() ==> !is_terminator(keys[j]),
    ensures
        editor_result(keys.push(Key::Char('\n'))) == Some((sim_buffer(keys), sim_role(keys))),
{
    assert(Seq::<Key>::empty() + keys =~= keys);
    assert(sim_buffer(Seq::<Key>::empty()) == Seq::<char>::empty());
    lemma_editor_content_general(Seq::<Key>::empty(), keys);
}

/// The simulated buffer never depends on role toggles: removing every tab
/// event from a key sequence leaves the simulated buffer unchanged.
pub proof fn lemma_buffer_ignores_toggles(keys: Seq<Key>)
    ensures
        sim_buffer(keys) == sim_buffer(keys.filter(|k: Key| !(k == Key::Char('\t')))),
    decreases keys.len(),
{
    reveal(Seq::filter);
    let pred = |k: Key| !(k == Key::Char('\t'));
    if keys.len() == 0 {
    } else {
        let k = keys.last();
        lemma_buffer_ignores_toggles(keys.drop_last());
        if pred(k) {
            lemma_sim_push(keys.drop_last().filter(pred), k);
        }
    }
}

/// How many tab (role toggle) events `keys` holds.
pub open spec fn tab_count(keys: Seq<Key>) -> nat
    decreases keys.len(),
{
    if keys.len() == 0 {
        0
    } else {
        tab_count(keys.drop_last()) + (if keys.last() == Key::Char('\t') {
            1nat
        } else {
            0nat
        })
    }
}

/// Tabs strictly alternate the role between exactly two values, starting
/// from `user`: after any key sequence the role is `user` exactly when the
/// number of tab events seen is even, and `system` otherwise.
pub proof fn lemma_role_alternates(keys: Seq<Key>)
    ensures
        sim_role(keys) == if tab_count(keys) % 2 == 0 {
            RoleType::User
        } else {
            RoleType::System
        },
    decreases keys.len(),
{
    if keys.len() > 0 {
        lemma_role_alternates(keys.drop_last());
    }
}

proof fn lemma_interrupt_general(buf: Seq<char>, t: RoleType, pre: Seq<Key>, post: Seq<Key>)
    requires
        forall|j: int| 0 <= j < pre.len() ==> !is_terminator(pre[j]),
    ensures
        editor_run(buf, t, pre + seq![Key::Ctrl('c')] + post) == None::<(Seq<char>, RoleType)>,
    decreases pre.len(),
{
    let whole = pre + seq![Key::Ctrl('c')] + post;
    if pre.len() == 0 {
        assert(whole[0] == Key::Ctrl('c'));
    } else {
        let k = pre[0];
        assert(whole[0] == k);
        assert(!is_terminator(k));
        assert(whole.drop_first() =~= pre.drop_first() + seq![Key::Ctrl('c')] + post);
        lemma_interrupt_general(buffer_step(buf, k), role_step(t, k), pre.drop_first(), post);
    }
}

/// An interrupt at any point during composition yields no message: whatever
/// terminator-free keys precede it and whatever keys follow it, the run
/// returns `None`, never a partial message.
pub proof fn lemma_interrupt_no_message(pre: Seq<Key>, post: Seq<Key>)
    requires
        forall|j: int| 0 <= j < pre.len() ==> !is_terminator(pre[j]),
    ensures
        editor_result(pre + seq![Key::Ctrl('c')] + post) == None::<(Seq<char>, RoleType)>,
{
    lemma_interrupt_general(Seq::<char>::empty(), RoleType::User, pre, post);
}

/// Backspace on an empty buffer is a no-op, and the buffer length never goes
/// negative: a simulated buffer is a sequence, whose length is at least zero,
/// and a backspace step leaves an empty buffer empty.
pub proof fn lemma_backspace_empty_noop(buf: Seq<char>)
    ensures
        buf.len() == 0 ==> buffer_step(buf, Key::Backspace) == buf,
        buffer_step(buf, Key::Backspace).len() >= 0,
{
}

} // verus!
