//! The session state: an append-only log of committed messages and the
//! pending input line, with the three keystroke-level transitions
//! (append a character, delete the last character, commit the line).

use vstd::prelude::*;

verus! {

/// A committed line of text together with the label of its sender.
/// Immutable once created.
pub struct Message {
    pub sender: String,
    pub data: String,
}

/// The mathematical value of a `Message`: both fields as character sequences.
#[verifier::ext_equal]
pub struct MessageView {
    pub sender: Seq<char>,
    pub data: Seq<char>,
}

impl View for Message {
    type V = MessageView;

    open spec fn view(&self) -> MessageView {
        MessageView { sender: self.sender@, data: self.data@ }
    }
}

/// The session: the ordered log of committed messages (insertion order is
/// display order) and the characters of the not-yet-committed line.
pub struct Progression {
    pub messages: Vec<Message>,
    pub input_buffer: Vec<char>,
}

/// The mathematical value of a `Progression`.
#[verifier::ext_equal]
pub struct SessionView {
    pub messages: Seq<MessageView>,
    pub buffer: Seq<char>,
}

impl View for Progression {
    type V = SessionView;

    open spec fn view(&self) -> SessionView {
        SessionView {
            messages: self.messages@.map_values(|m: Message| m@),
            buffer: self.input_buffer@,
        }
    }
}

/// The fixed label given to every committed message.
pub open spec fn local_sender() -> Seq<char> {
    "me"@
}

/// Appending an already-built message at the end of the log.
pub open spec fn spec_append_msg(s: SessionView, m: MessageView) -> SessionView {
    SessionView { messages: s.messages.push(m), buffer: s.buffer }
}

/// Appending one character at the end of the input buffer.
pub open spec fn spec_append_char(s: SessionView, c: char) -> SessionView {
    SessionView { messages: s.messages, buffer: s.buffer.push(c) }
}

/// Committing the pending line: a non-empty buffer becomes exactly one new
/// message carrying the local sender label; the buffer empties either way,
/// and an empty buffer produces no message at all.
pub open spec fn spec_commit(s: SessionView) -> SessionView {
    if s.buffer.len() > 0 {
        SessionView {
            messages: s.messages.push(MessageView { sender: local_sender(), data: s.buffer }),
            buffer: Seq::empty(),
        }
    } else {
        SessionView { messages: s.messages, buffer: Seq::empty() }
    }
}

/// Dispatch of one typed character: the line terminator commits, any other
/// character is appended to the buffer.
pub open spec fn spec_input_char(s: SessionView, c: char) -> SessionView {
    if c == '\n' {
        spec_commit(s)
    } else {
        spec_append_char(s, c)
    }
}

/// Removing the last buffered character; a no-op on an empty buffer.
pub open spec fn spec_backspace(s: SessionView) -> SessionView {
    if s.buffer.len() > 0 {
        SessionView { messages: s.messages, buffer: s.buffer.drop_last() }
    } else {
        s
    }
}

/// Relies on `String::push`: appends exactly one character at the end.
#[verifier::external_body]
pub(crate) fn push_char(s: &mut String, c: char)
    ensures
        final(s)@ == old(s)@.push(c),
{
    s.push(c)
}

impl Progression {
    /// A fresh session: empty log, empty buffer.
    pub fn new() -> (s: Progression)
        ensures
            s@.messages =~= Seq::<MessageView>::empty(),
            s@.buffer =~= Seq::<char>::empty(),
    {
        Progression { messages: Vec::new(), input_buffer: Vec::new() }
    }

    /// The pending line as a string: exactly the buffered characters in order.
    pub fn buffer_string(&self) -> (r: String)
        ensures
            r@ == self@.buffer,
    {
        let mut r = String::new();
        let mut i: usize = 0;
        while i < self.input_buffer.len()
            invariant
                i <= self.input_buffer.len(),
                r@ =~= self.input_buffer@.take(i as int),
            decreases self.input_buffer.len() - i,
        {
            push_char(&mut r, self.input_buffer[i]);
            i = i + 1;
            proof {
                assert(self.input_buffer@.take(i as int) =~= self.input_buffer@.take(
                    i as int - 1,
                ).push(self.input_buffer@[i as int - 1]));
            }
        }
        proof {
            assert(self.input_buffer@.take(self.input_buffer@.len() as int)
                =~= self.input_buffer@);
        }
        r
    }

    /// Pushes a message at the end of the log; the buffer is untouched.
    pub fn append_msg(&mut self, msg: Message)
        ensures
            final(self)@ == spec_append_msg(old(self)@, msg@),
    {
        let ghost m = msg@;
        self.messages.push(msg);
        proof {
            assert(self@.messages =~= old(self)@.messages.push(m));
            assert(self@ =~~= spec_append_msg(old(self)@, m));
        }
    }

    /// One keystroke into the session: the line terminator commits the pending
    /// line, any other character is appended to it.
    pub fn input_char(&mut self, c: char)
        ensures
            final(self)@ == spec_input_char(old(self)@, c),
    {
        if c == '\n' {
            self.commit();
        } else {
            self.input_buffer.push(c);
            proof {
                assert(self@ =~~= spec_append_char(old(self)@, c));
            }
        }
    }

    /// Commits the pending line: a non-empty buffer appends exactly one message
    /// (sender the local label, data the buffered characters) and the prior log
    /// entries keep their places; the buffer is cleared either way, and an
    /// empty buffer leaves the log completely unchanged.
    pub fn commit(&mut self)
        ensures
            final(self)@ == spec_commit(old(self)@),
            final(self)@.buffer.len() == 0,
            old(self)@.buffer.len() > 0 ==> final(self)@.messages =~= old(self)@.messages.push(
                MessageView { sender: local_sender(), data: old(self)@.buffer },
            ),
            old(self)@.buffer.len() == 0 ==> final(self)@.messages =~= old(self)@.messages,
    {
        if self.input_buffer.len() > 0 {
            let data = self.buffer_string();
            let sender = "me".to_owned();
            proof {
                assert(sender@ == local_sender());
            }
            self.append_msg(Message { sender, data });
        }
        self.input_buffer.clear();
        proof {
            assert(self@ =~~= spec_commit(old(self)@));
        }
    }

    /// Deletes the last character of the pending line, if any: a buffer of
    /// length n becomes its first n - 1 characters; an empty buffer and the
    /// log are left unchanged.
    pub fn backspace(&mut self)
        ensures
            final(self)@ == spec_backspace(old(self)@),
            old(self)@.buffer.len() > 0 ==> final(self)@.buffer =~= old(self)@.buffer.take(
                old(self)@.buffer.len() - 1,
            ),
            old(self)@.buffer.len() == 0 ==> final(self)@ == old(self)@,
            final(self)@.messages == old(self)@.messages,
    {
        self.input_buffer.pop();
        proof {
            assert(self@ =~~= spec_backspace(old(self)@));
        }
    }
}

/// The session after a run of typed characters, applied left to right.
pub open spec fn apply_inputs(s: SessionView, cs: Seq<char>) -> SessionView
    decreases cs.len(),
{
    if cs.len() == 0 {
        s
    } else {
        apply_inputs(spec_input_char(s, cs.first()), cs.drop_first())
    }
}

/// Law: a run of typed characters among which no line terminator occurs
/// appends exactly those characters, in order, to the input buffer and leaves
/// the message log unchanged.
pub proof fn lemma_appends_concatenate(s: SessionView, cs: Seq<char>)
    requires
        forall|i: int| 0 <= i < cs.len() ==> cs[i] != '\n',
    ensures
        apply_inputs(s, cs).messages == s.messages,
        apply_inputs(s, cs).buffer == s.buffer + cs,
    decreases cs.len(),
{
    if cs.len() == 0 {
        assert(s.buffer + cs =~= s.buffer);
    } else {
        assert(cs[0] != '\n');
        let s1 = spec_input_char(s, cs.first());
        assert forall|i: int| 0 <= i < cs.drop_first().len() implies cs.drop_first()[i] != '\n' by {
            assert(cs.drop_first()[i] == cs[i + 1]);
        }
        lemma_appends_concatenate(s1, cs.drop_first());
        assert(s.buffer.push(cs.first()) + cs.drop_first() =~= s.buffer + cs);
    }
}

/// Law: committing is idempotent — committing again with nothing typed in
/// between is an empty commit, so one logical entry never yields two messages.
pub proof fn lemma_commit_idempotent(s: SessionView)
    ensures
        spec_commit(spec_commit(s)) == spec_commit(s),
{
    assert(spec_commit(spec_commit(s)) =~~= spec_commit(s));
}

} // verus!
