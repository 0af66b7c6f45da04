//! The transcript of one exchange and the guard on its size.
use vstd::prelude::*;

use crate::message::{content_len, ChatError, Message, MessageView};

verus! {

/// The sum of the content lengths of the messages.
pub open spec fn total_len(s: Seq<MessageView>) -> nat
    decreases s.len(),
{
    if s.len() == 0 {
        0
    } else {
        total_len(s.drop_last()) + content_len(s.last())
    }
}

/// Appending a message adds exactly the length of its content to the
/// size of a transcript, and nothing where it has no content (an assistant
/// message that only carries tool calls).
pub proof fn lemma_total_len_push(s: Seq<MessageView>, m: MessageView)
    ensures
        total_len(s.push(m)) == total_len(s) + content_len(m),
        m.content is None ==> total_len(s.push(m)) == total_len(s),
{
    assert(s.push(m).drop_last() =~= s);
}

/// The size of two transcripts joined is the sum of their sizes: the size
/// is the sum over all messages of their content lengths.
pub proof fn lemma_total_len_concat(a: Seq<MessageView>, b: Seq<MessageView>)
    ensures
        total_len(a + b) == total_len(a) + total_len(b),
    decreases b.len(),
{
    if b.len() == 0 {
        assert(a + b =~= a);
    } else {
        lemma_total_len_concat(a, b.drop_last());
        assert((a + b).drop_last() =~= a + b.drop_last());
    }
}

/// A size as it is reported in an error: saturated at `usize::MAX`.
pub open spec fn reported(n: nat) -> usize {
    if n > usize::MAX {
        usize::MAX
    } else {
        n as usize
    }
}

/// The verdict on a transcript of `total` characters where it must hold
/// something and stay within `limit`.
pub open spec fn budget_verdict(total: nat, limit: usize) -> Result<(), ChatError> {
    if total == 0 {
        Err(ChatError::EmptyInput)
    } else if total > limit {
        Err(ChatError::BudgetExceeded(reported(total), limit))
    } else {
        Ok(())
    }
}

/// The verdict on a transcript that would reach `total` characters, where it
/// only has to stay within `limit`.
pub open spec fn growth_verdict(total: nat, limit: usize) -> Result<(), ChatError> {
    if total > limit {
        Err(ChatError::BudgetExceeded(reported(total), limit))
    } else {
        Ok(())
    }
}

/// The ordered messages of one exchange. It only grows.
pub struct Transcript {
    messages: Vec<Message>,
    total: usize,
}

impl View for Transcript {
    type V = Seq<MessageView>;

    closed spec fn view(&self) -> Seq<MessageView> {
        self.messages@.map_values(|m: Message| m@)
    }
}

impl Transcript {
    /// The cached size agrees with the messages.
    pub closed spec fn wf(&self) -> bool {
        self.total == total_len(self@)
    }

    /// An empty transcript.
    pub fn new() -> (t: Transcript)
        ensures
            t.wf(),
            t@ == Seq::<MessageView>::empty(),
    {
        let t = Transcript { messages: Vec::new(), total: 0 };
        assert(t@ =~= Seq::<MessageView>::empty());
        t
    }

    /// Appends a message at the end.
    pub fn push(&mut self, m: Message)
        requires
            old(self).wf(),
            total_len(old(self)@) + content_len(m@) <= usize::MAX,
        ensures
            final(self).wf(),
            final(self)@ == old(self)@.push(m@),
    {
        let n = m.content_length();
        self.messages.push(m);
        self.total = self.total + n;
        assert(self@ =~= old(self)@.push(m@));
        assert(self@.drop_last() =~= old(self)@);
    }

    /// A well-formed transcript holds no more than `usize::MAX` characters.
    pub proof fn lemma_total_bounded(&self)
        requires
            self.wf(),
        ensures
            total_len(self@) <= usize::MAX,
    {
    }

    /// The number of messages.
    pub fn len(&self) -> (n: usize)
        ensures
            n == self@.len(),
    {
        self.messages.len()
    }

    /// The message at position `i`.
    pub fn get(&self, i: usize) -> (m: &Message)
        requires
            i < self@.len(),
        ensures
            m@ == self@[i as int],
    {
        &self.messages[i]
    }

    /// All the messages, in order.
    pub fn messages(&self) -> (v: &Vec<Message>)
        ensures
            v@.map_values(|m: Message| m@) == self@,
    {
        &self.messages
    }

    /// The sum of the character lengths of every content that is present;
    /// a message without content adds nothing.
    pub fn total_content_length(&self) -> (n: usize)
        requires
            self.wf(),
        ensures
            n == total_len(self@),
    {
        self.total
    }

    /// Whether a message of `extra` characters more could still be held.
    pub fn fits(&self, extra: usize) -> (r: bool)
        requires
            self.wf(),
        ensures
            r == (total_len(self@) + extra <= usize::MAX),
    {
        extra <= usize::MAX - self.total
    }

    /// The check on the whole transcript: it must hold some content, and no
    /// more than `limit` characters.
    pub fn check(&self, limit: usize) -> (r: Result<(), ChatError>)
        requires
            self.wf(),
        ensures
            r == budget_verdict(total_len(self@), limit),
            total_len(self@) == 0 ==> r == Err::<(), ChatError>(ChatError::EmptyInput),
            total_len(self@) > limit ==> r == Err::<(), ChatError>(
                ChatError::BudgetExceeded(total_len(self@) as usize, limit),
            ),
            0 < total_len(self@) <= limit ==> r is Ok,
    {
        if self.total == 0 {
            Err(ChatError::EmptyInput)
        } else if self.total > limit {
            Err(ChatError::BudgetExceeded(self.total, limit))
        } else {
            Ok(())
        }
    }

    /// The check before a message of `extra` characters is added: the
    /// transcript must stay within `limit` characters.
    pub fn check_growth(&self, extra: usize, limit: usize) -> (r: Result<(), ChatError>)
        requires
            self.wf(),
        ensures
            r == growth_verdict((total_len(self@) + extra) as nat, limit),
    {
        if extra > limit || self.total > limit - extra {
            Err(ChatError::BudgetExceeded(self.total.saturating_add(extra), limit))
        } else {
            Ok(())
        }
    }
}

} // verus!
