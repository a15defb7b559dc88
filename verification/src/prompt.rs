//! The interactive prompt: an append-only history of submitted lines and
//! the per-invocation edit state with whole-line recall.
//!
//! One read of a line is a session: it starts with an empty buffer and the
//! recall cursor one past the newest history entry, takes key decisions one
//! at a time ([`EditSession::key_char`], [`Prompt::key_up`],
//! [`Prompt::key_down`]), and ends with [`Prompt::finish_line`], which
//! appends the buffer to the history unconditionally — even when it is
//! empty or a duplicate. The blocking key reads themselves happen outside
//! this crate; only the decisions are made here.

use vstd::prelude::*;

use crate::text::push_char;

verus! {

/// The prompt label and the chronological history, oldest entry first.
#[derive(Debug)]
pub struct Prompt {
    prompt_text: String,
    history: Vec<String>,
}

/// Mathematical model of a [`Prompt`].
pub struct PromptModel {
    pub prompt_text: Seq<char>,
    pub history: Seq<Seq<char>>,
}

/// The transient state of one line read: the edit buffer and the recall
/// cursor, which ranges over `0..=history.len()`.
#[derive(Debug)]
pub struct EditSession {
    buf: String,
    cursor: usize,
}

/// Mathematical model of an [`EditSession`].
pub struct EditModel {
    pub buf: Seq<char>,
    pub cursor: int,
}

impl View for Prompt {
    type V = PromptModel;

    closed spec fn view(&self) -> PromptModel {
        PromptModel { prompt_text: self.prompt_text@, history: self.history.deep_view() }
    }
}

impl View for EditSession {
    type V = EditModel;

    closed spec fn view(&self) -> EditModel {
        EditModel { buf: self.buf@, cursor: self.cursor as int }
    }
}

impl EditSession {
    /// The current edit buffer.
    pub fn buffer(&self) -> (b: &str)
        ensures
            b@ == self@.buf,
    {
        self.buf.as_str()
    }

    /// The current recall cursor.
    pub fn cursor(&self) -> (c: usize)
        ensures
            c == self@.cursor,
    {
        self.cursor
    }

    /// A printable character: appended to the edit buffer; the cursor does
    /// not move.
    pub fn key_char(&mut self, c: char)
        ensures
            final(self)@.buf == old(self)@.buf.push(c),
            final(self)@.cursor == old(self)@.cursor,
    {
        push_char(&mut self.buf, c);
    }
}

impl Prompt {
    /// A prompt with the given label and no history.
    pub fn new(prompt_text: &str) -> (p: Prompt)
        ensures
            p@.prompt_text == prompt_text@,
            p@.history == Seq::<Seq<char>>::empty(),
    {
        let p = Prompt { prompt_text: prompt_text.to_owned(), history: Vec::new() };
        proof {
            assert(p@.history =~= Seq::<Seq<char>>::empty());
        }
        p
    }

    /// The fixed prompt label.
    pub fn prompt_text(&self) -> (t: &str)
        ensures
            t@ == self@.prompt_text,
    {
        self.prompt_text.as_str()
    }

    /// How many lines have been submitted.
    pub fn history_len(&self) -> (n: usize)
        ensures
            n == self@.history.len(),
    {
        self.history.len()
    }

    /// One stored history entry.
    pub fn history_entry(&self, i: usize) -> (e: &str)
        requires
            i < self@.history.len(),
        ensures
            e@ == self@.history[i as int],
    {
        self.history[i].as_str()
    }

    /// Starts one line read: an empty buffer, and the cursor one past the
    /// newest history entry, so that the first recall yields the most
    /// recent line.
    pub fn begin_line(&self) -> (es: EditSession)
        ensures
            es@.buf == Seq::<char>::empty(),
            es@.cursor == self@.history.len(),
    {
        EditSession { buf: String::new(), cursor: self.history.len() }
    }

    /// The Up key: unless the cursor already sits at the oldest entry, it
    /// moves one entry back and the whole buffer becomes a copy of that
    /// entry. At the boundary nothing changes.
    pub fn key_up(&self, es: &mut EditSession)
        requires
            old(es)@.cursor <= self@.history.len(),
        ensures
            old(es)@.cursor > 0 ==> {
                &&& final(es)@.cursor == old(es)@.cursor - 1
                &&& final(es)@.buf == self@.history[final(es)@.cursor]
            },
            old(es)@.cursor == 0 ==> final(es)@ == old(es)@,
            final(es)@.cursor <= self@.history.len(),
    {
        if es.cursor > 0 {
            es.cursor = es.cursor - 1;
            es.buf = self.history[es.cursor].clone();
        }
    }

    /// The Down key: unless the history is empty or the cursor already sits
    /// at the newest entry, it moves one entry forward and the whole buffer
    /// becomes a copy of that entry. At the boundary nothing changes.
    pub fn key_down(&self, es: &mut EditSession)
        requires
            old(es)@.cursor <= self@.history.len(),
        ensures
            (self@.history.len() > 0 && old(es)@.cursor + 1 < self@.history.len()) ==> {
                &&& final(es)@.cursor == old(es)@.cursor + 1
                &&& final(es)@.buf == self@.history[final(es)@.cursor]
            },
            !(self@.history.len() > 0 && old(es)@.cursor + 1 < self@.history.len())
                ==> final(es)@ == old(es)@,
            final(es)@.cursor <= self@.history.len(),
    {
        if self.history.len() > 0 && es.cursor < self.history.len() - 1 {
            es.cursor = es.cursor + 1;
            es.buf = self.history[es.cursor].clone();
        }
    }

    /// Ends one line read: the finalized buffer is appended to the history
    /// unconditionally — the history grows by exactly one entry, whatever
    /// the line holds — and is returned as the submitted line. No earlier
    /// entry moves or changes.
    pub fn finish_line(&mut self, es: EditSession) -> (line: String)
        ensures
            final(self)@.prompt_text == old(self)@.prompt_text,
            final(self)@.history == old(self)@.history.push(es@.buf),
            final(self)@.history.len() == old(self)@.history.len() + 1,
            forall|i: int|
                0 <= i < old(self)@.history.len() ==> final(self)@.history[i] == old(
                    self,
                )@.history[i],
            final(self)@.history[old(self)@.history.len() as int] == es@.buf,
            line@ == es@.buf,
    {
        let line = es.buf.clone();
        self.history.push(es.buf);
        proof {
            assert(self@.history =~= old(self)@.history.push(es@.buf));
        }
        line
    }
}

} // verus!
