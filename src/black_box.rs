//! Buffering policy of the black-box log.
//!
//! Log lines are queued in memory and written out when more than
//! `MAX_BUFFER_LEN` are waiting, when a flush is requested, or when no line
//! has arrived for a while. A line that fails to be written is replaced by a
//! line that reports the failure.

use std::collections::VecDeque;
use vstd::prelude::*;

verus! {

/// Number of waiting lines above which the buffer is written out.
pub const MAX_BUFFER_LEN: usize = 64;

/// Time without input after which waiting lines are written out: 500 ms.
pub const RECEIVE_TIMEOUT_MS: u64 = 500;

pub enum BlackBoxInput {
    Message(String),
    Flush,
}

pub struct LogBuffer {
    lines: VecDeque<String>,
}

impl LogBuffer {
    /// The waiting lines, oldest first.
    pub closed spec fn lines(&self) -> Seq<String> {
        self.lines@
    }

    pub fn new() -> (r: Self)
        ensures
            r.lines() == Seq::<String>::empty(),
    {
        LogBuffer { lines: VecDeque::new() }
    }

    pub fn len(&self) -> (r: usize)
        ensures
            r == self.lines().len(),
    {
        self.lines.len()
    }

    /// Takes one input; returns whether the waiting lines must now be
    /// written out.
    pub fn receive(&mut self, input: BlackBoxInput) -> (flush: bool)
        ensures
            input matches BlackBoxInput::Message(line) ==> final(self).lines() == old(self).lines().push(
                line,
            ) && flush == (final(self).lines().len() > MAX_BUFFER_LEN),
            input is Flush ==> final(self).lines() == old(self).lines() && flush,
    {
        match input {
            BlackBoxInput::Message(line) => {
                self.lines.push_back(line);
                self.lines.len() > MAX_BUFFER_LEN
            },
            BlackBoxInput::Flush => true,
        }
    }

    /// Whether the waiting lines must be written out after a receive
    /// timeout: when there are any.
    pub fn flush_on_timeout(&self) -> (flush: bool)
        ensures
            flush == (self.lines().len() > 0),
    {
        self.lines.len() > 0
    }

    /// Takes the oldest waiting line, to be written out.
    pub fn pop_front(&mut self) -> (r: Option<String>)
        ensures
            old(self).lines().len() == 0 ==> r is None && final(self).lines() == old(self).lines(),
            old(self).lines().len() > 0 ==> r == Some(old(self).lines()[0]) && final(self).lines()
                == old(self).lines().drop_first(),
    {
        self.lines.pop_front()
    }

    /// Queues the line that reports a failed write.
    pub fn report_failure(&mut self, report: String)
        ensures
            final(self).lines() == old(self).lines().push(report),
    {
        self.lines.push_back(report);
    }
}

} // verus!
