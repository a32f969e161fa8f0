//! Blocking exchanges, word by word, built on the non-blocking send and read.
//!
//! An [`Exchange`] keeps the place in the buffer and says which access comes
//! next. The caller makes that access and reports how it ended; a report of
//! "would block" leaves everything as it was, so the caller simply asks again.

use crate::spi::{Error, NbError};
use vstd::prelude::*;

verus! {

/// What the caller of an exchange has to do next.
#[derive(Clone, Copy, Debug, PartialEq, Eq, Structural)]
pub enum Request {
    /// Send this byte, then report with [`Exchange::sent`].
    Send(u8),
    /// Read a byte, then report with [`Exchange::received`].
    Read,
    /// Nothing: every word has been sent and answered.
    Finished,
    /// Nothing: the exchange was ended by this error.
    Failed(Error),
}

/// How a requested access ended.
#[derive(Clone, Copy, Debug, PartialEq, Eq)]
pub enum Reply {
    /// The outcome of a send.
    Sent(Result<(), NbError>),
    /// The outcome of a read.
    Received(Result<u8, NbError>),
}

/// The state of an exchange, as contracts see it.
pub struct Progress {
    /// The buffer: what is still to be sent, and what has come back so far.
    pub words: Seq<u8>,
    /// Number of words that are done: sent, and their answer read.
    pub position: nat,
    /// The word at `position` has been sent and its answer has not been read.
    pub awaiting: bool,
    /// Answers are stored over the words they answer; otherwise they are dropped.
    pub keep: bool,
    /// The error that ended the exchange, if one did.
    pub failure: Option<Error>,
}

impl Progress {
    /// The state before the first access.
    pub open spec fn start(words: Seq<u8>, keep: bool) -> Progress {
        Progress { words, position: 0, awaiting: false, keep, failure: None }
    }

    /// The place lies in the buffer, and an answer is awaited only for a word
    /// that exists.
    pub open spec fn well_formed(self) -> bool {
        &&& self.position <= self.words.len()
        &&& self.awaiting ==> self.position < self.words.len()
    }

    /// The access that comes next.
    ///
    /// After an error nothing comes. Otherwise each word is sent and then its
    /// answer is read, before the next word is sent.
    pub open spec fn request(self) -> Request {
        match self.failure {
            Some(error) => Request::Failed(error),
            None => if self.position >= self.words.len() {
                Request::Finished
            } else if self.awaiting {
                Request::Read
            } else {
                Request::Send(self.words[self.position as int])
            },
        }
    }

    /// The state after a send ended with `outcome`. Unless a send was
    /// requested, nothing changes.
    pub open spec fn sent(self, outcome: Result<(), NbError>) -> Progress {
        if self.request() is Send {
            match outcome {
                Ok(_) => Progress { awaiting: true, ..self },
                Err(NbError::WouldBlock) => self,
                Err(NbError::Other(error)) => Progress { failure: Some(error), ..self },
            }
        } else {
            self
        }
    }

    /// The state after a read ended with `outcome`. Unless a read was
    /// requested, nothing changes.
    pub open spec fn received(self, outcome: Result<u8, NbError>) -> Progress {
        if self.request() is Read {
            match outcome {
                Ok(byte) => Progress {
                    words: if self.keep {
                        self.words.update(self.position as int, byte)
                    } else {
                        self.words
                    },
                    position: self.position + 1,
                    awaiting: false,
                    ..self
                },
                Err(NbError::WouldBlock) => self,
                Err(NbError::Other(error)) => Progress { failure: Some(error), ..self },
            }
        } else {
            self
        }
    }

    /// The state after one reply.
    pub open spec fn after(self, reply: Reply) -> Progress {
        match reply {
            Reply::Sent(outcome) => self.sent(outcome),
            Reply::Received(outcome) => self.received(outcome),
        }
    }

    /// The state after a run of replies, first to last.
    pub open spec fn after_all(self, replies: Seq<Reply>) -> Progress
        decreases replies.len(),
    {
        if replies.len() == 0 {
            self
        } else {
            self.after(replies[0]).after_all(replies.subrange(1, replies.len() as int))
        }
    }

    /// Whether `reply` is what a bus without faults, whose data-out line is
    /// wired to its data-in line, can answer to the pending request: a send is
    /// accepted or put off, and a read is put off or gives the byte that was
    /// sent last.
    pub open spec fn looped_back(self, reply: Reply) -> bool {
        match self.request() {
            Request::Send(_) => reply == Reply::Sent(Ok(())) || reply == Reply::Sent(
                Err(NbError::WouldBlock),
            ),
            Request::Read => reply == Reply::Received(Ok(self.words[self.position as int]))
                || reply == Reply::Received(Err(NbError::WouldBlock)),
            Request::Finished => false,
            Request::Failed(_) => false,
        }
    }

    /// Whether a whole run of replies could have come from such a bus.
    pub open spec fn all_looped_back(self, replies: Seq<Reply>) -> bool
        decreases replies.len(),
    {
        replies.len() == 0 || (self.looped_back(replies[0]) && self.after(
            replies[0],
        ).all_looped_back(replies.subrange(1, replies.len() as int)))
    }

    /// The replies of such a bus that never puts the caller off, for the words
    /// from place `from` on: each send is accepted and each read gives the
    /// byte just sent.
    pub open spec fn echo(words: Seq<u8>, from: nat) -> Seq<Reply>
        decreases words.len() - from,
    {
        if from >= words.len() {
            Seq::<Reply>::empty()
        } else {
            seq![Reply::Sent(Ok(())), Reply::Received(Ok(words[from as int]))] + Progress::echo(
                words,
                from + 1,
            )
        }
    }

    /// Number of accepted accesses that are still to come.
    pub open spec fn remaining(self) -> int {
        2 * (self.words.len() - self.position) - if self.awaiting {
            1int
        } else {
            0int
        }
    }
}

/// A blocking exchange in progress.
pub struct Exchange {
    words: Vec<u8>,
    position: usize,
    awaiting: bool,
    keep: bool,
    failure: Option<Error>,
}

impl View for Exchange {
    type V = Progress;

    closed spec fn view(&self) -> Progress {
        Progress {
            words: self.words@,
            position: self.position as nat,
            awaiting: self.awaiting,
            keep: self.keep,
            failure: self.failure,
        }
    }
}

impl Exchange {
    /// Begins a transfer: each word is sent, and the byte that comes back
    /// takes its place.
    pub fn transfer(words: Vec<u8>) -> (exchange: Exchange)
        ensures
            exchange@ == Progress::start(words@, true),
            exchange@.well_formed(),
    {
        Exchange { words, position: 0, awaiting: false, keep: true, failure: None }
    }

    /// Begins a write: each word is sent, and the byte that comes back is
    /// read and dropped.
    pub fn write(words: Vec<u8>) -> (exchange: Exchange)
        ensures
            exchange@ == Progress::start(words@, false),
            exchange@.well_formed(),
    {
        Exchange { words, position: 0, awaiting: false, keep: false, failure: None }
    }

    /// The access that comes next.
    pub fn request(&self) -> (request: Request)
        ensures
            request == self@.request(),
    {
        match self.failure {
            Some(error) => Request::Failed(error),
            None => if self.position >= self.words.len() {
                Request::Finished
            } else if self.awaiting {
                Request::Read
            } else {
                Request::Send(self.words[self.position])
            },
        }
    }

    /// Reports how the requested send ended.
    pub fn sent(&mut self, outcome: Result<(), NbError>)
        ensures
            final(self)@ == old(self)@.sent(outcome),
            old(self)@.well_formed() ==> final(self)@.well_formed(),
    {
        if self.failure.is_none() && self.position < self.words.len() && !self.awaiting {
            match outcome {
                Ok(_) => {
                    self.awaiting = true;
                },
                Err(NbError::WouldBlock) => {},
                Err(NbError::Other(error)) => {
                    self.failure = Some(error);
                },
            }
        }
    }

    /// Reports how the requested read ended.
    pub fn received(&mut self, outcome: Result<u8, NbError>)
        ensures
            final(self)@ == old(self)@.received(outcome),
            old(self)@.well_formed() ==> final(self)@.well_formed(),
    {
        if self.failure.is_none() && self.position < self.words.len() && self.awaiting {
            match outcome {
                Ok(byte) => {
                    if self.keep {
                        self.words.set(self.position, byte);
                    }
                    self.awaiting = false;
                    self.position = self.position + 1;
                },
                Err(NbError::WouldBlock) => {},
                Err(NbError::Other(error)) => {
                    self.failure = Some(error);
                },
            }
        }
    }

    /// Ends the exchange and hands the buffer out, as it stands.
    pub fn into_words(self) -> (words: Vec<u8>)
        ensures
            words@ == self@.words,
    {
        self.words
    }
}

/// "Would block" is a retry: such a reply changes nothing, so the same access
/// is requested again.
pub proof fn lemma_would_block_changes_nothing(state: Progress)
    ensures
        state.sent(Err(NbError::WouldBlock)) == state,
        state.received(Err(NbError::WouldBlock)) == state,
{
}

/// An error is final: the first failed access ends the exchange with its
/// error, and no later reply changes the state.
pub proof fn lemma_failure_is_final(state: Progress, error: Error, reply: Reply)
    ensures
        state.request() is Send ==> state.sent(Err(NbError::Other(error))).request()
            == Request::Failed(error),
        state.request() is Read ==> state.received(Err(NbError::Other(error))).request()
            == Request::Failed(error),
        state.failure is Some ==> state.after(reply) == state,
{
}

/// Words go out one at a time: a word that has been sent is answered before
/// the next one is sent, and an accepted access brings the end one step
/// nearer.
pub proof fn lemma_one_word_at_a_time(state: Progress, byte: u8)
    requires
        state.well_formed(),
    ensures
        state.request() is Send ==> {
            &&& state.request() == Request::Send(state.words[state.position as int])
            &&& state.sent(Ok(())).request() == Request::Read
            &&& state.sent(Ok(())).position == state.position
            &&& state.sent(Ok(())).remaining() == state.remaining() - 1
        },
        state.request() is Read ==> {
            &&& state.received(Ok(byte)).position == state.position + 1
            &&& state.received(Ok(byte)).request() !is Read
            &&& state.received(Ok(byte)).remaining() == state.remaining() - 1
            &&& state.keep ==> state.received(Ok(byte)).words[state.position as int] == byte
        },
        state.request() is Finished <==> state.failure is None && state.remaining() == 0,
{
}

/// Whatever the replies, an exchange stays well formed, never moves back,
/// keeps the length of its buffer, and leaves alone every word whose turn has
/// not come: the byte sent for a place is the byte the caller put there.
pub proof fn lemma_unsent_words_are_untouched(state: Progress, replies: Seq<Reply>)
    requires
        state.well_formed(),
    ensures
        ({
            let end = state.after_all(replies);
            &&& end.well_formed()
            &&& end.keep == state.keep
            &&& end.words.len() == state.words.len()
            &&& end.position >= state.position
            &&& forall|i: int|
                end.position <= i < end.words.len() ==> end.words[i] == state.words[i]
        }),
    decreases replies.len(),
{
    if replies.len() > 0 {
        lemma_unsent_words_are_untouched(
            state.after(replies[0]),
            replies.subrange(1, replies.len() as int),
        );
    }
}

/// A write never alters its buffer.
pub proof fn lemma_write_keeps_the_words(state: Progress, replies: Seq<Reply>)
    requires
        !state.keep,
    ensures
        state.after_all(replies).words == state.words,
    decreases replies.len(),
{
    if replies.len() > 0 {
        lemma_write_keeps_the_words(
            state.after(replies[0]),
            replies.subrange(1, replies.len() as int),
        );
    }
}

/// Round trip: on a bus without faults whose data-out line is wired to its
/// data-in line, an exchange never fails and its buffer holds, at every
/// moment and so at the end, the bytes it held before, in their order. This
/// holds however often the bus makes the caller try again.
pub proof fn lemma_loopback_keeps_the_words(state: Progress, replies: Seq<Reply>)
    requires
        state.well_formed(),
        state.failure is None,
        state.all_looped_back(replies),
    ensures
        state.after_all(replies).words == state.words,
        state.after_all(replies).failure is None,
        state.after_all(replies).well_formed(),
    decreases replies.len(),
{
    if replies.len() > 0 {
        let next = state.after(replies[0]);
        assert(next.words =~= state.words);
        lemma_loopback_keeps_the_words(next, replies.subrange(1, replies.len() as int));
    }
}

/// On such a bus that never puts the caller off, an exchange that stands
/// before a send runs to its end: the replies are those of a looped-back bus,
/// and after them the exchange is finished.
pub proof fn lemma_echo_finishes(state: Progress)
    requires
        state.well_formed(),
        state.failure is None,
        !state.awaiting,
    ensures
        state.all_looped_back(Progress::echo(state.words, state.position)),
        state.after_all(Progress::echo(state.words, state.position)).request()
            == Request::Finished,
    decreases state.words.len() - state.position,
{
    let replies = Progress::echo(state.words, state.position);
    if state.position < state.words.len() {
        let byte = state.words[state.position as int];
        let sent = state.after(Reply::Sent(Ok(())));
        let answered = sent.after(Reply::Received(Ok(byte)));
        let rest = Progress::echo(state.words, state.position + 1);
        let tail = replies.subrange(1, replies.len() as int);
        assert(answered.words =~= state.words);
        assert(replies[0] == Reply::Sent(Ok(())));
        assert(tail[0] == Reply::Received(Ok(byte)));
        assert(tail.subrange(1, tail.len() as int) =~= rest);
        lemma_echo_finishes(answered);
        assert(sent.all_looped_back(tail));
        assert(sent.after_all(tail) == answered.after_all(rest));
    }
}

/// Round trip of a whole transfer: `words` pushed through a transfer on a bus
/// without faults whose data-out line is wired to its data-in line come back
/// as they went out, in their order. However the bus puts the caller off, the
/// transfer does not fail, and once every word has been accepted and answered
/// it is finished; on a bus that never puts the caller off it is finished
/// after one send and one read for each word.
pub proof fn lemma_loopback_round_trip(words: Seq<u8>, replies: Seq<Reply>)
    requires
        Progress::start(words, true).all_looped_back(replies),
    ensures
        ({
            let end = Progress::start(words, true).after_all(replies);
            &&& end.words == words
            &&& end.request() !is Failed
            &&& end.remaining() == 0 ==> end.request() == Request::Finished
        }),
        ({
            let start = Progress::start(words, true);
            let echo = Progress::echo(words, 0);
            &&& start.all_looped_back(echo)
            &&& start.after_all(echo).request() == Request::Finished
            &&& start.after_all(echo).words == words
        }),
{
    let start = Progress::start(words, true);
    lemma_loopback_keeps_the_words(start, replies);
    lemma_echo_finishes(start);
    lemma_loopback_keeps_the_words(start, Progress::echo(words, 0));
}

} // verus!
