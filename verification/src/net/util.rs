//! I/O error conventions of the runtime.

use vstd::prelude::*;
use crate::task::Poll;

verus! {

#[verifier::external_type_specification]
#[verifier::external_body]
pub struct ExIoError(std::io::Error);

/// The kinds of I/O error that the runtime tells apart.
#[derive(Clone, Copy, Debug, PartialEq, Eq)]
pub enum ErrorKind {
    /// The operation would block on a non-blocking socket.
    WouldBlock,
    /// A parameter was incorrect (for instance, an address resolved to nothing).
    InvalidInput,
    /// Any other kind of failure.
    Other,
}

/// The kind that `std::io::Error::kind` reports for an error, as one of [`ErrorKind`].
pub uninterp spec fn io_error_kind(err: std::io::Error) -> ErrorKind;

/// The text that an error built from a message displays (`to_string`): that
/// message. Nothing is claimed of the text of other errors, such as those from
/// the operating system.
pub uninterp spec fn io_error_text(err: std::io::Error) -> Seq<char>;

/// Calls `std::io::Error::kind` and tells `WouldBlock` and `InvalidInput` apart from
/// every other kind. The contract claims only that the result is the error's kind,
/// read through the name `io_error_kind`.
#[verifier::external_body]
fn error_kind(err: &std::io::Error) -> (kind: ErrorKind)
    ensures
        kind == io_error_kind(*err),
{
    match err.kind() {
        std::io::ErrorKind::WouldBlock => ErrorKind::WouldBlock,
        std::io::ErrorKind::InvalidInput => ErrorKind::InvalidInput,
        _ => ErrorKind::Other,
    }
}

/// Calls `std::io::Error::new` with the `std::io::ErrorKind` that `kind` stands for
/// and the message `msg`. The contract claims that the new error reports that kind
/// and displays exactly `msg`, as std documents for an error built from a string.
#[verifier::external_body]
fn new_io_error(kind: ErrorKind, msg: &str) -> (err: std::io::Error)
    ensures
        io_error_kind(err) == kind,
        io_error_text(err) == msg@,
{
    let std_kind = match kind {
        ErrorKind::WouldBlock => std::io::ErrorKind::WouldBlock,
        ErrorKind::InvalidInput => std::io::ErrorKind::InvalidInput,
        ErrorKind::Other => std::io::ErrorKind::Other,
    };
    std::io::Error::new(std_kind, msg)
}

/// Whether an I/O result is a failure that only means "try again once ready".
pub open spec fn is_would_block<T>(result: Result<T, std::io::Error>) -> bool {
    match result {
        Ok(_) => false,
        Err(err) => io_error_kind(err) == ErrorKind::WouldBlock,
    }
}

/// Converts the result of a non-blocking I/O call into a poll result: a
/// `WouldBlock` failure means "pending", anything else is ready as it is.
pub fn may_block<T>(result: Result<T, std::io::Error>) -> (polled: Poll<Result<T, std::io::Error>>)
    ensures
        polled == (if is_would_block(result) {
            Poll::Pending
        } else {
            Poll::Ready(result)
        }),
{
    match result {
        Ok(value) => Poll::Ready(Ok(value)),
        Err(err) => {
            match error_kind(&err) {
                ErrorKind::WouldBlock => Poll::Pending,
                _ => Poll::Ready(Err(err)),
            }
        },
    }
}


/// Whether `err` is the error that [`resolve_none`] builds: invalid input,
/// explaining that no address could be resolved.
pub open spec fn is_resolve_none(err: std::io::Error) -> bool {
    &&& io_error_kind(err) == ErrorKind::InvalidInput
    &&& io_error_text(err) == "could not resolve to any valid addresses"@
}

/// Constructs the "invalid input" error returned when an address resolves to
/// no socket address at all.
pub fn resolve_none() -> (err: std::io::Error)
    ensures
        is_resolve_none(err),
{
    new_io_error(ErrorKind::InvalidInput, "could not resolve to any valid addresses")
}

/// Settles a freshly opened socket by the pending error it reports
/// (`take_error`): no pending error keeps the socket, a pending error or a
/// failure to read it rejects the socket with that error.
pub fn settle_socket<S>(socket: S, taken: Result<Option<std::io::Error>, std::io::Error>) -> (settled: Result<S, std::io::Error>)
    ensures
        settled == (match taken {
            Ok(None) => Ok(socket),
            Ok(Some(err)) => Err(err),
            Err(err) => Err(err),
        }),
{
    match taken {
        Ok(None) => Ok(socket),
        Ok(Some(err)) => Err(err),
        Err(err) => Err(err),
    }
}

/// The address a datagram is sent to: the first one that the destination
/// resolves to, or the [`resolve_none`] error when it resolves to none.
pub fn first_address<A>(first: Option<A>) -> (addr: Result<A, std::io::Error>)
    ensures
        match first {
            Some(a) => addr is Ok && addr->Ok_0 == a,
            None => addr is Err && is_resolve_none(addr->Err_0),
        },
{
    match first {
        Some(a) => Ok(a),
        None => Err(resolve_none()),
    }
}

/// The outcome of trying a sequence of addresses one after another, starting
/// with `last` as the most recent failure: the value of the first attempt that
/// succeeds, or else the most recent failure (none if nothing failed).
pub open spec fn attempts_outcome<T>(last: Option<std::io::Error>, results: Seq<Result<T, std::io::Error>>) -> Result<T, Option<std::io::Error>>
    decreases results.len(),
{
    if results.len() == 0 {
        Err(last)
    } else {
        match results[0] {
            Ok(v) => Ok(v),
            Err(err) => attempts_outcome(Some(err), results.drop_first()),
        }
    }
}

/// Bookkeeping of the loop that binds or connects a socket to each resolved
/// address in turn: it remembers the most recent failure, and the first success
/// ends the loop.
pub struct AddrAttempts {
    last_error: Option<std::io::Error>,
}

impl AddrAttempts {
    /// The most recent failure seen so far.
    pub closed spec fn last_error(&self) -> Option<std::io::Error> {
        self.last_error
    }

    /// Starts a loop in which nothing has been tried yet.
    pub fn new() -> (attempts: Self)
        ensures
            attempts.last_error() is None,
    {
        AddrAttempts { last_error: None }
    }

    /// Records the result of trying one address. A success is handed back as
    /// the loop's result; a failure becomes the most recent failure and the loop
    /// goes on with the next address.
    pub fn record<T>(&mut self, result: Result<T, std::io::Error>) -> (done: Option<Result<T, std::io::Error>>)
        ensures
            match result {
                Ok(v) => {
                    &&& done is Some && done->0 is Ok && done->0->Ok_0 == v
                    &&& final(self).last_error() == old(self).last_error()
                },
                Err(err) => {
                    &&& done is None
                    &&& final(self).last_error() == Some(err)
                },
            },
    {
        match result {
            Ok(v) => Some(Ok(v)),
            Err(err) => {
                self.last_error = Some(err);
                None
            },
        }
    }

    /// Ends a loop in which no address succeeded: the most recent failure, or
    /// the [`resolve_none`] error when no address was tried at all.
    pub fn finish<T>(self) -> (result: Result<T, std::io::Error>)
        ensures
            match self.last_error() {
                Some(err) => result is Err && result->Err_0 == err,
                None => result is Err && is_resolve_none(result->Err_0),
            },
    {
        match self.last_error {
            Some(err) => Err(err),
            None => Err(resolve_none()),
        }
    }
}

/// Law of the address loop: [`AddrAttempts::record`] and [`AddrAttempts::finish`]
/// follow the outcome step by step. Recording a success ends the loop with its
/// value; recording a failure makes it the most recent one for the attempts that
/// remain; with no attempt left the outcome is the most recent failure.
pub proof fn lemma_attempts_step<T>(
    last: Option<std::io::Error>,
    result: Result<T, std::io::Error>,
    rest: Seq<Result<T, std::io::Error>>,
)
    ensures
        attempts_outcome::<T>(last, Seq::empty()) is Err && attempts_outcome::<T>(last, Seq::empty())->Err_0 == last,
        attempts_outcome(last, seq![result] + rest) == (match result {
            Ok(v) => Ok(v),
            Err(err) => attempts_outcome(Some(err), rest),
        }),
{
    assert((seq![result] + rest).drop_first() =~= rest);
}

/// Law of the address loop: when the attempt at position `i` is the first one
/// that succeeds, the loop yields exactly its value.
pub proof fn lemma_attempts_yield_first_success<T>(
    last: Option<std::io::Error>,
    results: Seq<Result<T, std::io::Error>>,
    i: int,
)
    requires
        0 <= i < results.len(),
        results[i] is Ok,
        forall|j: int| 0 <= j < i ==> results[j] is Err,
    ensures
        attempts_outcome(last, results) is Ok && attempts_outcome(last, results)->Ok_0 == results[i]->Ok_0,
    decreases i,
{
    if i > 0 {
        let rest = results.drop_first();
        assert forall|j: int| 0 <= j < i - 1 implies rest[j] is Err by {
            assert(rest[j] == results[j + 1]);
        }
        lemma_attempts_yield_first_success(Some(results[0]->Err_0), rest, i - 1);
    }
}

/// Law of the address loop: when every attempt fails, the loop yields the
/// failure of the last address tried (or the earlier failure `last` when there
/// was nothing to try).
pub proof fn lemma_attempts_yield_last_failure<T>(
    last: Option<std::io::Error>,
    results: Seq<Result<T, std::io::Error>>,
)
    requires
        forall|j: int| 0 <= j < results.len() ==> results[j] is Err,
    ensures
        attempts_outcome(last, results) is Err,
        attempts_outcome(last, results)->Err_0 == (if results.len() == 0 { last } else { Some(results.last()->Err_0) }),
    decreases results.len(),
{
    if results.len() > 0 {
        let rest = results.drop_first();
        assert forall|j: int| 0 <= j < rest.len() implies rest[j] is Err by {
            assert(rest[j] == results[j + 1]);
        }
        lemma_attempts_yield_last_failure(Some(results[0]->Err_0), rest);
        if rest.len() > 0 {
            assert(rest.last() == results.last());
        }
    }
}

} // verus!
