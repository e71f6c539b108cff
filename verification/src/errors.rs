//! A simple error type which allows chaining of errors.
//!
//! An [`Error`] carries a human-readable message and, optionally, an owned
//! cause; the causes form a finite chain, modelled here as the sequence of
//! their messages, top-level message first.

use vstd::prelude::*;
use vstd::string::StringExecFns;

use crate::decimal::dec_str;
use crate::decimal::dec_string;

verus! {

/// One line of a report's "caused by:" section: the cause's position in
/// the chain, then its message.
pub open spec fn indexed_line(index: nat, message: Seq<char>) -> Seq<char> {
    "  - "@ + dec_str(index) + ": "@ + message + "\n"@
}

/// The "caused by:" lines for the given cause messages, numbered from
/// `index` upward, one line per cause.
pub open spec fn caused_lines(causes: Seq<Seq<char>>, index: nat) -> Seq<char>
    decreases causes.len(),
{
    if causes.len() == 0 {
        Seq::empty()
    } else {
        indexed_line(index, causes[0]) + caused_lines(causes.skip(1), index + 1)
    }
}

/// The full report text for a chain of messages: the top-level message
/// alone when there is no cause; otherwise the top-level message, a
/// "caused by:" header, and one indexed line per cause, proximate cause
/// first.
pub open spec fn report_chars(chain: Seq<Seq<char>>) -> Seq<char> {
    if chain.len() <= 1 {
        chain[0]
    } else {
        chain[0] + "\ncaused by:\n"@ + caused_lines(chain.skip(1), 0)
    }
}

/// A simple error implementation which allows chaining of errors.
#[derive(Debug)]
pub struct Error {
    value: String,
    source: Option<Box<Error>>,
}

impl Error {
    /// The chain of messages carried by this error: the top-level message
    /// followed by the message of each cause, ending at the root cause.
    pub closed spec fn chain(self) -> Seq<Seq<char>>
        decreases self,
    {
        match self.source {
            None => seq![self.value@],
            Some(cause) => seq![self.value@] + cause.chain(),
        }
    }

    /// A chain always holds at least the top-level message.
    pub proof fn lemma_chain_nonempty(self)
        ensures
            self.chain().len() >= 1,
        decreases self,
    {
        match self.source {
            None => {},
            Some(cause) => cause.lemma_chain_nonempty(),
        }
    }
}

impl View for Error {
    type V = Seq<Seq<char>>;

    open spec fn view(&self) -> Seq<Seq<char>> {
        self.chain()
    }
}

impl Error {
    /// Builds an error with no cause from its message.
    pub fn from_message(value: String) -> (e: Error)
        ensures
            e@ == seq![value@],
    {
        Error { value, source: None }
    }

    /// The top-level message, exactly as the error was constructed with.
    pub fn message(&self) -> (r: &String)
        ensures
            r@ == self@[0],
    {
        &self.value
    }

    /// The direct cause, if the error wraps one.
    pub fn source(&self) -> (r: Option<&Error>)
        ensures
            match r {
                Some(cause) => self@.len() > 1 && cause@ == self@.skip(1),
                None => self@.len() == 1,
            },
    {
        match &self.source {
            Some(cause) => {
                proof {
                    cause.lemma_chain_nonempty();
                    assert(self.chain().skip(1) =~= cause.chain());
                }
                Some(&**cause)
            },
            None => None,
        }
    }
}

/// A borrowed view of an [`Error`] that renders the whole cause chain,
/// not only the top-level message.
pub struct ErrorReport<'a>(&'a Error);

impl<'a> View for ErrorReport<'a> {
    type V = Seq<Seq<char>>;

    closed spec fn view(&self) -> Seq<Seq<char>> {
        self.0.chain()
    }
}

impl Error {
    /// A reporter for this error's whole cause chain.
    pub fn report(&self) -> (r: ErrorReport<'_>)
        ensures
            r@ == self@,
    {
        ErrorReport(self)
    }
}

impl<'a> ErrorReport<'a> {
    /// Renders the report: the top-level message and, when the error wraps
    /// a cause, a "caused by:" section with one indexed line per cause,
    /// proximate cause first, exactly as [`report_chars`] states.
    pub fn to_string(&self) -> (r: String)
        requires
            self@.len() <= usize::MAX as nat,
        ensures
            r@ == report_chars(self@),
    {
        let mut out: String = self.0.value.clone();
        match &self.0.source {
            None => {},
            Some(first) => {
                proof {
                    first.lemma_chain_nonempty();
                    assert(first.chain() =~= self@.skip(1));
                }
                out.append("\ncaused by:\n");
                let mut index: usize = 0;
                let mut cur: &Error = &**first;
                proof {
                    assert(out@ + caused_lines(cur.chain(), 0) =~= report_chars(self@));
                }
                loop
                    invariant_except_break
                        out@ + caused_lines(cur.chain(), index as nat) == report_chars(self@),
                    invariant
                        index as nat + cur.chain().len() + 1 == self@.len(),
                        self@.len() <= usize::MAX as nat,
                    ensures
                        out@ == report_chars(self@),
                    decreases cur.chain().len(),
                {
                    proof {
                        cur.lemma_chain_nonempty();
                    }
                    out.append("  - ");
                    let num = dec_string(index);
                    out.append(num.as_str());
                    out.append(": ");
                    out.append(cur.value.as_str());
                    out.append("\n");
                    match &cur.source {
                        Some(next) => {
                            proof {
                                next.lemma_chain_nonempty();
                                assert(cur.chain().skip(1) =~= next.chain());
                                assert(out@ + caused_lines(next.chain(), index as nat + 1)
                                    =~= report_chars(self@));
                            }
                            index += 1;
                            cur = &**next;
                        },
                        None => {
                            proof {
                                assert(caused_lines(cur.chain().skip(1), index as nat + 1)
                                    =~= Seq::<char>::empty());
                                assert(out@ =~= report_chars(self@));
                            }
                            break ;
                        },
                    }
                }
            },
        }
        out
    }
}

impl From<String> for Error {
    /// Builds an error with no cause from its message.
    fn from(value: String) -> (e: Error) {
        Error { value, source: None }
    }
}

impl vstd::std_specs::convert::FromSpecImpl<String> for Error {
    open spec fn obeys_from_spec() -> bool {
        true
    }

    closed spec fn from_spec(value: String) -> Error {
        Error { value, source: None }
    }
}

/// What converting a message into an error yields: a chain holding
/// exactly that message.
pub proof fn lemma_error_from_string(value: String)
    ensures
        <Error as vstd::std_specs::convert::FromSpec<String>>::from_spec(value).chain()
            == seq![value@],
{
}

/// Chains a fallible outcome with a higher-level message.
pub trait Context<T>: Sized {
    /// The wrapped success value, when the outcome is a success.
    spec fn ok_model(self) -> Option<T>;

    /// The message chain of the wrapped failure, when the outcome is a
    /// failure.
    spec fn err_model(self) -> Seq<Seq<char>>;

    /// Keeps a success unchanged; wraps a failure as the cause of a new
    /// error whose top-level message is `message`.
    fn context(self, message: String) -> (r: Result<T, Error>)
        ensures
            match self.ok_model() {
                Some(v) => r is Ok && r->Ok_0 == v,
                None => r is Err && r->Err_0@ == seq![message@] + self.err_model(),
            },
    ;

    /// As [`Context::context`], with the message computed only on the
    /// failure path.
    fn with_context<F: FnOnce() -> String>(self, message: F) -> (r: Result<T, Error>)
        requires
            self.ok_model() is None ==> call_requires(message, ()),
        ensures
            match self.ok_model() {
                Some(v) => r is Ok && r->Ok_0 == v,
                None => r is Err && exists|m: String|
                    call_ensures(message, (), m) && r->Err_0@ == seq![m@] + self.err_model(),
            },
    ;
}

impl<T> Context<T> for Result<T, Error> {
    open spec fn ok_model(self) -> Option<T> {
        match self {
            Ok(v) => Some(v),
            Err(_) => None,
        }
    }

    open spec fn err_model(self) -> Seq<Seq<char>> {
        match self {
            Ok(_) => Seq::empty(),
            Err(e) => e.chain(),
        }
    }

    fn context(self, message: String) -> (r: Result<T, Error>) {
        match self {
            Ok(v) => Ok(v),
            Err(error) => Err(Error { value: message, source: Some(Box::new(error)) }),
        }
    }

    fn with_context<F: FnOnce() -> String>(self, message: F) -> (r: Result<T, Error>) {
        match self {
            Ok(v) => Ok(v),
            Err(error) => {
                let m = message();
                let wrapped: Result<T, Error> = Err(
                    Error { value: m, source: Some(Box::new(error)) },
                );
                proof {
                    assert(call_ensures(message, (), m));
                    assert(wrapped->Err_0@ == seq![m@] + error.chain());
                }
                wrapped
            },
        }
    }
}

/// What bailing with a message yields: an error chain holding exactly
/// that message.
pub open spec fn bail_chain(message: Seq<char>) -> Seq<Seq<char>> {
    seq![message]
}

/// An immediate failure carrying `message`; the caller hands it upward,
/// usually with the question-mark operator.
pub fn bail<T>(message: &str) -> (r: Result<T, Error>)
    ensures
        r is Err,
        r->Err_0@ == bail_chain(message@),
{
    Err(Error::from_message(message.to_owned()))
}

/// Checks a condition: when it fails, bails with `message`; when it
/// holds, succeeds with no further effect.
pub fn ensure(condition: bool, message: &str) -> (r: Result<(), Error>)
    ensures
        condition <==> r is Ok,
        !condition ==> r->Err_0@ == bail_chain(message@),
{
    if condition {
        Ok(())
    } else {
        bail(message)
    }
}

/// A failed check behaves exactly as bailing with the same message: any
/// outcome of `ensure` on a false condition and any outcome of `bail`
/// carry one and the same error chain.
pub proof fn lemma_ensure_false_is_bail(
    r1: Result<(), Error>,
    r2: Result<(), Error>,
    message: &str,
)
    requires
        call_ensures(ensure, (false, message), r1),
        call_ensures(bail::<()>, (message,), r2),
    ensures
        r1 is Err,
        r2 is Err,
        r1->Err_0@ == r2->Err_0@,
{
}

/// A passed check has no observable effect: any outcome of `ensure` on a
/// true condition is a plain success.
pub proof fn lemma_ensure_true_no_effect(r: Result<(), Error>, message: &str)
    requires
        call_ensures(ensure, (true, message), r),
    ensures
        r is Ok,
{
}

/// Wrapping an error and reporting the result shows both parties: the
/// report of a chain that opens with the wrapping message `m` begins with
/// `m` itself (the first line, up to the header that follows), and the
/// first line of its "caused by:" section carries index zero and the
/// wrapped error's own display text, the proximate cause's message.
pub proof fn lemma_report_shows_cause(m: Seq<char>, cause: Seq<Seq<char>>)
    requires
        cause.len() >= 1,
    ensures
        report_chars(seq![m] + cause) == m + "\ncaused by:\n"@ + indexed_line(0, cause[0])
            + caused_lines(cause.skip(1), 1),
        report_chars(seq![m] + cause).subrange(0, m.len() as int) == m,
{
    let chain = seq![m] + cause;
    assert(chain.skip(1) =~= cause);
    assert(report_chars(chain) =~= m + "\ncaused by:\n"@ + indexed_line(0, cause[0])
        + caused_lines(cause.skip(1), 1));
    assert(report_chars(chain).subrange(0, m.len() as int) =~= m);
}

/// The "caused by:" lines for the causes `rest`, numbered from `start`,
/// are exactly one line per cause, in order: the concatenation of
/// `indexed_line(start + i, rest[i])` over all positions i.
pub proof fn lemma_caused_lines_indexed(rest: Seq<Seq<char>>, start: nat)
    ensures
        caused_lines(rest, start) == Seq::new(
            rest.len(),
            |i: int| indexed_line((start + i) as nat, rest[i]),
        ).flatten(),
    decreases rest.len(),
{
    let mapped = Seq::new(rest.len(), |i: int| indexed_line((start + i) as nat, rest[i]));
    if rest.len() == 0 {
        assert(caused_lines(rest, start) =~= mapped.flatten());
    } else {
        lemma_caused_lines_indexed(rest.skip(1), start + 1);
        assert(mapped.drop_first() =~= Seq::new(
            rest.skip(1).len(),
            |i: int| indexed_line((start + 1 + i) as nat, rest.skip(1)[i]),
        ));
        assert(caused_lines(rest, start) =~= mapped.flatten());
    }
}

/// Reporting a chain with n wrapped causes produces exactly n indexed
/// "caused by" lines, in order from the most proximate cause to the root:
/// line i of the section is `indexed_line(i, chain[i + 1])`.
pub proof fn lemma_report_line_per_cause(chain: Seq<Seq<char>>)
    requires
        chain.len() >= 2,
    ensures
        report_chars(chain) == chain[0] + "\ncaused by:\n"@ + Seq::new(
            (chain.len() - 1) as nat,
            |i: int| indexed_line(i as nat, chain[i + 1]),
        ).flatten(),
{
    lemma_caused_lines_indexed(chain.skip(1), 0);
    assert(Seq::new(chain.skip(1).len(), |i: int| indexed_line((0 + i) as nat, chain.skip(1)[i]))
        =~= Seq::new((chain.len() - 1) as nat, |i: int| indexed_line(i as nat, chain[i + 1])));
}

/// The diagnostic directive that shows `message` as a warning through the
/// build tool's output channel; a build script prints the returned line.
pub fn warn_line(message: &str) -> (r: String)
    ensures
        r@ == "cargo:warning="@ + message@,
{
    let mut out: String = "cargo:warning=".to_owned();
    out.append(message);
    out
}

} // verus!
