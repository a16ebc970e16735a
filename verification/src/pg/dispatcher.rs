//! The dispatcher: takes the surrogate transactions that come in for one
//! storage engine, has each replayed and prepared there, and votes on it.
//!
//! The dispatcher decides; a driver runs the loop. For each message the
//! driver calls `handle`, performs the request that a started transaction
//! comes with, and calls `conclude` with what it saw, again after each
//! request that `conclude` hands out. Every surrogate transaction gets
//! exactly one vote: from `handle` where it is rejected, else from
//! `conclude`.
//! What is sent, and on which channel, is decided by `receive` and
//! `resolve`; `handle` and `conclude` send it.

use crate::buffer::bytes_seq;
use crate::format::decode_transaction;
use crate::channel::send;
use crate::pg::xact_controller::{
    ControllerView, PgXactController, Phase, Step, StepView, StorageReport, StorageRequest,
    StorageRequestView, SurrogateView, XactError, MAX_ATTEMPTS,
};
use crate::text::{
    decimal, digit_value, lemma_decimal_is_read_back, lemma_port_is_read_back, parse_u16, u16_of,
};
use crate::{XactId, XsMessage};
use bytes::Bytes;
use tokio::sync::oneshot::Sender;
use vstd::prelude::*;
use vstd::string::{StrSliceExecFns, StringExecFns};

verus! {

/// Where the first colon at or after `from` stands in `s`, or the length
/// of `s` where there is none.
pub open spec fn colon_from(s: Seq<char>, from: int) -> int
    decreases s.len() - from,
{
    if from < 0 || from >= s.len() {
        s.len() as int
    } else if s[from] == ':' {
        from
    } else {
        colon_from(s, from + 1)
    }
}

/// The host and port that an address names. An address is a host, a
/// colon and a port in decimal; what follows a second colon is ignored.
pub open spec fn endpoint_of(addr: Seq<char>) -> Option<(Seq<char>, u16)> {
    let first = colon_from(addr, 0);
    if first >= addr.len() {
        None
    } else {
        let second = colon_from(addr, first + 1);
        match u16_of(addr.subrange(first + 1, second)) {
            Some(port) => Some((addr.subrange(0, first), port)),
            None => None,
        }
    }
}

/// Why a surrogate transaction was voted down before anything ran.
#[derive(Clone, Copy, Debug, PartialEq, Eq)]
pub enum Rejection {
    /// The dispatcher's address names no host and port.
    NoEndpoint,
    /// The surrogate refused to start, for the fault given: its
    /// change-set does not decode.
    Refused(XactError),
}

/// The surrogate that the dispatcher starts for a transaction, or why it
/// starts none.
pub open spec fn admission(addr: Seq<char>, xact_id: XactId, data: Seq<u8>) -> Result<
    SurrogateView,
    Rejection,
> {
    match endpoint_of(addr) {
        None => Err(Rejection::NoEndpoint),
        Some((host, port)) => {
            let fresh = SurrogateView::fresh(xact_id, host, port, data);
            match fresh.execute_fault() {
                Some(fault) => Err(Rejection::Refused(fault)),
                None => Ok(fresh.after_execute()),
            }
        },
    }
}

/// The vote that follows from a report: yes where the report says that
/// the storage engine accepted the prepare of a replay, no for every other
/// report that ends the replay and for every other controller.
pub open spec fn vote_of(before: ControllerView, report: StorageReport) -> bool {
    &&& before matches ControllerView::Surrogate(s)
    &&& s.phase is Preparing
    &&& report is Accepted
}

/// What the dispatcher makes of a message, before anything is sent.
pub enum Reception {
    /// The message is none for the dispatcher.
    Ignored,
    /// The transaction is voted down: `vote` is to be sent on `vote_tx`.
    Reject { reason: Rejection, vote_tx: Sender<bool>, vote: bool },
    /// The transaction is started: the driver performs `request`, then
    /// calls `conclude` with `controller`, `vote_tx` and its report.
    Start { controller: PgXactController, request: StorageRequest, vote_tx: Sender<bool> },
}

/// What the dispatcher makes of a report, before anything is sent.
pub enum Resolution {
    /// The transaction is voted on: `vote` is to be sent on `vote_tx`.
    Vote { vote_tx: Sender<bool>, vote: bool },
    /// The replay goes on, with its next step or with a new try: the
    /// driver performs `request`, then calls `conclude` anew.
    Proceed { request: StorageRequest, vote_tx: Sender<bool> },
}

/// What became of a message.
pub enum Handling {
    /// The message is none for the dispatcher.
    Ignored,
    /// The transaction was voted down. `undelivered` is empty where the
    /// vote reached the one who waits for it, else it holds the vote, which
    /// came back.
    Rejected { reason: Rejection, undelivered: Option<bool> },
    /// The transaction is started: the driver performs `request`, then
    /// calls `conclude` with `controller`, `vote_tx` and its report.
    Started { controller: PgXactController, request: StorageRequest, vote_tx: Sender<bool> },
}

/// What followed from a driver's report on a started transaction.
pub enum Conclusion {
    /// The transaction was voted on. `undelivered` is empty where the
    /// vote reached the one who waits for it, else it holds the vote, which
    /// came back.
    Voted { vote: bool, undelivered: Option<bool> },
    /// The replay goes on, with its next step or with a new try: the
    /// driver performs `request`, then calls `conclude` anew.
    Proceed { request: StorageRequest, vote_tx: Sender<bool> },
}

/// Whether a report makes the dispatcher try the replay again: the
/// storage engine was not reached, and the surrogate has a try left.
pub open spec fn retries(before: ControllerView, report: StorageReport) -> bool {
    &&& before.report_result(report) == Err::<StepView, XactError>(XactError::ConnectionError)
    &&& before.after_report(report).execute_fault() is None
}

/// The request with which the dispatcher goes on after a report, if it
/// goes on: the next step that the controller hands out, or the first step
/// of a new try.
pub open spec fn next_request(before: ControllerView, report: StorageReport) -> Option<
    StorageRequestView,
> {
    match before.report_result(report) {
        Ok(StepView::Next(request)) => Some(request),
        _ => match before {
            ControllerView::Surrogate(s) => if retries(before, report) {
                Some(s.execute_request())
            } else {
                None
            },
            _ => None,
        },
    }
}

/// The controller after the dispatcher took a report.
pub open spec fn after_resolve(before: ControllerView, report: StorageReport) -> ControllerView {
    if retries(before, report) {
        before.after_report(report).after_execute()
    } else {
        before.after_report(report)
    }
}

/// Whether `r` is what the dispatcher owes a report, with the channel
/// `vote_tx` in hand.
pub open spec fn resolution_as_meant(
    before: ControllerView,
    report: StorageReport,
    vote_tx: Sender<bool>,
    r: Resolution,
) -> bool {
    match next_request(before, report) {
        Some(next) => r matches Resolution::Proceed { request, vote_tx: kept } && request@ == next
            && kept == vote_tx,
        None => r matches Resolution::Vote { vote_tx: kept, vote } && kept == vote_tx && vote
            == vote_of(before, report),
    }
}

/// Whether `r` is what the dispatcher owes a message that came in at
/// `addr`.
pub open spec fn reception_as_meant(addr: Seq<char>, msg: XsMessage, r: Reception) -> bool {
    match msg {
        XsMessage::SurrogateXact { xact_id, data, vote_tx } => match admission(
            addr,
            xact_id,
            bytes_seq(data),
        ) {
            Err(why) => r matches Reception::Reject { reason, vote_tx: kept, vote } && reason
                == why && kept == vote_tx && !vote,
            Ok(surrogate) => r matches Reception::Start { controller, request, vote_tx: kept }
                && controller@ == ControllerView::Surrogate(surrogate) && request@
                == surrogate.execute_request() && kept == vote_tx,
        },
        _ => r is Ignored,
    }
}

/// Votes on the surrogate transactions of one storage engine.
pub struct PgDispatcher {
    addr: String,
}

/// Where the first colon at or after `from` stands in `s`.
fn find_colon(s: &str, from: usize, len: usize) -> (r: usize)
    requires
        len == s@.len(),
        from <= len,
    ensures
        r == colon_from(s@, from as int),
        from <= r <= len,
{
    let mut i = from;
    while i < len
        invariant
            len == s@.len(),
            from <= i <= len,
            colon_from(s@, from as int) == colon_from(s@, i as int),
        decreases len - i,
    {
        if s.get_char(i) == ':' {
            return i;
        }
        i = i + 1;
    }
    i
}

impl PgDispatcher {
    /// The address of the storage engine.
    pub closed spec fn addr(&self) -> Seq<char> {
        self.addr@
    }

    /// A dispatcher for the storage engine at `addr`, written as host,
    /// colon, port.
    pub fn new(addr: &str) -> (r: PgDispatcher)
        ensures
            r.addr() == addr@,
    {
        PgDispatcher { addr: String::from_str(addr) }
    }

    /// The host and port that the dispatcher's address names.
    pub fn endpoint(&self) -> (r: Option<(String, u16)>)
        ensures
            match endpoint_of(self.addr()) {
                Some((host, port)) => r matches Some((h, p)) && h@ == host && p == port,
                None => r is None,
            },
    {
        let addr = self.addr.as_str();
        let len = addr.unicode_len();
        let first = find_colon(addr, 0, len);
        if first >= len {
            return None;
        }
        let second = find_colon(addr, first + 1, len);
        match parse_u16(addr.substring_char(first + 1, second)) {
            Some(port) => Some((String::from_str(addr.substring_char(0, first)), port)),
            None => None,
        }
    }

    /// Decides on a surrogate transaction that came in.
    ///
    /// An address that names no endpoint rejects the transaction.
    /// Otherwise the transaction gets a surrogate controller, which is
    /// started: the result holds it with the first request of its replay.
    /// A controller that refuses to start, as it does where the change-set
    /// does not decode, rejects the transaction with its fault.
    pub fn start(&self, xact_id: XactId, data: Bytes) -> (r: Result<
        (PgXactController, StorageRequest),
        Rejection,
    >)
        ensures
            match admission(self.addr(), xact_id, bytes_seq(data)) {
                Err(reason) => r matches Err(x) && x == reason,
                Ok(surrogate) => r matches Ok((controller, request)) && controller@
                    == ControllerView::Surrogate(surrogate) && request@
                    == surrogate.execute_request(),
            },
    {
        match self.endpoint() {
            None => Err(Rejection::NoEndpoint),
            Some((host, port)) => {
                let mut controller = PgXactController::new_surrogate(xact_id, host, port, data);
                match controller.execute() {
                    Ok(request) => Ok((controller, request)),
                    Err(fault) => Err(Rejection::Refused(fault)),
                }
            },
        }
    }

    /// Decides what to do with a message from the work queue, and sends
    /// nothing.
    ///
    /// Only a surrogate transaction concerns the dispatcher. One that is
    /// rejected comes back with its own channel and the vote to send on it,
    /// which is no; one that is started comes back with its controller, the
    /// request to perform, and its own channel.
    pub fn receive(&self, msg: XsMessage) -> (r: Reception)
        ensures
            reception_as_meant(self.addr(), msg, r),
    {
        match msg {
            XsMessage::SurrogateXact { xact_id, data, vote_tx } => match self.start(xact_id, data) {
                Err(reason) => Reception::Reject { reason, vote_tx, vote: false },
                Ok((controller, request)) => Reception::Start { controller, request, vote_tx },
            },
            _ => Reception::Ignored,
        }
    }

    /// Handles one message from the work queue: does what `receive`
    /// decides, and sends the vote of a rejected transaction on the
    /// channel that `receive` hands out with it.
    pub fn handle(&self, msg: XsMessage) -> (r: Handling)
        ensures
            match msg {
                XsMessage::SurrogateXact { xact_id, data, vote_tx } => match admission(
                    self.addr(),
                    xact_id,
                    bytes_seq(data),
                ) {
                    Err(why) => r matches Handling::Rejected { reason, undelivered } && reason
                        == why && (undelivered matches Some(v) ==> !v),
                    Ok(surrogate) => r matches Handling::Started {
                        controller,
                        request,
                        vote_tx: kept,
                    } && controller@ == ControllerView::Surrogate(surrogate) && request@
                        == surrogate.execute_request() && kept == vote_tx,
                },
                _ => r is Ignored,
            },
    {
        match self.receive(msg) {
            Reception::Ignored => Handling::Ignored,
            Reception::Reject { reason, vote_tx, vote } => {
                let sent = send(vote_tx, vote);
                Handling::Rejected { reason, undelivered: sent.err() }
            },
            Reception::Start { controller, request, vote_tx } => Handling::Started {
                controller,
                request,
                vote_tx,
            },
        }
    }

    /// Takes the driver's report on a started transaction and decides
    /// what follows, and sends nothing.
    ///
    /// Where the controller hands out a next step, the result holds it,
    /// with the channel. Where the storage engine could not be reached and
    /// the surrogate has a try left, the replay is started again and the
    /// result holds its first request, with the channel. Otherwise the
    /// result holds the channel with the vote to send on it: yes where the
    /// report says that the storage engine accepted the prepare, no for
    /// every other report.
    pub fn resolve(
        controller: &mut PgXactController,
        vote_tx: Sender<bool>,
        report: StorageReport,
    ) -> (r: Resolution)
        ensures
            final(controller)@ == after_resolve(old(controller)@, report),
            resolution_as_meant(old(controller)@, report, vote_tx, r),
    {
        let executing = controller.is_executing();
        match controller.complete(report) {
            Ok(Step::Next(request)) => Resolution::Proceed { request, vote_tx },
            Ok(Step::Done(done)) => Resolution::Vote { vote_tx, vote: executing && done },
            Err(XactError::ConnectionError) => match controller.execute() {
                Ok(request) => Resolution::Proceed { request, vote_tx },
                Err(_) => Resolution::Vote { vote_tx, vote: false },
            },
            Err(_) => Resolution::Vote { vote_tx, vote: false },
        }
    }

    /// Takes the driver's report on a started transaction: does what
    /// `resolve` decides, and sends the vote on the channel that `resolve`
    /// hands out with it.
    pub fn conclude(
        controller: &mut PgXactController,
        vote_tx: Sender<bool>,
        report: StorageReport,
    ) -> (r: Conclusion)
        ensures
            final(controller)@ == after_resolve(old(controller)@, report),
            match next_request(old(controller)@, report) {
                Some(next) => r matches Conclusion::Proceed { request, vote_tx: kept } && request@
                    == next && kept == vote_tx,
                None => r matches Conclusion::Voted { vote, undelivered } && vote == vote_of(
                    old(controller)@,
                    report,
                ) && (undelivered matches Some(v) ==> v == vote),
            },
    {
        match Self::resolve(controller, vote_tx, report) {
            Resolution::Proceed { request, vote_tx } => Conclusion::Proceed { request, vote_tx },
            Resolution::Vote { vote_tx, vote } => {
                let sent = send(vote_tx, vote);
                Conclusion::Voted { vote, undelivered: sent.err() }
            },
        }
    }
}

/// A started transaction is voted on after a bounded number of requests:
/// each request that the dispatcher hands out moves the replay one step on
/// or uses one try up, a replay has four steps and a surrogate
/// `MAX_ATTEMPTS` tries, and where neither is left the report is answered
/// with a vote, whatever it says.
pub proof fn lemma_requests_end(c: ControllerView, report: StorageReport)
    requires
        c matches ControllerView::Surrogate(s) && s.attempts <= MAX_ATTEMPTS,
    ensures
        next_request(c, report) is Some ==> {
            &&& c matches ControllerView::Surrogate(s)
            &&& after_resolve(c, report) matches ControllerView::Surrogate(next)
            &&& requests_left(next) < requests_left(s)
        },
        c matches ControllerView::Surrogate(s) && requests_left(s) == 0 ==> next_request(c, report)
            is None,
{
}

/// How many requests a surrogate can still be handed in the course of
/// its replay: the steps that are left of the try at hand, and four for
/// each try that is left.
pub open spec fn requests_left(s: SurrogateView) -> nat {
    let steps: nat = match s.phase {
        Phase::Connecting => 3,
        Phase::Beginning => 2,
        Phase::Replaying => 1,
        _ => 0,
    };
    let tries: nat = if s.phase.in_replay() || s.phase is Idle || s.phase is Reconnecting {
        if s.attempts <= MAX_ATTEMPTS {
            (MAX_ATTEMPTS - s.attempts) as nat
        } else {
            0
        }
    } else {
        0
    };
    let decision: nat = if s.phase is Reconnecting {
        1
    } else {
        0
    };
    steps + 4 * tries + decision
}

/// A yes needs a prepared transaction: the vote is yes exactly where the
/// report leaves the surrogate with a transaction that the storage engine
/// just prepared, and a transaction that is voted on with a yes admits
/// `commit` and `rollback`.
pub proof fn lemma_yes_means_prepared(c: ControllerView, report: StorageReport)
    ensures
        vote_of(c, report) ==> {
            &&& c.report_result(report) == Ok::<StepView, XactError>(StepView::Done(true))
            &&& c.after_report(report) matches ControllerView::Surrogate(s) && s.phase is Prepared
            &&& after_resolve(c, report).finalize_fault() is None
            &&& next_request(c, report) is None
        },
        c.in_replay() && (after_resolve(c, report) matches ControllerView::Surrogate(s) && s.phase
            is Prepared) ==> vote_of(c, report),
{
}

/// Where no colon stands from `from` up to `to`, the search for one
/// goes on at `to`.
proof fn lemma_colon_skips(s: Seq<char>, from: int, to: int)
    requires
        0 <= from <= to <= s.len(),
        forall|i: int| from <= i < to ==> s[i] != ':',
    ensures
        colon_from(s, from) == colon_from(s, to),
    decreases to - from,
{
    if from < to {
        lemma_colon_skips(s, from + 1, to);
    }
}

/// An address names the endpoint it was written for: a host without a
/// colon, a colon and the port in decimal are read as that host and port.
pub proof fn lemma_endpoint_is_read_back(host: Seq<char>, port: u16)
    requires
        forall|i: int| 0 <= i < host.len() ==> host[i] != ':',
    ensures
        endpoint_of(host + seq![':'] + decimal(port as nat)) == Some((host, port)),
{
    let digits = decimal(port as nat);
    let addr = host + seq![':'] + digits;
    let first = host.len() as int;
    lemma_decimal_is_read_back(port as nat);
    lemma_port_is_read_back(port);
    lemma_colon_skips(addr, 0, first);
    assert(addr[first] == ':');
    assert forall|i: int| first + 1 <= i < addr.len() implies addr[i] != ':' by {
        assert(addr[i] == digits[i - first - 1]);
        assert(digit_value(digits[i - first - 1]) is Some);
    }
    lemma_colon_skips(addr, first + 1, addr.len() as int);
    assert(addr.subrange(first + 1, addr.len() as int) =~= digits);
    assert(addr.subrange(0, first) =~= host);
}

/// A change-set that does not decode is voted down before anything
/// runs: whatever the address, no surrogate is started for it, and where
/// the address is sound the rejection names the decoding fault.
pub proof fn lemma_malformed_is_rejected(addr: Seq<char>, xact_id: XactId, data: Seq<u8>)
    requires
        decode_transaction(data) is Err,
    ensures
        admission(addr, xact_id, data) is Err,
        endpoint_of(addr) is Some ==> admission(addr, xact_id, data) == Err::<
            SurrogateView,
            Rejection,
        >(Rejection::Refused(XactError::Malformed(decode_transaction(data)->Err_0))),
{
}

/// A change-set that decodes is started at a sound address, with its
/// first try used.
pub proof fn lemma_sound_is_started(addr: Seq<char>, xact_id: XactId, data: Seq<u8>)
    requires
        decode_transaction(data) is Ok,
        endpoint_of(addr) is Some,
    ensures
        admission(addr, xact_id, data) matches Ok(s) && s.phase is Connecting && s.attempts == 1
            && s.xact_id == xact_id && s.data == data,
{
}

} // verus!
