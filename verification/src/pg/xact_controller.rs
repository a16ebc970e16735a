//! The per-transaction controller: one participant's share of one
//! distributed transaction, driven through execute, prepare and the final
//! commit or rollback.
//!
//! A `Local` controller stands for the session in which the transaction
//! began; finalising it tells that session the outcome. A `Surrogate`
//! controller replays the transaction's change-set on another participant.
//! It does not talk to the storage engine itself: it hands out one
//! request at a time for a driver to perform, and `complete` takes the
//! driver's report and says what follows from it: the next request, or
//! the end of the operation.

use crate::buffer::bytes_seq;
use crate::format::{decode_transaction, DecodeError};
use crate::transaction::Transaction;
use crate::channel::send;
use crate::text::{all_digits, decimal, decimal_string, lemma_decimal_is_read_back};
use crate::XactId;
use bytes::Bytes;
use tokio::sync::oneshot::Sender;
use vstd::prelude::*;
use vstd::string::StringExecFns;

verus! {

/// Why a controller refused an operation, or why the operation failed.
#[derive(Clone, Copy, Debug, PartialEq, Eq)]
pub enum XactError {
    /// `execute` on a surrogate whose change-set does not decode.
    Malformed(DecodeError),
    /// `execute` on a controller whose share of the transaction has been
    /// executed already, or is being executed.
    AlreadyExecuted,
    /// `commit` or `rollback` on a controller that was finalised before.
    AlreadyFinalized,
    /// `commit` or `rollback` on a surrogate that holds no prepared
    /// transaction: the connection does not exist.
    NoConnection,
    /// The connection to the storage engine failed.
    ConnectionError,
    /// `execute` on a surrogate whose replay was tried as often as a
    /// surrogate may try it.
    RetriesExhausted,
    /// The session that waited for the outcome is gone; the value is the
    /// signal that came back from its channel, `true` for a commit.
    SessionGone(bool),
    /// A report came in while no request was outstanding.
    UnexpectedReport,
}

impl XactError {
    /// What `message` says.
    pub open spec fn message_text(self) -> Seq<char> {
        match self {
            XactError::Malformed(e) => "Malformed change-set: "@ + e.message_text(),
            XactError::AlreadyExecuted => "Transaction is already executed"@,
            XactError::AlreadyFinalized => "Transaction has already committed or rollbacked"@,
            XactError::NoConnection => "Connection does not exist"@,
            XactError::ConnectionError => "Connection to the storage engine failed"@,
            XactError::RetriesExhausted => "Storage engine was not reached, giving up"@,
            XactError::SessionGone(_) => "Failed to signal the outcome of the transaction"@,
            XactError::UnexpectedReport => "No request is outstanding"@,
        }
    }

    /// The fault in words.
    pub fn message(&self) -> (r: String)
        ensures
            r@ == self.message_text(),
    {
        match self {
            XactError::Malformed(e) => {
                let mut out = String::from_str("Malformed change-set: ");
                let why = e.message();
                out.append(why.as_str());
                out
            },
            XactError::AlreadyExecuted => String::from_str("Transaction is already executed"),
            XactError::AlreadyFinalized => String::from_str(
                "Transaction has already committed or rollbacked",
            ),
            XactError::NoConnection => String::from_str("Connection does not exist"),
            XactError::ConnectionError => String::from_str(
                "Connection to the storage engine failed",
            ),
            XactError::RetriesExhausted => String::from_str(
                "Storage engine was not reached, giving up",
            ),
            XactError::SessionGone(_) => String::from_str(
                "Failed to signal the outcome of the transaction",
            ),
            XactError::UnexpectedReport => String::from_str("No request is outstanding"),
        }
    }
}

/// What the driver saw when it performed a request.
#[derive(Clone, Copy, Debug, PartialEq, Eq)]
pub enum StorageReport {
    /// The storage engine did what was asked.
    Accepted,
    /// The storage engine answered, and refused a statement.
    Refused,
    /// The storage engine could not be reached, or the connection broke.
    Unreachable,
}

/// How far a surrogate has come.
#[derive(Clone, Copy, Debug, PartialEq, Eq)]
pub enum Phase {
    /// Nothing is prepared and no connection is held.
    Idle,
    /// The request to connect is with the driver.
    Connecting,
    /// The request to open a transaction is with the driver.
    Beginning,
    /// The request to replay the change-set is with the driver.
    Replaying,
    /// The request to prepare the transaction is with the driver.
    Preparing,
    /// The transaction is prepared; the connection is held.
    Prepared,
    /// The transaction was prepared in an earlier life of the participant
    /// and awaits its decision; no connection is held.
    Unconfirmed,
    /// The request to connect anew is with the driver, for the commit or
    /// the rollback of an unconfirmed transaction.
    Reconnecting { commit: bool },
    /// The request to commit or roll back is with the driver.
    Finalizing,
    /// The transaction is committed or rolled back.
    Finalized,
    /// The storage engine refused a step of the replay: nothing is
    /// prepared, and the replay is not tried again.
    Refused,
    /// The connection failed after the transaction was prepared.
    Broken,
}

/// What a driver must do against the storage engine: one call each.
#[derive(Clone, Debug, PartialEq, Eq)]
pub enum StorageRequest {
    /// Connect with `conn_str`.
    Connect { conn_str: String },
    /// Open a transaction.
    Begin,
    /// Replay `change_set` in the open transaction.
    Replay { change_set: Bytes },
    /// Prepare the open transaction under `name`.
    Prepare { name: String },
    /// Commit the transaction prepared under `name`.
    CommitPrepared { name: String },
    /// Roll back the transaction prepared under `name`.
    RollbackPrepared { name: String },
}

/// What a `StorageRequest` is.
pub enum StorageRequestView {
    Connect { conn_str: Seq<char> },
    Begin,
    Replay { change_set: Seq<u8> },
    Prepare { name: Seq<char> },
    CommitPrepared { name: Seq<char> },
    RollbackPrepared { name: Seq<char> },
}

impl View for StorageRequest {
    type V = StorageRequestView;

    open spec fn view(&self) -> StorageRequestView {
        match *self {
            StorageRequest::Connect { conn_str } => StorageRequestView::Connect {
                conn_str: conn_str@,
            },
            StorageRequest::Begin => StorageRequestView::Begin,
            StorageRequest::Replay { change_set } => StorageRequestView::Replay {
                change_set: bytes_seq(change_set),
            },
            StorageRequest::Prepare { name } => StorageRequestView::Prepare { name: name@ },
            StorageRequest::CommitPrepared { name } => StorageRequestView::CommitPrepared {
                name: name@,
            },
            StorageRequest::RollbackPrepared { name } => StorageRequestView::RollbackPrepared {
                name: name@,
            },
        }
    }
}

/// What follows from a report.
#[derive(Clone, Debug, PartialEq, Eq)]
pub enum Step {
    /// The operation goes on: the driver performs the request and reports
    /// again.
    Next(StorageRequest),
    /// The operation is over. After `execute`, the value says whether the
    /// transaction is prepared; after `commit` or `rollback` it is `true`.
    Done(bool),
}

/// What a `Step` is.
pub enum StepView {
    Next(StorageRequestView),
    Done(bool),
}

impl View for Step {
    type V = StepView;

    open spec fn view(&self) -> StepView {
        match *self {
            Step::Next(request) => StepView::Next(request@),
            Step::Done(done) => StepView::Done(done),
        }
    }
}

/// Whether `got` is what `meant` asks for: the step that `meant` holds,
/// or its fault.
pub open spec fn step_as_meant(
    got: Result<Step, XactError>,
    meant: Result<StepView, XactError>,
) -> bool {
    match meant {
        Ok(v) => got matches Ok(step) && step@ == v,
        Err(e) => got matches Err(x) && x == e,
    }
}

/// Statement that opens a transaction.
pub const BEGIN_SQL: &'static str = "BEGIN";

/// Statement that replays a change-set; its one parameter is the
/// change-set's bytes.
pub const REPLAY_SQL: &'static str = "SELECT print_bytes($1::bytea);";

/// Statement that prepares the open transaction; its one parameter is
/// the transaction's name.
pub const PREPARE_SQL: &'static str = "PREPARE TRANSACTION $1";

/// Statement that commits a prepared transaction; its one parameter is
/// the transaction's name.
pub const COMMIT_SQL: &'static str = "COMMIT PREPARED $1";

/// Statement that rolls a prepared transaction back; its one parameter
/// is the transaction's name.
pub const ROLLBACK_SQL: &'static str = "ROLLBACK PREPARED $1";

/// How often a surrogate may try to replay and prepare its transaction.
pub const MAX_ATTEMPTS: u32 = 3;

/// The connection string for the storage engine at `host` and `port`.
pub open spec fn conn_string(host: Seq<char>, port: u16) -> Seq<char> {
    "host="@ + host + " port="@ + decimal(port as nat)
        + " user=cloud_admin dbname=postgres application_name=xactserver"@
}

/// The name under which a transaction is prepared: its id in decimal.
pub open spec fn prepared_name(xact_id: XactId) -> Seq<char> {
    decimal(xact_id as nat)
}

/// Builds the connection string for the storage engine at `host` and
/// `port`.
pub fn connection_string(host: &str, port: u16) -> (r: String)
    ensures
        r@ == conn_string(host@, port),
{
    let mut out = String::from_str("host=");
    out.append(host);
    out.append(" port=");
    let port_text = decimal_string(port as u64);
    out.append(port_text.as_str());
    out.append(" user=cloud_admin dbname=postgres application_name=xactserver");
    out
}

impl Phase {
    /// Whether a step of the replay is with the driver.
    pub open spec fn in_replay(self) -> bool {
        self is Connecting || self is Beginning || self is Replaying || self is Preparing
    }

    /// Why `commit` and `rollback` are refused in this phase, if they are.
    pub open spec fn finalize_fault(self) -> Option<XactError> {
        match self {
            Phase::Prepared | Phase::Unconfirmed => None,
            Phase::Reconnecting { .. } | Phase::Finalizing | Phase::Finalized => Some(
                XactError::AlreadyFinalized,
            ),
            Phase::Broken => Some(XactError::ConnectionError),
            _ => Some(XactError::NoConnection),
        }
    }

    /// The phase after a call of `commit` (`commit` is true) or
    /// `rollback`.
    pub open spec fn after_finalize(self, commit: bool) -> Phase {
        match self {
            Phase::Prepared => Phase::Finalizing,
            Phase::Unconfirmed => Phase::Reconnecting { commit },
            other => other,
        }
    }

    /// The phase after `complete` took `report`.
    pub open spec fn after_report(self, report: StorageReport) -> Phase {
        if self.in_replay() {
            match report {
                StorageReport::Accepted => match self {
                    Phase::Connecting => Phase::Beginning,
                    Phase::Beginning => Phase::Replaying,
                    Phase::Replaying => Phase::Preparing,
                    _ => Phase::Prepared,
                },
                StorageReport::Refused => Phase::Refused,
                StorageReport::Unreachable => Phase::Idle,
            }
        } else {
            match self {
                Phase::Reconnecting { .. } => match report {
                    StorageReport::Accepted => Phase::Finalizing,
                    _ => Phase::Unconfirmed,
                },
                Phase::Finalizing => match report {
                    StorageReport::Accepted => Phase::Finalized,
                    _ => Phase::Broken,
                },
                other => other,
            }
        }
    }

    /// The phase after the connection was seen to fail.
    pub open spec fn after_connection_loss(self) -> Phase {
        match self {
            Phase::Prepared => Phase::Broken,
            other => other,
        }
    }
}

/// What a `SurrogateXact` is.
pub struct SurrogateView {
    pub xact_id: XactId,
    pub host: Seq<char>,
    pub port: u16,
    pub data: Seq<u8>,
    pub phase: Phase,
    /// How often the replay was started.
    pub attempts: u32,
}

impl SurrogateView {
    /// A surrogate on which nothing has happened yet.
    pub open spec fn fresh(xact_id: XactId, host: Seq<char>, port: u16, data: Seq<u8>) -> Self {
        SurrogateView { xact_id, host, port, data, phase: Phase::Idle, attempts: 0 }
    }

    /// A surrogate whose transaction was prepared in an earlier life of
    /// the participant.
    pub open spec fn recovered(xact_id: XactId, host: Seq<char>, port: u16, data: Seq<u8>) -> Self {
        SurrogateView { xact_id, host, port, data, phase: Phase::Unconfirmed, attempts: 0 }
    }

    /// The same surrogate in another phase.
    pub open spec fn in_phase(self, phase: Phase) -> SurrogateView {
        SurrogateView { phase, ..self }
    }

    /// Why `execute` is refused, if it is: the change-set does not
    /// decode, or else the replay is outstanding or over, or else every
    /// try is used up.
    pub open spec fn execute_fault(self) -> Option<XactError> {
        match decode_transaction(self.data) {
            Err(e) => Some(XactError::Malformed(e)),
            Ok(_) => match self.phase {
                Phase::Idle => if self.attempts < MAX_ATTEMPTS {
                    None
                } else {
                    Some(XactError::RetriesExhausted)
                },
                _ => Some(XactError::AlreadyExecuted),
            },
        }
    }

    /// The surrogate after a call of `execute`.
    pub open spec fn after_execute(self) -> SurrogateView {
        if self.execute_fault() is None {
            SurrogateView { phase: Phase::Connecting, attempts: (self.attempts + 1) as u32, ..self }
        } else {
            self
        }
    }

    /// The request to connect.
    pub open spec fn connect_request(self) -> StorageRequestView {
        StorageRequestView::Connect { conn_str: conn_string(self.host, self.port) }
    }

    /// The request that `execute` hands out.
    pub open spec fn execute_request(self) -> StorageRequestView {
        self.connect_request()
    }

    /// The request to commit or to roll back the prepared transaction.
    pub open spec fn decision_request(self, commit: bool) -> StorageRequestView {
        if commit {
            StorageRequestView::CommitPrepared { name: prepared_name(self.xact_id) }
        } else {
            StorageRequestView::RollbackPrepared { name: prepared_name(self.xact_id) }
        }
    }

    /// The request that `commit` (`commit` is true) or `rollback` hands
    /// out: the decision where the connection is held, else the request to
    /// connect anew.
    pub open spec fn finalize_request(self, commit: bool) -> StorageRequestView {
        if self.phase is Unconfirmed {
            self.connect_request()
        } else {
            self.decision_request(commit)
        }
    }

    /// What `complete` returns for `report`. Only an accepted request is
    /// followed by another, and each by the one that is next in order:
    /// connect, open a transaction, replay, prepare.
    pub open spec fn report_result(self, report: StorageReport) -> Result<StepView, XactError> {
        if self.phase.in_replay() {
            match report {
                StorageReport::Accepted => match self.phase {
                    Phase::Connecting => Ok(StepView::Next(StorageRequestView::Begin)),
                    Phase::Beginning => Ok(
                        StepView::Next(StorageRequestView::Replay { change_set: self.data }),
                    ),
                    Phase::Replaying => Ok(
                        StepView::Next(
                            StorageRequestView::Prepare { name: prepared_name(self.xact_id) },
                        ),
                    ),
                    _ => Ok(StepView::Done(true)),
                },
                StorageReport::Refused => Ok(StepView::Done(false)),
                StorageReport::Unreachable => Err(XactError::ConnectionError),
            }
        } else {
            match self.phase {
                Phase::Reconnecting { commit } => match report {
                    StorageReport::Accepted => Ok(StepView::Next(self.decision_request(commit))),
                    _ => Err(XactError::ConnectionError),
                },
                Phase::Finalizing => match report {
                    StorageReport::Accepted => Ok(StepView::Done(true)),
                    _ => Err(XactError::ConnectionError),
                },
                _ => Err(XactError::UnexpectedReport),
            }
        }
    }
}

/// What a controller is.
pub enum ControllerView {
    /// The originating session's half; `sender` is the channel on which
    /// the session waits for the outcome, until the outcome is signalled.
    Local { sender: Option<Sender<bool>> },
    Surrogate(SurrogateView),
}

impl ControllerView {
    /// Why `execute` is refused, if it is.
    pub open spec fn execute_fault(self) -> Option<XactError> {
        match self {
            ControllerView::Local { .. } => Some(XactError::AlreadyExecuted),
            ControllerView::Surrogate(s) => s.execute_fault(),
        }
    }

    /// The controller after a call of `execute`.
    pub open spec fn after_execute(self) -> ControllerView {
        match self {
            ControllerView::Local { .. } => self,
            ControllerView::Surrogate(s) => ControllerView::Surrogate(s.after_execute()),
        }
    }

    /// Why `commit` and `rollback` are refused, if they are.
    pub open spec fn finalize_fault(self) -> Option<XactError> {
        match self {
            ControllerView::Local { sender } => if sender is Some {
                None
            } else {
                Some(XactError::AlreadyFinalized)
            },
            ControllerView::Surrogate(s) => s.phase.finalize_fault(),
        }
    }

    /// The controller after a call of `commit` (`commit` is true) or
    /// `rollback`.
    pub open spec fn after_finalize(self, commit: bool) -> ControllerView {
        match self {
            ControllerView::Local { .. } => ControllerView::Local { sender: None },
            ControllerView::Surrogate(s) => ControllerView::Surrogate(
                s.in_phase(s.phase.after_finalize(commit)),
            ),
        }
    }

    /// What `complete` returns for `report`.
    pub open spec fn report_result(self, report: StorageReport) -> Result<StepView, XactError> {
        match self {
            ControllerView::Local { .. } => Err(XactError::UnexpectedReport),
            ControllerView::Surrogate(s) => s.report_result(report),
        }
    }

    /// The controller after `complete` took `report`.
    pub open spec fn after_report(self, report: StorageReport) -> ControllerView {
        match self {
            ControllerView::Local { .. } => self,
            ControllerView::Surrogate(s) => ControllerView::Surrogate(
                s.in_phase(s.phase.after_report(report)),
            ),
        }
    }

    /// The controller after the connection was seen to fail.
    pub open spec fn after_connection_loss(self) -> ControllerView {
        match self {
            ControllerView::Local { .. } => self,
            ControllerView::Surrogate(s) => ControllerView::Surrogate(
                s.in_phase(s.phase.after_connection_loss()),
            ),
        }
    }

    /// Whether a step of a replay is with the driver.
    pub open spec fn in_replay(self) -> bool {
        self matches ControllerView::Surrogate(s) && s.phase.in_replay()
    }
}

/// The half of a transaction that ran in the originating session.
pub struct LocalXact {
    commit_tx: Option<Sender<bool>>,
}

impl LocalXact {
    /// The channel on which the session waits for the outcome, until the
    /// outcome is signalled.
    pub closed spec fn sender(&self) -> Option<Sender<bool>> {
        self.commit_tx
    }

    /// Whether the session still waits for the outcome.
    pub open spec fn pending(&self) -> bool {
        self.sender() is Some
    }

    /// The local half of a transaction whose session waits on
    /// `commit_tx`.
    pub fn new(commit_tx: Sender<bool>) -> (r: Self)
        ensures
            r.sender() == Some(commit_tx),
    {
        LocalXact { commit_tx: Some(commit_tx) }
    }

    /// Takes the session's channel for the final signal, once: hands out
    /// the channel together with the value to send on it, `true` for a
    /// commit and `false` for a rollback. Every later call fails with
    /// `AlreadyFinalized`.
    pub fn claim(&mut self, commit: bool) -> (r: Result<(Sender<bool>, bool), XactError>)
        ensures
            final(self).sender() is None,
            match r {
                Ok((tx, value)) => old(self).sender() == Some(tx) && value == commit,
                Err(e) => old(self).sender() is None && e == XactError::AlreadyFinalized,
            },
    {
        match self.commit_tx.take() {
            None => Err(XactError::AlreadyFinalized),
            Some(tx) => Ok((tx, commit)),
        }
    }

    /// What a finalise call returns once the signal was attempted:
    /// success where it was delivered, `SessionGone` with the value that
    /// came back where it was not.
    pub fn settle(sent: Result<(), bool>) -> (r: Result<(), XactError>)
        ensures
            r == (match sent {
                Ok(_) => Ok::<(), XactError>(()),
                Err(returned) => Err::<(), XactError>(XactError::SessionGone(returned)),
            }),
    {
        match sent {
            Ok(_) => Ok(()),
            Err(returned) => Err(XactError::SessionGone(returned)),
        }
    }

    /// Tells the session that the transaction commits: sends what
    /// `claim(true)` hands out, and returns what `settle` makes of it.
    ///
    /// The first finalise call uses the channel up: it succeeds, or fails
    /// with `SessionGone(true)` where the session no longer listens. Every
    /// later one fails with `AlreadyFinalized`.
    pub fn commit(&mut self) -> (r: Result<(), XactError>)
        ensures
            final(self).sender() is None,
            local_finalize_as_meant(old(self).sender(), true, r),
    {
        match self.claim(true) {
            Err(e) => Err(e),
            Ok((tx, value)) => Self::settle(send(tx, value)),
        }
    }

    /// Tells the session that the transaction aborts: sends what
    /// `claim(false)` hands out, and returns what `settle` makes of it.
    ///
    /// The first finalise call uses the channel up: it succeeds, or fails
    /// with `SessionGone(false)` where the session no longer listens. Every
    /// later one fails with `AlreadyFinalized`.
    pub fn rollback(&mut self) -> (r: Result<(), XactError>)
        ensures
            final(self).sender() is None,
            local_finalize_as_meant(old(self).sender(), false, r),
    {
        match self.claim(false) {
            Err(e) => Err(e),
            Ok((tx, value)) => Self::settle(send(tx, value)),
        }
    }
}

/// Whether `r` is what a finalise call owes a local half that held
/// `sender`: `AlreadyFinalized` where it held none; else success, or
/// `SessionGone` with the signal of this call, which came back.
pub open spec fn local_finalize_as_meant(
    sender: Option<Sender<bool>>,
    commit: bool,
    r: Result<(), XactError>,
) -> bool {
    if sender is Some {
        r is Ok || r == Err::<(), XactError>(XactError::SessionGone(commit))
    } else {
        r == Err::<(), XactError>(XactError::AlreadyFinalized)
    }
}

/// A transaction replayed on a participant other than the one it began
/// on.
pub struct SurrogateXact {
    xact_id: XactId,
    host: String,
    port: u16,
    data: Bytes,
    phase: Phase,
    attempts: u32,
}

impl View for SurrogateXact {
    type V = SurrogateView;

    closed spec fn view(&self) -> SurrogateView {
        SurrogateView {
            xact_id: self.xact_id,
            host: self.host@,
            port: self.port,
            data: bytes_seq(self.data),
            phase: self.phase,
            attempts: self.attempts,
        }
    }
}

impl SurrogateXact {
    /// A surrogate for transaction `xact_id`, to be replayed from `data` on
    /// the storage engine at `host` and `port`.
    pub fn new(xact_id: XactId, host: String, port: u16, data: Bytes) -> (r: Self)
        ensures
            r@ == SurrogateView::fresh(xact_id, host@, port, bytes_seq(data)),
    {
        SurrogateXact { xact_id, host, port, data, phase: Phase::Idle, attempts: 0 }
    }

    /// A surrogate for transaction `xact_id`, which an earlier controller
    /// prepared on the storage engine at `host` and `port` and left without
    /// its decision. It holds no connection; `commit` and `rollback`
    /// connect anew.
    pub fn recovered(xact_id: XactId, host: String, port: u16, data: Bytes) -> (r: Self)
        ensures
            r@ == SurrogateView::recovered(xact_id, host@, port, bytes_seq(data)),
    {
        SurrogateXact { xact_id, host, port, data, phase: Phase::Unconfirmed, attempts: 0 }
    }

    /// How often the replay was started.
    pub fn attempts(&self) -> (r: u32)
        ensures
            r == self@.attempts,
    {
        self.attempts
    }

    /// The phase the surrogate is in.
    pub fn phase(&self) -> (r: Phase)
        ensures
            r == self@.phase,
    {
        self.phase
    }

    /// The request to connect to the storage engine.
    fn connect(&self) -> (r: StorageRequest)
        ensures
            r@ == self@.connect_request(),
    {
        StorageRequest::Connect { conn_str: connection_string(self.host.as_str(), self.port) }
    }

    /// The request to commit or to roll back the prepared transaction.
    fn decision(&self, commit: bool) -> (r: StorageRequest)
        ensures
            r@ == self@.decision_request(commit),
    {
        let name = decimal_string(self.xact_id);
        if commit {
            StorageRequest::CommitPrepared { name }
        } else {
            StorageRequest::RollbackPrepared { name }
        }
    }

    /// Starts the replay: hands out the request to connect.
    ///
    /// A change-set that does not decode is never replayed: the call
    /// fails with `Malformed` and changes nothing. Else the request is
    /// handed out where nothing is prepared, outstanding or refused, and the
    /// replay was started fewer than `MAX_ATTEMPTS` times. After that many
    /// starts the surrogate gives up with `RetriesExhausted`; in every
    /// other phase it refuses with `AlreadyExecuted`.
    pub fn execute(&mut self) -> (r: Result<StorageRequest, XactError>)
        ensures
            final(self)@ == old(self)@.after_execute(),
            match old(self)@.execute_fault() {
                Some(e) => r matches Err(x) && x == e,
                None => r matches Ok(request) && request@ == old(self)@.execute_request(),
            },
    {
        let mut unread = self.data.clone();
        if let Err(e) = Transaction::read(&mut unread) {
            return Err(XactError::Malformed(e));
        }
        match self.phase {
            Phase::Idle => {
                if self.attempts >= MAX_ATTEMPTS {
                    return Err(XactError::RetriesExhausted);
                }
                let request = self.connect();
                self.phase = Phase::Connecting;
                self.attempts = self.attempts + 1;
                Ok(request)
            },
            _ => Err(XactError::AlreadyExecuted),
        }
    }

    /// Starts the final step.
    fn finalize(&mut self, commit: bool) -> (r: Result<StorageRequest, XactError>)
        ensures
            final(self)@ == old(self)@.in_phase(old(self)@.phase.after_finalize(commit)),
            match old(self)@.phase.finalize_fault() {
                Some(e) => r matches Err(x) && x == e,
                None => r matches Ok(request) && request@ == old(self)@.finalize_request(commit),
            },
    {
        match self.phase {
            Phase::Prepared => {
                let request = self.decision(commit);
                self.phase = Phase::Finalizing;
                Ok(request)
            },
            Phase::Unconfirmed => {
                let request = self.connect();
                self.phase = Phase::Reconnecting { commit };
                Ok(request)
            },
            Phase::Reconnecting { .. } | Phase::Finalizing | Phase::Finalized => Err(
                XactError::AlreadyFinalized,
            ),
            Phase::Broken => Err(XactError::ConnectionError),
            _ => Err(XactError::NoConnection),
        }
    }

    /// Starts the commit: hands out the request to commit the prepared
    /// transaction, or, for a recovered surrogate, the request to connect
    /// that comes before it. Fails with `NoConnection` where none is
    /// prepared, with `AlreadyFinalized` after an earlier finalise call, and
    /// with `ConnectionError` where the connection has failed.
    pub fn commit(&mut self) -> (r: Result<StorageRequest, XactError>)
        ensures
            final(self)@ == old(self)@.in_phase(old(self)@.phase.after_finalize(true)),
            match old(self)@.phase.finalize_fault() {
                Some(e) => r matches Err(x) && x == e,
                None => r matches Ok(request) && request@ == old(self)@.finalize_request(true),
            },
    {
        self.finalize(true)
    }

    /// Starts the rollback: hands out the request to roll the prepared
    /// transaction back, or, for a recovered surrogate, the request to
    /// connect that comes before it. It fails as `commit` does.
    pub fn rollback(&mut self) -> (r: Result<StorageRequest, XactError>)
        ensures
            final(self)@ == old(self)@.in_phase(old(self)@.phase.after_finalize(false)),
            match old(self)@.phase.finalize_fault() {
                Some(e) => r matches Err(x) && x == e,
                None => r matches Ok(request) && request@ == old(self)@.finalize_request(false),
            },
    {
        self.finalize(false)
    }

    /// Takes the driver's report on the outstanding request, and says what
    /// follows: the next request, or the end of the operation.
    pub fn complete(&mut self, report: StorageReport) -> (r: Result<Step, XactError>)
        ensures
            final(self)@ == old(self)@.in_phase(old(self)@.phase.after_report(report)),
            step_as_meant(r, old(self)@.report_result(report)),
    {
        match self.phase {
            Phase::Connecting | Phase::Beginning | Phase::Replaying | Phase::Preparing => {
                match report {
                    StorageReport::Accepted => match self.phase {
                        Phase::Connecting => {
                            self.phase = Phase::Beginning;
                            Ok(Step::Next(StorageRequest::Begin))
                        },
                        Phase::Beginning => {
                            self.phase = Phase::Replaying;
                            Ok(Step::Next(StorageRequest::Replay { change_set: self.data.clone() }))
                        },
                        Phase::Replaying => {
                            self.phase = Phase::Preparing;
                            Ok(
                                Step::Next(
                                    StorageRequest::Prepare { name: decimal_string(self.xact_id) },
                                ),
                            )
                        },
                        _ => {
                            self.phase = Phase::Prepared;
                            Ok(Step::Done(true))
                        },
                    },
                    StorageReport::Refused => {
                        self.phase = Phase::Refused;
                        Ok(Step::Done(false))
                    },
                    StorageReport::Unreachable => {
                        self.phase = Phase::Idle;
                        Err(XactError::ConnectionError)
                    },
                }
            },
            Phase::Reconnecting { commit } => match report {
                StorageReport::Accepted => {
                    let request = self.decision(commit);
                    self.phase = Phase::Finalizing;
                    Ok(Step::Next(request))
                },
                _ => {
                    self.phase = Phase::Unconfirmed;
                    Err(XactError::ConnectionError)
                },
            },
            Phase::Finalizing => match report {
                StorageReport::Accepted => {
                    self.phase = Phase::Finalized;
                    Ok(Step::Done(true))
                },
                _ => {
                    self.phase = Phase::Broken;
                    Err(XactError::ConnectionError)
                },
            },
            _ => Err(XactError::UnexpectedReport),
        }
    }

    /// Records that the connection was seen to fail.
    pub fn connection_lost(&mut self)
        ensures
            final(self)@ == old(self)@.in_phase(old(self)@.phase.after_connection_loss()),
    {
        match self.phase {
            Phase::Prepared => {
                self.phase = Phase::Broken;
            },
            _ => {},
        }
    }
}

/// One participant's share of one transaction.
pub enum PgXactController {
    Local(LocalXact),
    Surrogate(SurrogateXact),
}

impl View for PgXactController {
    type V = ControllerView;

    open spec fn view(&self) -> ControllerView {
        match self {
            PgXactController::Local(xact) => ControllerView::Local { sender: xact.sender() },
            PgXactController::Surrogate(xact) => ControllerView::Surrogate(xact@),
        }
    }
}

impl PgXactController {
    /// The controller of the originating session's half; `commit_tx` is
    /// the channel on which that session waits for the outcome.
    pub fn new_local(commit_tx: Sender<bool>) -> (r: Self)
        ensures
            r@ == (ControllerView::Local { sender: Some(commit_tx) }),
    {
        PgXactController::Local(LocalXact::new(commit_tx))
    }

    /// The controller of a surrogate for transaction `xact_id`, to be
    /// replayed from `data` on the storage engine at `host` and `port`.
    pub fn new_surrogate(xact_id: XactId, host: String, port: u16, data: Bytes) -> (r: Self)
        ensures
            r@ == ControllerView::Surrogate(
                SurrogateView::fresh(xact_id, host@, port, bytes_seq(data)),
            ),
    {
        PgXactController::Surrogate(SurrogateXact::new(xact_id, host, port, data))
    }

    /// The controller of a surrogate whose transaction an earlier
    /// controller prepared and left without its decision: after a restart,
    /// or after a connection that failed. It admits one `commit` or
    /// `rollback`, which connects anew and then decides the transaction
    /// prepared under the name of `xact_id`.
    pub fn new_recovered(xact_id: XactId, host: String, port: u16, data: Bytes) -> (r: Self)
        ensures
            r@ == ControllerView::Surrogate(
                SurrogateView::recovered(xact_id, host@, port, bytes_seq(data)),
            ),
    {
        PgXactController::Surrogate(SurrogateXact::recovered(xact_id, host, port, data))
    }

    /// Whether a step of a replay is with the driver.
    pub fn is_executing(&self) -> (r: bool)
        ensures
            r == self@.in_replay(),
    {
        match self {
            PgXactController::Local(_) => false,
            PgXactController::Surrogate(xact) => match xact.phase() {
                Phase::Connecting | Phase::Beginning | Phase::Replaying | Phase::Preparing => true,
                _ => false,
            },
        }
    }

    /// Starts the participant's share of the work.
    ///
    /// A surrogate whose change-set does not decode refuses with
    /// `Malformed`, and nothing of it is ever replayed. Else a surrogate on
    /// which nothing is prepared, outstanding or refused hands out the
    /// request to connect; the driver performs it and reports to
    /// `complete`, which hands out what follows, step by step, and in the
    /// end says whether the transaction is prepared. A replay that did not
    /// reach the storage engine may be started again, `MAX_ATTEMPTS` starts
    /// in all; then the surrogate gives up with `RetriesExhausted`. A replay
    /// that the storage engine refused is not started again. A local
    /// controller's share ran before the controller existed, so it refuses
    /// with `AlreadyExecuted`, as does a surrogate whose replay is
    /// outstanding or went through.
    pub fn execute(&mut self) -> (r: Result<StorageRequest, XactError>)
        ensures
            final(self)@ == old(self)@.after_execute(),
            match old(self)@.execute_fault() {
                Some(e) => r matches Err(x) && x == e,
                None => r matches Ok(request) && old(self)@ matches ControllerView::Surrogate(s)
                    && request@ == s.execute_request(),
            },
    {
        match self {
            PgXactController::Local(_) => Err(XactError::AlreadyExecuted),
            PgXactController::Surrogate(xact) => xact.execute(),
        }
    }

    /// Commits the participant's share.
    ///
    /// A local controller signals the commit to its session and is done:
    /// `Ok(None)`, or `SessionGone` with the signal where the session no
    /// longer listens. A surrogate with a prepared transaction hands out
    /// the first request of the commit: `Ok(Some(request))`; the driver
    /// performs it and reports to `complete`. Every controller admits one
    /// finalise call; what refuses the others is in
    /// `ControllerView::finalize_fault`.
    pub fn commit(&mut self) -> (r: Result<Option<StorageRequest>, XactError>)
        ensures
            final(self)@ == old(self)@.after_finalize(true),
            finalize_as_meant(old(self)@, true, r),
    {
        match self {
            PgXactController::Local(xact) => match xact.commit() {
                Ok(_) => Ok(None),
                Err(e) => Err(e),
            },
            PgXactController::Surrogate(xact) => match xact.commit() {
                Ok(request) => Ok(Some(request)),
                Err(e) => Err(e),
            },
        }
    }

    /// Rolls the participant's share back.
    ///
    /// A local controller signals the abort to its session and is done:
    /// `Ok(None)`, or `SessionGone` with the signal where the session no
    /// longer listens. A surrogate with a prepared transaction hands out
    /// the first request of the rollback: `Ok(Some(request))`; the driver
    /// performs it and reports to `complete`. Every controller admits one
    /// finalise call; what refuses the others is in
    /// `ControllerView::finalize_fault`.
    pub fn rollback(&mut self) -> (r: Result<Option<StorageRequest>, XactError>)
        ensures
            final(self)@ == old(self)@.after_finalize(false),
            finalize_as_meant(old(self)@, false, r),
    {
        match self {
            PgXactController::Local(xact) => match xact.rollback() {
                Ok(_) => Ok(None),
                Err(e) => Err(e),
            },
            PgXactController::Surrogate(xact) => match xact.rollback() {
                Ok(request) => Ok(Some(request)),
                Err(e) => Err(e),
            },
        }
    }

    /// Takes the driver's report on the outstanding request, and says what
    /// follows.
    ///
    /// During a replay, an accepted request is followed by the next one in
    /// order (connect, open a transaction, replay, prepare), and the
    /// accepted prepare ends it with `Done(true)`. A refused request ends it
    /// with `Done(false)`: nothing more is sent, nothing is prepared, and
    /// the replay is not started again. A request that did not reach the
    /// storage engine fails with `ConnectionError`; the replay may then be
    /// started again. During a commit or rollback, `Done(true)` where the
    /// storage engine did it, else `ConnectionError`. With no request
    /// outstanding: `UnexpectedReport`.
    pub fn complete(&mut self, report: StorageReport) -> (r: Result<Step, XactError>)
        ensures
            final(self)@ == old(self)@.after_report(report),
            step_as_meant(r, old(self)@.report_result(report)),
    {
        match self {
            PgXactController::Local(_) => Err(XactError::UnexpectedReport),
            PgXactController::Surrogate(xact) => xact.complete(report),
        }
    }

    /// Records that the connection to the storage engine was seen to fail.
    /// A surrogate that holds a prepared transaction will from now on
    /// refuse `commit` and `rollback` with `ConnectionError`.
    pub fn connection_lost(&mut self)
        ensures
            final(self)@ == old(self)@.after_connection_loss(),
    {
        match self {
            PgXactController::Local(_) => {},
            PgXactController::Surrogate(xact) => xact.connection_lost(),
        }
    }
}

/// Whether `r` is what a finalise call owes a controller that was `before`.
pub open spec fn finalize_as_meant(
    before: ControllerView,
    commit: bool,
    r: Result<Option<StorageRequest>, XactError>,
) -> bool {
    match before.finalize_fault() {
        Some(e) => r matches Err(x) && x == e,
        None => match before {
            ControllerView::Local { .. } => r matches Ok(None) || (r matches Err(x) && x
                == XactError::SessionGone(commit)),
            ControllerView::Surrogate(s) => r matches Ok(Some(request)) && request@
                == s.finalize_request(commit),
        },
    }
}

/// A local controller is finalised once: whatever the first `commit` or
/// `rollback` returned, the controller refuses every later one with
/// `AlreadyFinalized`.
pub proof fn lemma_local_finalizes_once(c: ControllerView, first: bool, second: bool)
    requires
        c is Local,
    ensures
        c.after_finalize(first).finalize_fault() == Some(XactError::AlreadyFinalized),
        c.after_finalize(first).after_finalize(second) == c.after_finalize(first),
{
}

/// The surrogate after a replay whose four requests were all accepted.
pub open spec fn after_accepted_replay(c: ControllerView) -> ControllerView {
    c.after_execute().after_report(StorageReport::Accepted).after_report(
        StorageReport::Accepted,
    ).after_report(StorageReport::Accepted).after_report(StorageReport::Accepted)
}

/// A surrogate finalises in order. Before `execute`, while a step of the
/// replay is outstanding and after a replay that failed, `commit` and
/// `rollback` are refused with `NoConnection`. Once every step of the
/// replay was accepted, one finalise call is let through, and from then on,
/// before and after the driver's report on it, every other is refused with
/// `AlreadyFinalized`.
pub proof fn lemma_surrogate_finalizes_in_order(
    c: ControllerView,
    failure: StorageReport,
    first: bool,
    second: bool,
)
    requires
        c matches ControllerView::Surrogate(s) && s.phase is Idle && s.attempts < MAX_ATTEMPTS
            && decode_transaction(s.data) is Ok,
        !(failure is Accepted),
    ensures
        c.finalize_fault() == Some(XactError::NoConnection),
        c.after_finalize(first) == c,
        c.execute_fault() is None,
        ({
            let connecting = c.after_execute();
            let beginning = connecting.after_report(StorageReport::Accepted);
            let replaying = beginning.after_report(StorageReport::Accepted);
            let preparing = replaying.after_report(StorageReport::Accepted);
            &&& connecting.finalize_fault() == Some(XactError::NoConnection)
            &&& beginning.finalize_fault() == Some(XactError::NoConnection)
            &&& replaying.finalize_fault() == Some(XactError::NoConnection)
            &&& preparing.finalize_fault() == Some(XactError::NoConnection)
            &&& connecting.after_report(failure).finalize_fault() == Some(XactError::NoConnection)
            &&& beginning.after_report(failure).finalize_fault() == Some(XactError::NoConnection)
            &&& replaying.after_report(failure).finalize_fault() == Some(XactError::NoConnection)
            &&& preparing.after_report(failure).finalize_fault() == Some(XactError::NoConnection)
            &&& preparing.report_result(StorageReport::Accepted) == Ok::<StepView, XactError>(
                StepView::Done(true),
            )
        }),
        ({
            let prepared = after_accepted_replay(c);
            let finalizing = prepared.after_finalize(first);
            let finalized = finalizing.after_report(StorageReport::Accepted);
            &&& prepared.finalize_fault() is None
            &&& finalizing.finalize_fault() == Some(XactError::AlreadyFinalized)
            &&& finalizing.after_finalize(second) == finalizing
            &&& finalized.finalize_fault() == Some(XactError::AlreadyFinalized)
        }),
{
}

/// The requests of a replay come one by one and in order, and a request
/// that was not accepted is followed by none: no transaction is opened
/// without a connection, nothing is replayed outside a transaction, and
/// nothing is prepared after a replay that failed.
pub proof fn lemma_requests_in_order(s: SurrogateView, report: StorageReport)
    ensures
        s.report_result(report) matches Ok(StepView::Next(_)) ==> report is Accepted,
        s.report_result(report) matches Ok(StepView::Next(StorageRequestView::Begin)) <==> s.phase
            is Connecting && report is Accepted,
        s.report_result(report) matches Ok(StepView::Next(StorageRequestView::Replay { .. }))
            <==> s.phase is Beginning && report is Accepted,
        s.report_result(report) matches Ok(StepView::Next(StorageRequestView::Prepare { .. }))
            <==> s.phase is Replaying && report is Accepted,
        s.report_result(report) matches Ok(StepView::Next(StorageRequestView::Connect { .. }))
            ==> false,
        s.report_result(report) matches Ok(StepView::Next(r)) && (r is CommitPrepared || r
            is RollbackPrepared) <==> s.phase is Reconnecting && report is Accepted,
        s.report_result(report) == Ok::<StepView, XactError>(StepView::Done(true)) <==> (s.phase
            is Preparing || s.phase is Finalizing) && report is Accepted,
        !(s.phase is Prepared) ==> (s.phase.after_report(report) is Prepared <==> s.phase
            is Preparing && report is Accepted),
{
}

/// A prepared transaction stays recoverable: a recovered surrogate lets
/// one finalise call through, which asks for a connection and, once that
/// is accepted, for the decision under the transaction's name; and where
/// the connection is not made, the surrogate lets the next finalise call
/// through again.
pub proof fn lemma_recovery(s: SurrogateView, commit: bool, failure: StorageReport)
    requires
        s.phase is Unconfirmed,
        !(failure is Accepted),
    ensures
        s.phase.finalize_fault() is None,
        s.finalize_request(commit) == s.connect_request(),
        ({
            let reconnecting = s.in_phase(s.phase.after_finalize(commit));
            let finalizing = reconnecting.in_phase(
                reconnecting.phase.after_report(StorageReport::Accepted),
            );
            &&& reconnecting.phase.finalize_fault() == Some(XactError::AlreadyFinalized)
            &&& reconnecting.report_result(StorageReport::Accepted) == Ok::<
                StepView,
                XactError,
            >(StepView::Next(s.decision_request(commit)))
            &&& finalizing.phase is Finalizing
            &&& finalizing.report_result(StorageReport::Accepted) == Ok::<StepView, XactError>(
                StepView::Done(true),
            )
            &&& reconnecting.report_result(failure) == Err::<StepView, XactError>(
                XactError::ConnectionError,
            )
            &&& reconnecting.phase.after_report(failure) is Unconfirmed
        }),
        s.execute_fault() is Some,
{
}

/// A change-set that does not decode is never replayed, and a replay that
/// the storage engine refused is not started again: `execute` fails with
/// `Malformed` and changes nothing in the first case, and with
/// `AlreadyExecuted` in the second.
pub proof fn lemma_no_replay_of_malformed_or_refused(s: SurrogateView)
    ensures
        decode_transaction(s.data) matches Err(e) ==> s.execute_fault() == Some(
            XactError::Malformed(e),
        ) && s.after_execute() == s,
        s.phase.in_replay() && decode_transaction(s.data) is Ok ==> {
            let refused = s.in_phase(s.phase.after_report(StorageReport::Refused));
            &&& s.report_result(StorageReport::Refused) == Ok::<StepView, XactError>(
                StepView::Done(false),
            )
            &&& refused.phase is Refused
            &&& refused.execute_fault() == Some(XactError::AlreadyExecuted)
            &&& refused.after_execute() == refused
            &&& refused.phase.finalize_fault() == Some(XactError::NoConnection)
        },
{
}

/// The replay is tried a bounded number of times: every start counts, no
/// operation takes a start back, and after `MAX_ATTEMPTS` of them a
/// surrogate on which nothing is prepared refuses `execute` for good.
pub proof fn lemma_attempts_are_bounded(s: SurrogateView, report: StorageReport, commit: bool)
    requires
        s.attempts <= MAX_ATTEMPTS,
    ensures
        s.after_execute().attempts <= MAX_ATTEMPTS,
        s.execute_fault() is None ==> s.after_execute().attempts == s.attempts + 1,
        s.execute_fault() is Some ==> s.after_execute() == s,
        s.in_phase(s.phase.after_report(report)).attempts == s.attempts,
        s.in_phase(s.phase.after_finalize(commit)).attempts == s.attempts,
        s.in_phase(s.phase.after_connection_loss()).attempts == s.attempts,
        s.attempts == MAX_ATTEMPTS ==> s.execute_fault() is Some,
{
}

/// Transactions do not share a name: two ids differ exactly where the
/// names under which their transactions are prepared differ, and a name
/// is made of decimal digits alone.
pub proof fn lemma_prepared_names_differ(a: XactId, b: XactId)
    ensures
        prepared_name(a) == prepared_name(b) <==> a == b,
        prepared_name(a).len() > 0,
        all_digits(prepared_name(a)),
{
    lemma_decimal_is_read_back(a as nat);
    lemma_decimal_is_read_back(b as nat);
}

} // verus!
