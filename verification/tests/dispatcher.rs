use bytes::Bytes;
use tokio::sync::oneshot;
use xactserver::transaction::{DecodeError, Tuple};
use xactserver::pg::dispatcher::{
    Conclusion, Handling, PgDispatcher, Reception, Rejection, Resolution,
};
use xactserver::pg::xact_controller::{
    PgXactController, Step, StorageReport, StorageRequest, XactError, MAX_ATTEMPTS,
};
use xactserver::text::{decimal_string, parse_u16};
use xactserver::transaction::{Relation, Transaction};
use xactserver::XsMessage;

const CONN_STR: &str =
    "host=10.0.0.7 port=5432 user=cloud_admin dbname=postgres application_name=xactserver";

const ACCEPTED: StorageReport = StorageReport::Accepted;
const REFUSED: StorageReport = StorageReport::Refused;
const UNREACHABLE: StorageReport = StorageReport::Unreachable;

fn voted(conclusion: Conclusion) -> (bool, bool) {
    match conclusion {
        Conclusion::Voted { vote, undelivered } => {
            assert!(undelivered.is_none() || undelivered == Some(vote));
            (vote, undelivered.is_none())
        }
        Conclusion::Proceed { .. } => panic!("the replay goes on"),
    }
}

fn started(
    xact_id: u64,
    vote_tx: oneshot::Sender<bool>,
) -> (PgXactController, StorageRequest, oneshot::Sender<bool>) {
    let dispatcher = PgDispatcher::new("10.0.0.7:5432");
    let msg = XsMessage::SurrogateXact { xact_id, data: change_set(), vote_tx };
    match dispatcher.handle(msg) {
        Handling::Started { controller, request, vote_tx } => (controller, request, vote_tx),
        _ => panic!("the transaction was not started"),
    }
}

/// Gives the dispatcher one report after the other until it votes; hands
/// back the requests that it asked for on the way, and the vote.
fn drive(
    controller: &mut PgXactController,
    vote_tx: oneshot::Sender<bool>,
    reports: &[StorageReport],
) -> (Vec<StorageRequest>, bool, bool) {
    let mut asked = Vec::new();
    let mut vote_tx = vote_tx;
    for (i, report) in reports.iter().enumerate() {
        match PgDispatcher::conclude(controller, vote_tx, *report) {
            Conclusion::Proceed { request, vote_tx: kept } => {
                asked.push(request);
                vote_tx = kept;
            }
            end => {
                assert_eq!(i + 1, reports.len());
                let (vote, delivered) = voted(end);
                return (asked, vote, delivered);
            }
        }
    }
    panic!("the transaction was not voted on");
}

fn connect() -> StorageRequest {
    StorageRequest::Connect { conn_str: String::from(CONN_STR) }
}

fn replay() -> StorageRequest {
    StorageRequest::Replay { change_set: change_set() }
}

fn prepare(xact_id: u64) -> StorageRequest {
    StorageRequest::Prepare { name: xact_id.to_string() }
}

fn change_set() -> Bytes {
    let t = Transaction {
        database_id: 5,
        origin_xid: 42,
        relations: vec![Relation::Table {
            oid: 100,
            commit_sequence_number: 7,
            tuples: vec![Tuple { block_number: 3, offset: 1 }],
        }],
    };
    Bytes::from(t.encode().unwrap())
}

#[test]
fn decimal_string_is_exact() {
    assert_eq!(decimal_string(0), "0");
    assert_eq!(decimal_string(7), "7");
    assert_eq!(decimal_string(10), "10");
    assert_eq!(decimal_string(1234567890), "1234567890");
    assert_eq!(decimal_string(u64::MAX), "18446744073709551615");
}

#[test]
fn parse_u16_reads_decimal_digits() {
    assert_eq!(parse_u16("0"), Some(0));
    assert_eq!(parse_u16("5432"), Some(5432));
    assert_eq!(parse_u16("65535"), Some(65535));
    assert_eq!(parse_u16("0005432"), Some(5432));
}

#[test]
fn parse_u16_refuses_what_is_no_port() {
    assert_eq!(parse_u16(""), None);
    assert_eq!(parse_u16("65536"), None);
    assert_eq!(parse_u16("99999999999999999999"), None);
    assert_eq!(parse_u16("54a2"), None);
    assert_eq!(parse_u16("-1"), None);
    assert_eq!(parse_u16("+1"), None);
    assert_eq!(parse_u16(" 1"), None);
    assert_eq!(parse_u16("70000x"), None);
}

#[test]
fn endpoint_splits_host_and_port() {
    assert_eq!(
        PgDispatcher::new("127.0.0.1:5432").endpoint(),
        Some((String::from("127.0.0.1"), 5432))
    );
    assert_eq!(PgDispatcher::new("db:1").endpoint(), Some((String::from("db"), 1)));
    assert_eq!(PgDispatcher::new(":80").endpoint(), Some((String::new(), 80)));
    assert_eq!(PgDispatcher::new("db:5432:rest").endpoint(), Some((String::from("db"), 5432)));
}

#[test]
fn endpoint_of_a_bad_address_is_none() {
    assert_eq!(PgDispatcher::new("").endpoint(), None);
    assert_eq!(PgDispatcher::new("localhost").endpoint(), None);
    assert_eq!(PgDispatcher::new("localhost:").endpoint(), None);
    assert_eq!(PgDispatcher::new("localhost:pg").endpoint(), None);
    assert_eq!(PgDispatcher::new("localhost:65536").endpoint(), None);
    assert_eq!(PgDispatcher::new("localhost::5432").endpoint(), None);
}

#[test]
fn change_set_is_the_documented_one() {
    assert_eq!(
        &change_set()[..],
        &[
            0u8, 0, 0, 5, 0, 0, 0, 42, 0, 0, 0, 15, b'T', 0, 0, 0, 100, 0, 0, 0, 7, 0, 0, 0, 3, 0,
            1
        ][..]
    );
}

#[test]
fn receive_hands_out_the_channel_with_a_no_for_a_rejected_transaction() {
    let dispatcher = PgDispatcher::new("10.0.0.7:5432");
    let (vote_tx, mut vote_rx) = oneshot::channel();
    let msg = XsMessage::SurrogateXact { xact_id: 9, data: Bytes::from(vec![1u8]), vote_tx };
    match dispatcher.receive(msg) {
        Reception::Reject { reason, vote_tx, vote } => {
            assert_eq!(
                reason,
                Rejection::Refused(XactError::Malformed(DecodeError::TruncatedHeader))
            );
            assert!(!vote);
            assert!(vote_rx.try_recv().is_err());
            assert_eq!(vote_tx.send(vote), Ok(()));
            assert_eq!(vote_rx.try_recv(), Ok(false));
        }
        _ => panic!("the transaction was not rejected"),
    }
}

#[test]
fn resolve_hands_out_the_channel_with_the_vote() {
    for (last, expected) in [(ACCEPTED, true), (REFUSED, false)] {
        let dispatcher = PgDispatcher::new("10.0.0.7:5432");
        let (vote_tx, mut vote_rx) = oneshot::channel();
        let msg = XsMessage::SurrogateXact { xact_id: 9, data: change_set(), vote_tx };
        let (mut controller, mut vote_tx) = match dispatcher.receive(msg) {
            Reception::Start { controller, request, vote_tx } => {
                assert_eq!(request, connect());
                (controller, vote_tx)
            }
            _ => panic!("the transaction was not started"),
        };
        for expected_request in [StorageRequest::Begin, replay(), prepare(9)] {
            match PgDispatcher::resolve(&mut controller, vote_tx, ACCEPTED) {
                Resolution::Proceed { request, vote_tx: kept } => {
                    assert_eq!(request, expected_request);
                    vote_tx = kept;
                }
                Resolution::Vote { .. } => panic!("the replay was cut short"),
            }
        }
        match PgDispatcher::resolve(&mut controller, vote_tx, last) {
            Resolution::Vote { vote_tx, vote } => {
                assert_eq!(vote, expected);
                assert!(vote_rx.try_recv().is_err());
                assert_eq!(vote_tx.send(vote), Ok(()));
                assert_eq!(vote_rx.try_recv(), Ok(expected));
            }
            Resolution::Proceed { .. } => panic!("the replay goes on"),
        }
    }
}

#[test]
fn prepare_that_the_storage_engine_accepts_gets_a_yes() {
    let (vote_tx, mut vote_rx) = oneshot::channel();
    let (mut controller, first, vote_tx) = started(9, vote_tx);
    assert_eq!(first, connect());
    assert!(vote_rx.try_recv().is_err());
    let (asked, vote, delivered) =
        drive(&mut controller, vote_tx, &[ACCEPTED, ACCEPTED, ACCEPTED, ACCEPTED]);
    assert_eq!(asked, vec![StorageRequest::Begin, replay(), prepare(9)]);
    assert_eq!((vote, delivered), (true, true));
    assert_eq!(vote_rx.try_recv(), Ok(true));
    assert_eq!(
        controller.commit(),
        Ok(Some(StorageRequest::CommitPrepared { name: String::from("9") }))
    );
}

#[test]
fn prepare_that_the_storage_engine_refuses_gets_a_no() {
    let (vote_tx, mut vote_rx) = oneshot::channel();
    let (mut controller, _, vote_tx) = started(9, vote_tx);
    let (asked, vote, delivered) =
        drive(&mut controller, vote_tx, &[ACCEPTED, ACCEPTED, ACCEPTED, REFUSED]);
    assert_eq!(asked, vec![StorageRequest::Begin, replay(), prepare(9)]);
    assert_eq!((vote, delivered), (false, true));
    assert_eq!(vote_rx.try_recv(), Ok(false));
    assert_eq!(controller.commit(), Err(XactError::NoConnection));
}

#[test]
fn replay_that_the_storage_engine_refuses_gets_a_no_and_no_prepare() {
    let (vote_tx, mut vote_rx) = oneshot::channel();
    let (mut controller, _, vote_tx) = started(9, vote_tx);
    let (asked, vote, delivered) = drive(&mut controller, vote_tx, &[ACCEPTED, ACCEPTED, REFUSED]);
    assert_eq!(asked, vec![StorageRequest::Begin, replay()]);
    assert_eq!((vote, delivered), (false, true));
    assert_eq!(vote_rx.try_recv(), Ok(false));
    assert_eq!(controller.execute(), Err(XactError::AlreadyExecuted));
}

#[test]
fn refused_connection_gets_a_no_at_once() {
    let (vote_tx, mut vote_rx) = oneshot::channel();
    let (mut controller, _, vote_tx) = started(9, vote_tx);
    let (asked, vote, delivered) = drive(&mut controller, vote_tx, &[REFUSED]);
    assert_eq!(asked, vec![]);
    assert_eq!((vote, delivered), (false, true));
    assert_eq!(vote_rx.try_recv(), Ok(false));
}

#[test]
fn unreachable_storage_engine_is_tried_again_then_gets_a_no() {
    let (vote_tx, mut vote_rx) = oneshot::channel();
    let (mut controller, _, vote_tx) = started(9, vote_tx);
    let reports = vec![UNREACHABLE; MAX_ATTEMPTS as usize];
    let (asked, vote, delivered) = drive(&mut controller, vote_tx, &reports);
    assert_eq!(asked, vec![connect(); MAX_ATTEMPTS as usize - 1]);
    assert_eq!((vote, delivered), (false, true));
    assert_eq!(vote_rx.try_recv(), Ok(false));
    assert_eq!(controller.execute(), Err(XactError::RetriesExhausted));
    assert_eq!(controller.commit(), Err(XactError::NoConnection));
}

#[test]
fn connection_that_breaks_during_the_replay_is_made_anew() {
    let (vote_tx, mut vote_rx) = oneshot::channel();
    let (mut controller, _, vote_tx) = started(9, vote_tx);
    let (asked, vote, delivered) = drive(
        &mut controller,
        vote_tx,
        &[ACCEPTED, ACCEPTED, UNREACHABLE, ACCEPTED, ACCEPTED, ACCEPTED, ACCEPTED],
    );
    assert_eq!(
        asked,
        vec![
            StorageRequest::Begin,
            replay(),
            connect(),
            StorageRequest::Begin,
            replay(),
            prepare(9)
        ]
    );
    assert_eq!((vote, delivered), (true, true));
    assert_eq!(vote_rx.try_recv(), Ok(true));
    assert!(controller.commit().is_ok());
}

#[test]
fn acknowledged_commit_is_no_yes_vote() {
    let (vote_tx, mut vote_rx) = oneshot::channel();
    let (mut controller, _, vote_tx) = started(9, vote_tx);
    for _ in 0..3 {
        assert!(matches!(controller.complete(ACCEPTED), Ok(Step::Next(_))));
    }
    assert_eq!(controller.complete(ACCEPTED), Ok(Step::Done(true)));
    assert!(controller.commit().is_ok());
    let end = PgDispatcher::conclude(&mut controller, vote_tx, ACCEPTED);
    assert_eq!(voted(end), (false, true));
    assert_eq!(vote_rx.try_recv(), Ok(false));
}

#[test]
fn malformed_change_set_gets_a_no_at_once() {
    let dispatcher = PgDispatcher::new("10.0.0.7:5432");
    let (vote_tx, mut vote_rx) = oneshot::channel();
    let mut bytes = change_set().to_vec();
    bytes[12] = b'?';
    let msg = XsMessage::SurrogateXact { xact_id: 9, data: Bytes::from(bytes), vote_tx };
    match dispatcher.handle(msg) {
        Handling::Rejected { reason, undelivered } => {
            assert_eq!(
                reason,
                Rejection::Refused(XactError::Malformed(DecodeError::UnknownRelationKind(b'?')))
            );
            assert_eq!(undelivered, None);
        }
        _ => panic!("the transaction was not rejected"),
    }
    assert_eq!(vote_rx.try_recv(), Ok(false));
}

#[test]
fn truncated_change_set_gets_a_no_at_once() {
    let dispatcher = PgDispatcher::new("10.0.0.7:5432");
    let (vote_tx, mut vote_rx) = oneshot::channel();
    let data = change_set().slice(..20);
    match dispatcher.handle(XsMessage::SurrogateXact { xact_id: 9, data, vote_tx }) {
        Handling::Rejected { reason, undelivered } => {
            assert_eq!(
                reason,
                Rejection::Refused(XactError::Malformed(DecodeError::TruncatedPayload))
            );
            assert_eq!(undelivered, None);
        }
        _ => panic!("the transaction was not rejected"),
    }
    assert_eq!(vote_rx.try_recv(), Ok(false));
}

#[test]
fn bad_address_gets_a_no_at_once() {
    let dispatcher = PgDispatcher::new("nowhere");
    let (vote_tx, mut vote_rx) = oneshot::channel();
    match dispatcher.handle(XsMessage::SurrogateXact { xact_id: 9, data: change_set(), vote_tx }) {
        Handling::Rejected { reason, undelivered } => {
            assert_eq!(reason, Rejection::NoEndpoint);
            assert_eq!(undelivered, None);
        }
        _ => panic!("the transaction was not rejected"),
    }
    assert_eq!(vote_rx.try_recv(), Ok(false));
}

#[test]
fn bad_address_is_found_before_a_malformed_change_set() {
    let dispatcher = PgDispatcher::new("nowhere");
    assert!(matches!(dispatcher.start(1, Bytes::new()), Err(Rejection::NoEndpoint)));
}

#[test]
fn vote_that_nobody_awaits_is_not_delivered() {
    let (vote_tx, vote_rx) = oneshot::channel();
    drop(vote_rx);
    let (mut controller, _, vote_tx) = started(9, vote_tx);
    let (_, vote, delivered) =
        drive(&mut controller, vote_tx, &[ACCEPTED, ACCEPTED, ACCEPTED, ACCEPTED]);
    assert_eq!((vote, delivered), (true, false));
    let dispatcher = PgDispatcher::new("10.0.0.7:5432");
    let (vote_tx, vote_rx) = oneshot::channel();
    drop(vote_rx);
    let data = Bytes::new();
    match dispatcher.handle(XsMessage::SurrogateXact { xact_id: 9, data, vote_tx }) {
        Handling::Rejected { reason, undelivered } => {
            assert_eq!(
                reason,
                Rejection::Refused(XactError::Malformed(DecodeError::TruncatedHeader))
            );
            assert_eq!(undelivered, Some(false));
        }
        _ => panic!("the transaction was not rejected"),
    }
}

#[test]
fn other_messages_are_ignored() {
    let dispatcher = PgDispatcher::new("10.0.0.7:5432");
    assert!(matches!(
        dispatcher.handle(XsMessage::Prepare { xact_id: 1, data: change_set() }),
        Handling::Ignored
    ));
    assert!(matches!(
        dispatcher.handle(XsMessage::Vote { xact_id: 1, vote: true }),
        Handling::Ignored
    ));
}

#[test]
fn start_hands_out_the_connection_request() {
    let dispatcher = PgDispatcher::new("h:1");
    match dispatcher.start(3, change_set()) {
        Ok((mut controller, StorageRequest::Connect { conn_str })) => {
            assert_eq!(
                conn_str,
                "host=h port=1 user=cloud_admin dbname=postgres application_name=xactserver"
            );
            assert_eq!(controller.complete(ACCEPTED), Ok(Step::Next(StorageRequest::Begin)));
            assert_eq!(controller.complete(ACCEPTED), Ok(Step::Next(replay())));
        }
        _ => panic!("the transaction was not started"),
    }
}

#[test]
fn transactions_are_handled_independently() {
    let (tx_a, mut rx_a) = oneshot::channel();
    let (tx_b, mut rx_b) = oneshot::channel();
    let (mut ca, _, va) = started(1, tx_a);
    let (mut cb, _, vb) = started(2, tx_b);
    let (asked_b, vote_b, _) = drive(&mut cb, vb, &[ACCEPTED, ACCEPTED, ACCEPTED, ACCEPTED]);
    assert_eq!(asked_b, vec![StorageRequest::Begin, replay(), prepare(2)]);
    assert!(vote_b);
    assert_eq!(rx_b.try_recv(), Ok(true));
    assert!(rx_a.try_recv().is_err());
    let (asked_a, vote_a, _) = drive(&mut ca, va, &[ACCEPTED, REFUSED]);
    assert_eq!(asked_a, vec![StorageRequest::Begin]);
    assert!(!vote_a);
    assert_eq!(rx_a.try_recv(), Ok(false));
    assert_eq!(
        cb.commit(),
        Ok(Some(StorageRequest::CommitPrepared { name: String::from("2") }))
    );
}

#[test]
fn written_port_is_read_back() {
    for port in [0u16, 1, 9, 10, 99, 100, 5432, 65535] {
        assert_eq!(parse_u16(&decimal_string(port as u64)), Some(port));
    }
}

#[test]
fn written_address_is_read_back() {
    for (host, port) in [("127.0.0.1", 5432u16), ("db.internal", 1), ("", 65535)] {
        let addr = format!("{}:{}", host, decimal_string(port as u64));
        assert_eq!(PgDispatcher::new(&addr).endpoint(), Some((String::from(host), port)));
    }
}
