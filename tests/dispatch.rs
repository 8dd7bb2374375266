use stock_server::dispatch::{
    frame_line, open_job, plan_job, request_bytes, ConnectionHandler, ConnectionIds, Phase, Work,
};
use stock_server::error::PersistanceError;
use stock_server::job::Job;
use stock_server::operation::Operation;
use stock_server::reply::{help_message, help_reply, outcome_reply, reply_bytes, wrapped_reply, ResponseWrapper};
use stock_server::wire::ByteOperations;

fn payload_of(reply: &Vec<u8>) -> Vec<u8> {
    Job::from_bytes(reply).unwrap().payload
}

#[test]
fn frame_line_strips_trailing_line_feeds() {
    assert_eq!(frame_line(b"help\n"), Some(String::from("help")));
    assert_eq!(frame_line(b"help\n\n"), Some(String::from("help")));
    assert_eq!(frame_line(b"help"), Some(String::from("help")));
    assert_eq!(frame_line(b"a\nb\n"), Some(String::from("a\nb")));
    assert_eq!(frame_line(b"\n"), Some(String::from("")));
    assert_eq!(frame_line(&[0xff, 0xfe]), None);
}

#[test]
fn handler_submits_valid_operations() {
    let mut h = ConnectionHandler::new(4);
    let sent = h.submit(&Operation::Help);
    assert_eq!(sent, Some(request_bytes(4, &Operation::Help)));
    assert_eq!(h.phase, Phase::AwaitingReply);
    assert_eq!(open_job(&sent.unwrap()), Some((4, Operation::Help)));
}

#[test]
fn handler_drops_error_lines() {
    let mut h = ConnectionHandler::new(1);
    let op = Operation::from_line("delete_stock", None);
    assert_eq!(h.submit(&op), None);
    assert_eq!(h.phase, Phase::AwaitingLine);
    let op = Operation::from_line("bogus", None);
    assert_eq!(h.submit(&op), None);
    assert_eq!(h.phase, Phase::AwaitingLine);
}

#[test]
fn handler_keeps_one_request_in_flight() {
    let mut h = ConnectionHandler::new(1);
    assert!(h.submit(&Operation::GetPortfolio).is_some());
    assert_eq!(h.submit(&Operation::Help), None);
    assert_eq!(h.phase, Phase::AwaitingReply);
}

#[test]
fn replies_reach_only_their_connection() {
    let mut ids = ConnectionIds::new();
    let a = ids.allocate().unwrap();
    let b = ids.allocate().unwrap();
    assert_ne!(a, b);
    let mut ha = ConnectionHandler::new(a);
    let mut hb = ConnectionHandler::new(b);
    let ja = ha.submit(&Operation::Help).unwrap();
    let _jb = hb.submit(&Operation::GetPortfolio).unwrap();
    let (id, op) = open_job(&ja).unwrap();
    assert_eq!(id, a);
    let reply = match plan_job(id, op) {
        Work::Reply(r) => r,
        other => panic!("unexpected work {:?}", other),
    };
    assert_eq!(hb.accept_reply(&reply), None);
    assert_eq!(hb.phase, Phase::AwaitingReply);
    let mut expected = payload_of(&reply);
    expected.push(b'\n');
    assert_eq!(ha.accept_reply(&reply), Some(expected));
    assert_eq!(ha.phase, Phase::AwaitingLine);
}

#[test]
fn reply_is_refused_when_not_waiting() {
    let mut h = ConnectionHandler::new(2);
    assert_eq!(h.accept_reply(&reply_bytes(2, &vec![1])), None);
    h.close();
    assert_eq!(h.phase, Phase::Closed);
    assert_eq!(h.submit(&Operation::Help), None);
}

#[test]
fn garbage_reply_is_refused() {
    let mut h = ConnectionHandler::new(2);
    h.submit(&Operation::Help).unwrap();
    assert_eq!(h.accept_reply(&vec![2, 0]), None);
    assert_eq!(h.phase, Phase::AwaitingReply);
}

#[test]
fn connection_ids_count_up_and_never_repeat() {
    let mut ids = ConnectionIds::new();
    assert_eq!(ids.allocate(), Some(0));
    assert_eq!(ids.allocate(), Some(1));
    assert_eq!(ids.allocate(), Some(2));
    let mut last = ConnectionIds { next: u32::MAX as u64 };
    assert_eq!(last.allocate(), Some(u32::MAX));
    assert_eq!(last.allocate(), None);
    assert_eq!(last.allocate(), None);
}

#[test]
fn open_job_refuses_bad_payload() {
    assert_eq!(open_job(&Job::envelope(3, &vec![9, 9, 9, 9])), None);
    assert_eq!(open_job(&vec![1, 2, 3]), None);
    let req = request_bytes(5, &Operation::DeleteStock(String::from("X")));
    assert_eq!(open_job(&req), Some((5, Operation::DeleteStock(String::from("X")))));
}

#[test]
fn plan_job_dispatches_by_variant() {
    assert_eq!(plan_job(1, Operation::GetPortfolio), Work::ListStored);
    assert_eq!(plan_job(1, Operation::ListAvailable), Work::ListAvailable);
    assert_eq!(plan_job(1, Operation::UpdatePrices), Work::Nothing);
    assert_eq!(plan_job(1, Operation::Error), Work::Nothing);
    assert_eq!(
        plan_job(1, Operation::DeleteStock(String::from("A"))),
        Work::Remove(String::from("A"))
    );
    assert_eq!(plan_job(9, Operation::Help), Work::Reply(help_reply(9)));
}

#[test]
fn help_reply_lists_commands() {
    assert_eq!(help_message(), "Available commands: list_available, get_portfolio, help");
    let reply = help_reply(6);
    let job = Job::from_bytes(&reply).unwrap();
    assert_eq!(job.id, 6);
    assert_eq!(
        String::from_utf8(job.payload).unwrap(),
        "{\"response\":\"Available commands: list_available, get_portfolio, help\"}"
    );
}

#[test]
fn outcome_replies_are_true_or_false() {
    let ok = outcome_reply(3, &Ok(()));
    assert_eq!(payload_of(&ok), b"{\"response\":\"true\"}".to_vec());
    let failed = outcome_reply(3, &Err(PersistanceError::CouldNotInsert(String::from("locked"))));
    assert_eq!(payload_of(&failed), b"{\"response\":\"false\"}".to_vec());
    assert_eq!(Job::from_bytes(&failed).unwrap().id, 3);
}

#[test]
fn wrapped_text_is_json_escaped() {
    let reply = wrapped_reply(1, "a\"b\\c\n");
    assert_eq!(payload_of(&reply), b"{\"response\":\"a\\\"b\\\\c\\n\"}".to_vec());
    let w = ResponseWrapper { response: "plain" };
    assert_eq!(w.to_json(), b"{\"response\":\"plain\"}".to_vec());
}

#[test]
fn list_reply_carries_payload_unchanged() {
    let json = b"[{\"symbol\":\"A\"}]".to_vec();
    let reply = reply_bytes(8, &json);
    assert_eq!(Job::from_bytes(&reply), Some(Job { id: 8, payload: json }));
}
