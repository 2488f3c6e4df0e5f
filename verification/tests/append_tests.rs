use mail_core::append::{
    assemble_uids, AppendAction, AppendEvent, AppendTransaction, Failure, IngestOutcome, MailboxId,
    Phase, Session,
};
use mail_core::status::{ResponseCode, StatusResponse};
use std::collections::HashMap;

fn session(selected: Option<MailboxId>) -> Session {
    Session { selected, is_qresync: false }
}

fn inbox() -> MailboxId {
    MailboxId { account_id: 3, mailbox_id: Some(11) }
}

fn begin(messages: usize) -> AppendTransaction {
    match session(None).handle_append("a1", Some(inbox()), messages) {
        Ok(txn) => txn,
        Err(_) => panic!("the mailbox takes messages"),
    }
}

fn text(response: StatusResponse) -> String {
    String::from_utf8(response.into_bytes()).unwrap()
}

fn stored(document_id: u32, change_id: u64) -> AppendEvent {
    AppendEvent::Ingested(IngestOutcome::Stored { document_id, change_id })
}

#[test]
fn append_to_non_existent_mailbox() {
    match session(None).handle_append("a1", None, 1) {
        Err(response) => assert_eq!(text(response), "a1 NO [TRYCREATE] Mailbox does not exist.\r\n"),
        Ok(_) => panic!("there is no mailbox"),
    }
}

#[test]
fn append_to_virtual_mailbox() {
    let all = MailboxId { account_id: 3, mailbox_id: None };
    match session(None).handle_append("t", Some(all), 1) {
        Err(response) => assert_eq!(
            text(response),
            "t NO [CANNOT] Appending messages to this mailbox is not allowed.\r\n"
        ),
        Ok(_) => panic!("the mailbox is virtual"),
    }
}

#[test]
fn append_without_permission() {
    let mut txn = begin(2);
    assert_eq!(txn.phase(), Phase::Start);
    assert_eq!(
        txn.step(AppendEvent::Start),
        AppendAction::CheckAcl { account_id: 3, mailbox_id: 11 }
    );
    assert_eq!(txn.step(AppendEvent::Acl(false)), AppendAction::Done);
    assert_eq!(txn.failure(), Some(Failure::NoPermission));
    assert_eq!(
        text(txn.response("a1", "", None)),
        "a1 NO [NOPERM] You do not have the required permissions to append messages to this mailbox.\r\n"
    );
}

#[test]
fn append_stores_each_message_and_broadcasts_once() {
    let mut txn = begin(3);
    let mut actions = vec![
        txn.step(AppendEvent::Start),
        txn.step(AppendEvent::Acl(true)),
        txn.step(AppendEvent::Quota(5000)),
        txn.step(stored(40, 100)),
        txn.step(stored(41, 101)),
        txn.step(stored(42, 102)),
        txn.step(AppendEvent::Broadcasted),
        txn.step(AppendEvent::UidsResolved),
    ];
    assert_eq!(
        actions,
        vec![
            AppendAction::CheckAcl { account_id: 3, mailbox_id: 11 },
            AppendAction::FetchQuota,
            AppendAction::Ingest { index: 0, account_id: 3, account_quota: 5000, mailbox_id: 11 },
            AppendAction::Ingest { index: 1, account_id: 3, account_quota: 5000, mailbox_id: 11 },
            AppendAction::Ingest { index: 2, account_id: 3, account_quota: 5000, mailbox_id: 11 },
            AppendAction::Broadcast { account_id: 3, change_id: 102 },
            AppendAction::ResolveUids { from_selected: false },
            AppendAction::Done,
        ]
    );
    actions.retain(|a| matches!(a, AppendAction::Broadcast { .. }));
    assert_eq!(actions.len(), 1);
    assert_eq!(txn.created_ids(), &[40, 41, 42]);
    assert_eq!(txn.last_change_id(), Some(102));
    assert_eq!(txn.failure(), None);
    assert_eq!(txn.phase(), Phase::Done);
    assert_eq!(
        text(txn.response("a7", "", Some((99, vec![5, 6, 7])))),
        "a7 OK [APPENDUID 99 5,6,7] APPEND completed\r\n"
    );
}

#[test]
fn append_over_quota_on_third_of_five() {
    let mut txn = begin(5);
    txn.step(AppendEvent::Start);
    txn.step(AppendEvent::Acl(true));
    txn.step(AppendEvent::Quota(1000));
    assert_eq!(
        txn.step(stored(1, 10)),
        AppendAction::Ingest { index: 1, account_id: 3, account_quota: 1000, mailbox_id: 11 }
    );
    assert_eq!(
        txn.step(stored(2, 11)),
        AppendAction::Ingest { index: 2, account_id: 3, account_quota: 1000, mailbox_id: 11 }
    );
    assert_eq!(
        txn.step(AppendEvent::Ingested(IngestOutcome::OverQuota)),
        AppendAction::Broadcast { account_id: 3, change_id: 11 }
    );
    assert_eq!(txn.created_ids(), &[1, 2]);
    assert_eq!(
        txn.step(AppendEvent::Broadcasted),
        AppendAction::ResolveUids { from_selected: false }
    );
    assert_eq!(txn.step(AppendEvent::UidsResolved), AppendAction::Done);
    assert_eq!(txn.failure(), Some(Failure::OverQuota));
    assert_eq!(
        text(txn.response("a1", "", Some((9, vec![1, 2])))),
        "a1 NO [OVERQUOTA] Disk quota exceeded.\r\n"
    );
}

#[test]
fn append_failure_on_first_message_sends_nothing() {
    let mut txn = begin(2);
    txn.step(AppendEvent::Start);
    txn.step(AppendEvent::Acl(true));
    txn.step(AppendEvent::Quota(0));
    assert_eq!(txn.step(AppendEvent::Ingested(IngestOutcome::Temporary)), AppendAction::Done);
    assert_eq!(txn.created_ids().len(), 0);
    assert_eq!(text(txn.response("x", "", None)), "x NO [CONTACTADMIN] Database failure.\r\n");
    let mut txn = begin(1);
    txn.step(AppendEvent::Start);
    txn.step(AppendEvent::Acl(true));
    txn.step(AppendEvent::Quota(0));
    assert_eq!(txn.step(AppendEvent::Ingested(IngestOutcome::Permanent)), AppendAction::Done);
    assert_eq!(text(txn.response("x", "Message too large.", None)), "x NO Message too large.\r\n");
}

#[test]
fn append_of_no_messages_completes() {
    let mut txn = begin(0);
    txn.step(AppendEvent::Start);
    txn.step(AppendEvent::Acl(true));
    assert_eq!(txn.step(AppendEvent::Quota(1)), AppendAction::Done);
    assert_eq!(text(txn.response("a", "", None)), "a OK APPEND completed\r\n");
}

#[test]
fn append_ignores_events_out_of_turn() {
    let mut txn = begin(1);
    assert_eq!(txn.step(AppendEvent::Acl(true)), AppendAction::Unexpected);
    assert_eq!(txn.phase(), Phase::Start);
    txn.step(AppendEvent::Start);
    assert_eq!(txn.step(stored(1, 1)), AppendAction::Unexpected);
    assert_eq!(txn.created_ids().len(), 0);
    assert_eq!(txn.phase(), Phase::CheckingAcl);
}

#[test]
fn append_quota_keeps_its_bits() {
    let mut txn = begin(1);
    txn.step(AppendEvent::Start);
    txn.step(AppendEvent::Acl(true));
    assert_eq!(
        txn.step(AppendEvent::Quota(u64::MAX)),
        AppendAction::Ingest { index: 0, account_id: 3, account_quota: -1, mailbox_id: 11 }
    );
    let mut txn = begin(1);
    txn.step(AppendEvent::Start);
    txn.step(AppendEvent::Acl(true));
    assert_eq!(
        txn.step(AppendEvent::Quota(1 << 63)),
        AppendAction::Ingest { index: 0, account_id: 3, account_quota: i64::MIN, mailbox_id: 11 }
    );
}

#[test]
fn append_reads_uids_from_the_selected_mailbox_when_it_is_the_target() {
    let mut txn = match session(Some(inbox())).handle_append("a", Some(inbox()), 1) {
        Ok(txn) => txn,
        Err(_) => panic!("the mailbox takes messages"),
    };
    txn.step(AppendEvent::Start);
    txn.step(AppendEvent::Acl(true));
    txn.step(AppendEvent::Quota(1));
    txn.step(stored(1, 1));
    assert_eq!(
        txn.step(AppendEvent::Broadcasted),
        AppendAction::ResolveUids { from_selected: true }
    );
    let other = MailboxId { account_id: 3, mailbox_id: Some(12) };
    let mut txn = match session(Some(other)).handle_append("a", Some(inbox()), 1) {
        Ok(txn) => txn,
        Err(_) => panic!("the mailbox takes messages"),
    };
    txn.step(AppendEvent::Start);
    txn.step(AppendEvent::Acl(true));
    txn.step(AppendEvent::Quota(1));
    txn.step(stored(1, 1));
    assert_eq!(
        txn.step(AppendEvent::Broadcasted),
        AppendAction::ResolveUids { from_selected: false }
    );
}

#[test]
fn append_uid_order() {
    let mut id_to_uid = HashMap::new();
    id_to_uid.insert(40u32, 7u32);
    id_to_uid.insert(41, 3);
    id_to_uid.insert(43, 9);
    assert_eq!(assemble_uids(&[40, 41, 42, 43], &id_to_uid), vec![7, 3, 9]);
    assert_eq!(assemble_uids(&[43, 40], &id_to_uid), vec![9, 7]);
    assert_eq!(assemble_uids(&[42], &id_to_uid), Vec::<u32>::new());
    assert_eq!(assemble_uids(&[], &id_to_uid), Vec::<u32>::new());
}

#[test]
fn status_responses_on_the_wire() {
    assert_eq!(text(StatusResponse::no("Nope.")), "* NO Nope.\r\n");
    assert_eq!(text(StatusResponse::completed("APPEND").with_tag("a")), "a OK APPEND completed\r\n");
    assert_eq!(
        text(StatusResponse::database_failure().with_tag("b")),
        "b NO [CONTACTADMIN] Database failure.\r\n"
    );
    let code = ResponseCode::AppendUid { uid_validity: 4_294_967_295, uids: vec![0, 10, 4_000_000_000] };
    assert_eq!(
        text(StatusResponse::completed("APPEND").with_code(code)),
        "* OK [APPENDUID 4294967295 0,10,4000000000] APPEND completed\r\n"
    );
    let code = ResponseCode::AppendUid { uid_validity: 1, uids: vec![] };
    assert_eq!(
        text(StatusResponse::completed("APPEND").with_code(code)),
        "* OK [APPENDUID 1 ] APPEND completed\r\n"
    );
}
