//! The APPEND transaction: permission, quota, one ingest per message until
//! the first failure, one change notification, the UIDs of what was stored,
//! and the tagged response. The caller performs each action and reports its
//! outcome; an outcome that a collaborator could not give ends the
//! transaction at the caller, with that collaborator's response.

use crate::status::ResponseCode;
use crate::status::ResponseCodeView;
use crate::status::ResponseType;
use crate::status::StatusResponse;
use crate::status::StatusResponseView;
use std::collections::HashMap;
use vstd::prelude::*;
use vstd::std_specs::hash::group_hash_axioms;

verus! {

broadcast use group_hash_axioms;

/// A mailbox of an account; `mailbox_id` is absent for a virtual mailbox.
#[derive(Clone, Copy, Debug, PartialEq, Eq, Structural)]
pub struct MailboxId {
    pub account_id: u32,
    pub mailbox_id: Option<u32>,
}

/// How far a transaction has come.
#[derive(Clone, Copy, Debug, PartialEq, Eq, Structural)]
pub enum Phase {
    Start,
    CheckingAcl,
    FetchingQuota,
    Ingesting,
    Broadcasting,
    ResolvingUids,
    Done,
}

/// Why a transaction stored no more messages.
#[derive(Clone, Copy, Debug, PartialEq, Eq, Structural)]
pub enum Failure {
    NoPermission,
    Temporary,
    OverQuota,
    Permanent,
}

/// What the ingest service answered for one message.
#[derive(Clone, Copy, Debug, PartialEq, Eq, Structural)]
pub enum IngestOutcome {
    Stored { document_id: u32, change_id: u64 },
    Temporary,
    OverQuota,
    Permanent,
}

/// What the caller reports.
#[derive(Clone, Copy, Debug, PartialEq, Eq, Structural)]
pub enum AppendEvent {
    /// The transaction begins.
    Start,
    /// Whether the session may add items to the mailbox.
    Acl(bool),
    /// The quota of the session's access token.
    Quota(u64),
    /// The answer of the ingest service for the message last asked for.
    Ingested(IngestOutcome),
    /// The change notification was sent.
    Broadcasted,
    /// The UIDs were looked up.
    UidsResolved,
}

/// The notification that tells the other protocols of a change: the
/// account, and the latest change id of each kind of object that changed.
#[derive(Clone, Copy, Debug, PartialEq, Eq, Structural)]
pub struct StateChange {
    pub account_id: u32,
    pub email: Option<u64>,
    pub mailbox: Option<u64>,
    pub thread: Option<u64>,
}

/// The kinds of object that an APPEND changes.
#[derive(Clone, Copy, Debug, PartialEq, Eq, Structural)]
pub enum TypeState {
    Email,
    Mailbox,
    Thread,
}

impl StateChange {
    /// A notification for `account_id` that reports no change yet.
    pub fn new(account_id: u32) -> (change: StateChange)
        ensures
            change == (StateChange { account_id, email: None, mailbox: None, thread: None }),
    {
        StateChange { account_id, email: None, mailbox: None, thread: None }
    }

    /// The notification with `change_id` for objects of kind `kind`.
    pub fn with_change(self, kind: TypeState, change_id: u64) -> (change: StateChange)
        ensures
            change == match kind {
                TypeState::Email => StateChange { email: Some(change_id), ..self },
                TypeState::Mailbox => StateChange { mailbox: Some(change_id), ..self },
                TypeState::Thread => StateChange { thread: Some(change_id), ..self },
            },
    {
        match kind {
            TypeState::Email => StateChange {
                account_id: self.account_id,
                email: Some(change_id),
                mailbox: self.mailbox,
                thread: self.thread,
            },
            TypeState::Mailbox => StateChange {
                account_id: self.account_id,
                email: self.email,
                mailbox: Some(change_id),
                thread: self.thread,
            },
            TypeState::Thread => StateChange {
                account_id: self.account_id,
                email: self.email,
                mailbox: self.mailbox,
                thread: Some(change_id),
            },
        }
    }
}

/// What the caller is asked to do next.
#[derive(Clone, Copy, Debug, PartialEq, Eq, Structural)]
pub enum AppendAction {
    /// Check that the session may add items to the mailbox; report `Acl`.
    CheckAcl { account_id: u32, mailbox_id: u32 },
    /// Read the quota of the session's access token; report `Quota`.
    FetchQuota,
    /// Ingest message `index` into the mailbox, without skipping
    /// duplicates; report `Ingested`.
    Ingest { index: usize, account_id: u32, account_quota: i64, mailbox_id: u32 },
    /// Send one change notification for the account, with `change_id` for
    /// emails, mailboxes and threads alike; report `Broadcasted`.
    Broadcast { account_id: u32, change_id: u64 },
    /// Look up the UIDs of the stored messages: in the selected mailbox,
    /// after synchronizing it, where `from_selected`; otherwise in the target
    /// mailbox, fetched afresh. Report `UidsResolved`.
    ResolveUids { from_selected: bool },
    /// Send the response.
    Done,
    /// The event was not the one asked for; nothing has changed.
    Unexpected,
}

/// A transaction as plain values.
pub struct TransactionView {
    pub phase: Phase,
    pub account_id: u32,
    pub mailbox_id: u32,
    pub from_selected: bool,
    pub total: nat,
    pub next: nat,
    pub account_quota: i64,
    pub created_ids: Seq<u32>,
    pub last_change_id: Option<u64>,
    pub failure: Option<Failure>,
}

/// The state of one APPEND.
#[derive(Debug)]
pub struct AppendTransaction {
    phase: Phase,
    account_id: u32,
    mailbox_id: u32,
    from_selected: bool,
    total: usize,
    next: usize,
    account_quota: i64,
    created_ids: Vec<u32>,
    last_change_id: Option<u64>,
    failure: Option<Failure>,
}

/// A quota as the signed budget that the ingest service takes: the same bits.
pub open spec fn signed_quota(quota: u64) -> i64 {
    if quota <= 0x7FFF_FFFF_FFFF_FFFF {
        quota as i64
    } else {
        (quota - 0x1_0000_0000_0000_0000) as i64
    }
}

/// Where a phase stands in the order of a transaction.
pub open spec fn rank(phase: Phase) -> nat {
    match phase {
        Phase::Start => 0,
        Phase::CheckingAcl => 1,
        Phase::FetchingQuota => 2,
        Phase::Ingesting => 3,
        Phase::Broadcasting => 4,
        Phase::ResolvingUids => 5,
        Phase::Done => 6,
    }
}

/// After the notification, or where there was none to send: the UIDs are
/// looked up if any message was stored.
pub open spec fn after_broadcast(s: TransactionView) -> (TransactionView, AppendAction) {
    if s.created_ids.len() > 0 {
        (
            TransactionView { phase: Phase::ResolvingUids, ..s },
            AppendAction::ResolveUids { from_selected: s.from_selected },
        )
    } else {
        (TransactionView { phase: Phase::Done, ..s }, AppendAction::Done)
    }
}

/// After the last ingest: one notification with the last change id, if any
/// message was stored.
pub open spec fn after_ingest(s: TransactionView) -> (TransactionView, AppendAction) {
    match s.last_change_id {
        Some(change_id) => (
            TransactionView { phase: Phase::Broadcasting, ..s },
            AppendAction::Broadcast { account_id: s.account_id, change_id },
        ),
        None => after_broadcast(s),
    }
}

/// The next message is ingested, if one is left.
pub open spec fn next_ingest(s: TransactionView) -> (TransactionView, AppendAction) {
    if s.next < s.total {
        (
            TransactionView { phase: Phase::Ingesting, ..s },
            AppendAction::Ingest {
                index: s.next as usize,
                account_id: s.account_id,
                account_quota: s.account_quota,
                mailbox_id: s.mailbox_id,
            },
        )
    } else {
        after_ingest(s)
    }
}

/// The state and the action that follow `event` in state `s`.
pub open spec fn step_spec(s: TransactionView, event: AppendEvent) -> (
    TransactionView,
    AppendAction,
) {
    match (s.phase, event) {
        (Phase::Start, AppendEvent::Start) => (
            TransactionView { phase: Phase::CheckingAcl, ..s },
            AppendAction::CheckAcl { account_id: s.account_id, mailbox_id: s.mailbox_id },
        ),
        (Phase::CheckingAcl, AppendEvent::Acl(true)) => (
            TransactionView { phase: Phase::FetchingQuota, ..s },
            AppendAction::FetchQuota,
        ),
        (Phase::CheckingAcl, AppendEvent::Acl(false)) => (
            TransactionView { phase: Phase::Done, failure: Some(Failure::NoPermission), ..s },
            AppendAction::Done,
        ),
        (Phase::FetchingQuota, AppendEvent::Quota(quota)) => next_ingest(
            TransactionView { account_quota: signed_quota(quota), ..s },
        ),
        (
            Phase::Ingesting,
            AppendEvent::Ingested(IngestOutcome::Stored { document_id, change_id }),
        ) => next_ingest(
            TransactionView {
                created_ids: s.created_ids.push(document_id),
                last_change_id: Some(change_id),
                next: s.next + 1,
                ..s
            },
        ),
        (Phase::Ingesting, AppendEvent::Ingested(IngestOutcome::Temporary)) => after_ingest(
            TransactionView { failure: Some(Failure::Temporary), ..s },
        ),
        (Phase::Ingesting, AppendEvent::Ingested(IngestOutcome::OverQuota)) => after_ingest(
            TransactionView { failure: Some(Failure::OverQuota), ..s },
        ),
        (Phase::Ingesting, AppendEvent::Ingested(IngestOutcome::Permanent)) => after_ingest(
            TransactionView { failure: Some(Failure::Permanent), ..s },
        ),
        (Phase::Broadcasting, AppendEvent::Broadcasted) => after_broadcast(s),
        (Phase::ResolvingUids, AppendEvent::UidsResolved) => (
            TransactionView { phase: Phase::Done, ..s },
            AppendAction::Done,
        ),
        _ => (s, AppendAction::Unexpected),
    }
}

/// The state that a transaction reaches from `s` through `events`.
pub open spec fn run_state(s: TransactionView, events: Seq<AppendEvent>) -> TransactionView
    decreases events.len(),
{
    if events.len() == 0 {
        s
    } else {
        run_state(step_spec(s, events[0]).0, events.skip(1))
    }
}

/// The change ids of the notifications that a transaction asks for on its
/// way from `s` through `events`, in order.
pub open spec fn run_broadcasts(s: TransactionView, events: Seq<AppendEvent>) -> Seq<u64>
    decreases events.len(),
{
    if events.len() == 0 {
        Seq::empty()
    } else {
        let (next, action) = step_spec(s, events[0]);
        (match action {
            AppendAction::Broadcast { change_id, .. } => seq![change_id],
            _ => Seq::empty(),
        }) + run_broadcasts(next, events.skip(1))
    }
}

/// The document ids of the messages that the ingest service stored on the
/// way of a transaction from `s` through `events`, in the order of the
/// events. An answer that comes while no message is being ingested counts
/// for nothing.
pub open spec fn run_stored(s: TransactionView, events: Seq<AppendEvent>) -> Seq<u32>
    decreases events.len(),
{
    if events.len() == 0 {
        Seq::empty()
    } else {
        (match (s.phase, events[0]) {
            (
                Phase::Ingesting,
                AppendEvent::Ingested(IngestOutcome::Stored { document_id, .. }),
            ) => seq![document_id],
            _ => Seq::empty(),
        }) + run_stored(step_spec(s, events[0]).0, events.skip(1))
    }
}

/// The stored ids that a transaction keeps are those of the messages that
/// were stored, in the order in which they were stored.
pub proof fn lemma_created_in_order(s: TransactionView, events: Seq<AppendEvent>)
    ensures
        run_state(s, events).created_ids == s.created_ids + run_stored(s, events),
    decreases events.len(),
{
    if events.len() > 0 {
        let next = step_spec(s, events[0]).0;
        lemma_created_in_order(next, events.skip(1));
        assert(run_state(s, events).created_ids =~= s.created_ids + run_stored(s, events));
    } else {
        assert(s.created_ids =~= s.created_ids + Seq::<u32>::empty());
    }
}

/// A state that a transaction can be in: a message is being ingested only
/// while one is left, a change id is known exactly when a message was
/// stored, and nothing was stored before the first ingest.
pub open spec fn reachable(s: TransactionView) -> bool {
    &&& s.phase == Phase::Ingesting ==> s.next < s.total
    &&& s.total <= usize::MAX
    &&& s.last_change_id is Some <==> s.created_ids.len() > 0
    &&& rank(s.phase) < 3 ==> s.created_ids.len() == 0
}

/// A step leads from a reachable state to a reachable state, never back to
/// an earlier phase.
pub proof fn lemma_step_advances(s: TransactionView, event: AppendEvent)
    requires
        reachable(s),
    ensures
        reachable(step_spec(s, event).0),
        rank(step_spec(s, event).0.phase) >= rank(s.phase),
{
}

/// What holds of every run from a reachable state: at most one notification
/// is asked for, none once the ingests are over, and the stored ids and the
/// last change id are final by then; and a run that ends with the response
/// due after storing at least one message has asked for exactly one
/// notification, with the last change id.
pub proof fn lemma_run(s: TransactionView, events: Seq<AppendEvent>)
    requires
        reachable(s),
    ensures
        reachable(run_state(s, events)),
        rank(run_state(s, events).phase) >= rank(s.phase),
        run_broadcasts(s, events).len() <= 1,
        rank(s.phase) >= 4 ==> run_broadcasts(s, events).len() == 0 && run_state(
            s,
            events,
        ).created_ids == s.created_ids && run_state(s, events).last_change_id == s.last_change_id,
        rank(s.phase) <= 3 && run_state(s, events).phase == Phase::Done && run_state(
            s,
            events,
        ).created_ids.len() > 0 ==> run_broadcasts(s, events) == seq![
            run_state(s, events).last_change_id.unwrap(),
        ],
    decreases events.len(),
{
    if events.len() > 0 {
        let (next, action) = step_spec(s, events[0]);
        lemma_step_advances(s, events[0]);
        lemma_run(next, events.skip(1));
        let rest = run_broadcasts(next, events.skip(1));
        if rank(s.phase) <= 3 && rank(next.phase) >= 4 {
            assert(rest.len() == 0);
            if action is Broadcast {
                assert(run_broadcasts(s, events) =~= seq![next.last_change_id.unwrap()]);
            } else {
                assert(run_broadcasts(s, events) =~= Seq::<u64>::empty());
            }
        } else if rank(s.phase) <= 3 {
            assert(!(action is Broadcast));
            assert(run_broadcasts(s, events) =~= rest);
        } else {
            assert(!(action is Broadcast));
            assert(run_broadcasts(s, events) =~= rest);
        }
    }
}

/// At most one change notification is asked for in any run of a transaction.
pub proof fn lemma_broadcast_at_most_once(s: TransactionView, events: Seq<AppendEvent>)
    requires
        reachable(s),
    ensures
        run_broadcasts(s, events).len() <= 1,
{
    lemma_run(s, events);
}

/// A transaction that has stored at least one message and has come to its
/// response has asked for exactly one change notification, and that with the
/// change id of the last message stored.
pub proof fn lemma_broadcast_exactly_once(s: TransactionView, events: Seq<AppendEvent>)
    requires
        reachable(s),
        s.phase == Phase::Start,
        run_state(s, events).phase == Phase::Done,
        run_state(s, events).created_ids.len() > 0,
    ensures
        run_broadcasts(s, events) == seq![run_state(s, events).last_change_id.unwrap()],
{
    lemma_run(s, events);
}

/// The UIDs of the stored messages: for each id in order its UID, an id
/// without one left out.
pub open spec fn uids_of(created_ids: Seq<u32>, id_to_uid: Map<u32, u32>) -> Seq<u32>
    decreases created_ids.len(),
{
    if created_ids.len() == 0 {
        Seq::empty()
    } else {
        let head = uids_of(created_ids.drop_last(), id_to_uid);
        if id_to_uid.contains_key(created_ids.last()) {
            head.push(id_to_uid[created_ids.last()])
        } else {
            head
        }
    }
}

/// The position among the stored messages of the one whose UID comes out
/// at position `j`.
pub open spec fn source_of(created_ids: Seq<u32>, id_to_uid: Map<u32, u32>, j: int) -> int
    decreases created_ids.len(),
{
    if created_ids.len() == 0 {
        0
    } else if j < uids_of(created_ids.drop_last(), id_to_uid).len() {
        source_of(created_ids.drop_last(), id_to_uid, j)
    } else {
        created_ids.len() - 1
    }
}

/// Each UID that comes out is the UID of the stored message at its source.
pub proof fn lemma_uid_source(created_ids: Seq<u32>, id_to_uid: Map<u32, u32>, j: int)
    requires
        0 <= j < uids_of(created_ids, id_to_uid).len(),
    ensures
        0 <= source_of(created_ids, id_to_uid, j) < created_ids.len(),
        id_to_uid.contains_key(created_ids[source_of(created_ids, id_to_uid, j)]),
        id_to_uid[created_ids[source_of(created_ids, id_to_uid, j)]] == uids_of(
            created_ids,
            id_to_uid,
        )[j],
    decreases created_ids.len(),
{
    if created_ids.len() > 0 {
        let front = created_ids.drop_last();
        if j < uids_of(front, id_to_uid).len() {
            lemma_uid_source(front, id_to_uid, j);
        }
    }
}

/// The UIDs come out in the order of the stored messages: of two UIDs, the
/// earlier belongs to the message stored earlier.
pub proof fn lemma_uids_keep_order(created_ids: Seq<u32>, id_to_uid: Map<u32, u32>, i: int, j: int)
    requires
        0 <= i < j < uids_of(created_ids, id_to_uid).len(),
    ensures
        source_of(created_ids, id_to_uid, i) < source_of(created_ids, id_to_uid, j),
    decreases created_ids.len(),
{
    if created_ids.len() > 0 {
        let front = created_ids.drop_last();
        if j < uids_of(front, id_to_uid).len() {
            lemma_uids_keep_order(front, id_to_uid, i, j);
        } else {
            lemma_uid_source(front, id_to_uid, i);
        }
    }
}

/// The UIDs of the stored messages, in their order; an id that the mailbox
/// no longer maps is left out.
pub fn assemble_uids(created_ids: &[u32], id_to_uid: &HashMap<u32, u32>) -> (uids: Vec<u32>)
    ensures
        uids@ == uids_of(created_ids@, id_to_uid@),
{
    let mut uids: Vec<u32> = Vec::new();
    let mut i: usize = 0;
    while i < created_ids.len()
        invariant
            i <= created_ids@.len(),
            uids@ == uids_of(created_ids@.take(i as int), id_to_uid@),
        decreases created_ids@.len() - i,
    {
        proof {
            let next = created_ids@.take(i + 1);
            assert(next.drop_last() =~= created_ids@.take(i as int));
            assert(next.last() == created_ids@[i as int]);
        }
        match id_to_uid.get(&created_ids[i]) {
            Some(uid) => uids.push(*uid),
            None => {},
        }
        i = i + 1;
    }
    proof {
        assert(created_ids@.take(i as int) =~= created_ids@);
    }
    uids
}

/// The response of a transaction, before its tag: the refusal for what
/// failed; or the completion, with the UIDs where any were looked up.
pub open spec fn response_view(
    failure: Option<Failure>,
    reason: Seq<char>,
    uids: Option<(u32, Seq<u32>)>,
) -> StatusResponseView {
    match failure {
        Some(Failure::NoPermission) => StatusResponseView {
            tag: None,
            code: Some(ResponseCodeView::NoPerm),
            message: "You do not have the required permissions to append messages to this mailbox."@,
            rtype: ResponseType::No,
        },
        Some(Failure::Temporary) => StatusResponseView {
            tag: None,
            code: Some(ResponseCodeView::ContactAdmin),
            message: "Database failure."@,
            rtype: ResponseType::No,
        },
        Some(Failure::OverQuota) => StatusResponseView {
            tag: None,
            code: Some(ResponseCodeView::OverQuota),
            message: "Disk quota exceeded."@,
            rtype: ResponseType::No,
        },
        Some(Failure::Permanent) => StatusResponseView {
            tag: None,
            code: None,
            message: reason,
            rtype: ResponseType::No,
        },
        None => StatusResponseView {
            tag: None,
            code: match uids {
                Some((uid_validity, uids)) => Some(
                    ResponseCodeView::AppendUid { uid_validity, uids },
                ),
                None => None,
            },
            message: "APPEND completed"@,
            rtype: ResponseType::Okay,
        },
    }
}

/// The response to an APPEND whose mailbox was looked up by name: none for
/// a mailbox that takes messages; the refusal for one that does not exist,
/// or that is virtual.
pub open spec fn target_refusal(target: Option<MailboxId>) -> Option<StatusResponseView> {
    match target {
        None => Some(
            StatusResponseView {
                tag: None,
                code: Some(ResponseCodeView::TryCreate),
                message: "Mailbox does not exist."@,
                rtype: ResponseType::No,
            },
        ),
        Some(mailbox) => if mailbox.mailbox_id is None {
            Some(
                StatusResponseView {
                    tag: None,
                    code: Some(ResponseCodeView::Cannot),
                    message: "Appending messages to this mailbox is not allowed."@,
                    rtype: ResponseType::No,
                },
            )
        } else {
            None
        },
    }
}

/// The part of an IMAP session that APPEND reads.
#[derive(Debug)]
pub struct Session {
    pub selected: Option<MailboxId>,
    pub is_qresync: bool,
}

impl Session {
    /// Begins the APPEND of `messages` messages, tagged `tag`, to the mailbox
    /// that the name resolved to: the transaction, or the tagged refusal.
    pub fn handle_append(&self, tag: &str, target: Option<MailboxId>, messages: usize) -> (r:
        Result<AppendTransaction, StatusResponse>)
        ensures
            match r {
                Ok(txn) => target_refusal(target) is None && txn.wf() && txn@ == (TransactionView {
                    phase: Phase::Start,
                    account_id: target.unwrap().account_id,
                    mailbox_id: target.unwrap().mailbox_id.unwrap(),
                    from_selected: self.selected == target,
                    total: messages as nat,
                    next: 0,
                    account_quota: 0,
                    created_ids: Seq::empty(),
                    last_change_id: None,
                    failure: None,
                }),
                Err(response) => target_refusal(target).is_some() && response@ == (
                    StatusResponseView { tag: Some(tag@), ..target_refusal(target).unwrap() }
                ),
            },
    {
        match target {
            None => Err(
                StatusResponse::no("Mailbox does not exist.").with_tag(tag).with_code(
                    ResponseCode::TryCreate,
                ),
            ),
            Some(mailbox) => match mailbox.mailbox_id {
                None => Err(
                    StatusResponse::no(
                        "Appending messages to this mailbox is not allowed.",
                    ).with_tag(tag).with_code(ResponseCode::Cannot),
                ),
                Some(mailbox_id) => {
                    let from_selected = match self.selected {
                        Some(selected) => selected == mailbox,
                        None => false,
                    };
                    Ok(
                        AppendTransaction {
                            phase: Phase::Start,
                            account_id: mailbox.account_id,
                            mailbox_id,
                            from_selected,
                            total: messages,
                            next: 0,
                            account_quota: 0,
                            created_ids: Vec::new(),
                            last_change_id: None,
                            failure: None,
                        },
                    )
                },
            },
        }
    }
}

impl View for AppendTransaction {
    type V = TransactionView;

    closed spec fn view(&self) -> TransactionView {
        TransactionView {
            phase: self.phase,
            account_id: self.account_id,
            mailbox_id: self.mailbox_id,
            from_selected: self.from_selected,
            total: self.total as nat,
            next: self.next as nat,
            account_quota: self.account_quota,
            created_ids: self.created_ids@,
            last_change_id: self.last_change_id,
            failure: self.failure,
        }
    }
}

impl AppendAction {
    /// The notification that a `Broadcast` asks for: the change id for
    /// emails, mailboxes and threads alike. Nothing for another action.
    pub fn state_change(&self) -> (change: Option<StateChange>)
        ensures
            change == match *self {
                AppendAction::Broadcast { account_id, change_id } => Some(
                    StateChange {
                        account_id,
                        email: Some(change_id),
                        mailbox: Some(change_id),
                        thread: Some(change_id),
                    },
                ),
                _ => None,
            },
    {
        match self {
            AppendAction::Broadcast { account_id, change_id } => Some(
                StateChange::new(*account_id).with_change(TypeState::Email, *change_id).with_change(
                    TypeState::Mailbox,
                    *change_id,
                ).with_change(TypeState::Thread, *change_id),
            ),
            _ => None,
        }
    }
}

impl AppendTransaction {
    /// The transaction is in a state that it can reach.
    pub open spec fn wf(&self) -> bool {
        reachable(self@)
    }

    /// How far the transaction has come.
    pub fn phase(&self) -> (phase: Phase)
        ensures
            phase == self@.phase,
    {
        self.phase
    }

    /// Why the transaction stored no more messages, if it failed.
    pub fn failure(&self) -> (failure: Option<Failure>)
        ensures
            failure == self@.failure,
    {
        self.failure
    }

    /// The document ids of the messages stored so far, in their order.
    pub fn created_ids(&self) -> (ids: &[u32])
        ensures
            ids@ == self@.created_ids,
    {
        self.created_ids.as_slice()
    }

    /// The change id of the message stored last.
    pub fn last_change_id(&self) -> (id: Option<u64>)
        ensures
            id == self@.last_change_id,
    {
        self.last_change_id
    }

    fn after_broadcast(&mut self) -> (action: AppendAction)
        ensures
            (final(self)@, action) == after_broadcast(old(self)@),
    {
        if self.created_ids.len() > 0 {
            self.phase = Phase::ResolvingUids;
            AppendAction::ResolveUids { from_selected: self.from_selected }
        } else {
            self.phase = Phase::Done;
            AppendAction::Done
        }
    }

    fn after_ingest(&mut self) -> (action: AppendAction)
        ensures
            (final(self)@, action) == after_ingest(old(self)@),
    {
        match self.last_change_id {
            Some(change_id) => {
                self.phase = Phase::Broadcasting;
                AppendAction::Broadcast { account_id: self.account_id, change_id }
            },
            None => self.after_broadcast(),
        }
    }

    fn next_ingest(&mut self) -> (action: AppendAction)
        ensures
            (final(self)@, action) == next_ingest(old(self)@),
    {
        if self.next < self.total {
            self.phase = Phase::Ingesting;
            AppendAction::Ingest {
                index: self.next,
                account_id: self.account_id,
                account_quota: self.account_quota,
                mailbox_id: self.mailbox_id,
            }
        } else {
            self.after_ingest()
        }
    }

    /// Takes in `event` and returns what to do next.
    pub fn step(&mut self, event: AppendEvent) -> (action: AppendAction)
        requires
            old(self).wf(),
        ensures
            (final(self)@, action) == step_spec(old(self)@, event),
            final(self).wf(),
    {
        proof {
            lemma_step_advances(self@, event);
        }
        match (self.phase, event) {
            (Phase::Start, AppendEvent::Start) => {
                self.phase = Phase::CheckingAcl;
                AppendAction::CheckAcl { account_id: self.account_id, mailbox_id: self.mailbox_id }
            },
            (Phase::CheckingAcl, AppendEvent::Acl(true)) => {
                self.phase = Phase::FetchingQuota;
                AppendAction::FetchQuota
            },
            (Phase::CheckingAcl, AppendEvent::Acl(false)) => {
                self.phase = Phase::Done;
                self.failure = Some(Failure::NoPermission);
                AppendAction::Done
            },
            (Phase::FetchingQuota, AppendEvent::Quota(quota)) => {
                self.account_quota = if quota <= 0x7FFF_FFFF_FFFF_FFFF {
                    quota as i64
                } else {
                    ((quota - 0x8000_0000_0000_0000) as i64) - 0x4000_0000_0000_0000
                        - 0x4000_0000_0000_0000
                };
                self.next_ingest()
            },
            (
                Phase::Ingesting,
                AppendEvent::Ingested(IngestOutcome::Stored { document_id, change_id }),
            ) => {
                self.created_ids.push(document_id);
                self.last_change_id = Some(change_id);
                self.next = self.next + 1;
                self.next_ingest()
            },
            (Phase::Ingesting, AppendEvent::Ingested(IngestOutcome::Temporary)) => {
                self.failure = Some(Failure::Temporary);
                self.after_ingest()
            },
            (Phase::Ingesting, AppendEvent::Ingested(IngestOutcome::OverQuota)) => {
                self.failure = Some(Failure::OverQuota);
                self.after_ingest()
            },
            (Phase::Ingesting, AppendEvent::Ingested(IngestOutcome::Permanent)) => {
                self.failure = Some(Failure::Permanent);
                self.after_ingest()
            },
            (Phase::Broadcasting, AppendEvent::Broadcasted) => self.after_broadcast(),
            (Phase::ResolvingUids, AppendEvent::UidsResolved) => {
                self.phase = Phase::Done;
                AppendAction::Done
            },
            _ => AppendAction::Unexpected,
        }
    }

    /// The response of the transaction, tagged `tag`: the refusal for what
    /// failed, with `reason` as the text of a permanent failure; or the
    /// completion, with `uids` where the UIDs were looked up.
    pub fn response(&self, tag: &str, reason: &str, uids: Option<(u32, Vec<u32>)>) -> (r:
        StatusResponse)
        ensures
            r@ == (StatusResponseView {
                tag: Some(tag@),
                ..response_view(
                    self@.failure,
                    reason@,
                    match uids {
                        Some((v, u)) => Some((v, u@)),
                        None => None,
                    },
                )
            }),
    {
        let response = match self.failure {
            Some(Failure::NoPermission) => StatusResponse::no(
                "You do not have the required permissions to append messages to this mailbox.",
            ).with_code(ResponseCode::NoPerm),
            Some(Failure::Temporary) => StatusResponse::database_failure(),
            Some(Failure::OverQuota) => StatusResponse::no("Disk quota exceeded.").with_code(
                ResponseCode::OverQuota,
            ),
            Some(Failure::Permanent) => StatusResponse::no(reason),
            None => {
                let done = StatusResponse {
                    tag: None,
                    code: None,
                    message: "APPEND completed".to_owned(),
                    rtype: ResponseType::Okay,
                };
                match uids {
                    Some((uid_validity, uids)) => done.with_code(
                        ResponseCode::AppendUid { uid_validity, uids },
                    ),
                    None => done,
                }
            },
        };
        response.with_tag(tag)
    }
}

} // verus!
