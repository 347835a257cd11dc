//! The reconciliation cycle as a state machine.
//!
//! The caller performs each [`Action`] that [`Reconciler::step`] returns and
//! hands the outcome back as the next [`Event`]: the requests, the reading of
//! the record list, and the pause between cycles all happen outside.
use vstd::prelude::*;
use crate::record::{DnsRecord, RecordKind, RecordUpdate, RecordView, UpdateView};
use crate::plan::{
    no_match_no_update,
    record_views, pending_updates, identical_kinds, any_match, plan_updates, identical_records,
    has_match,
};

verus! {

/// Seconds to wait after a cycle before the next one begins.
pub const POLL_INTERVAL_SECS: u64 = 300;

/// Whether an HTTP status code reports success (the 2xx class).
pub open spec fn success(status: u16) -> bool {
    200 <= status <= 299
}

/// Returns whether the HTTP status code `status` reports success.
pub fn is_success(status: u16) -> (r: bool)
    ensures
        r == success(status),
{
    200 <= status && status <= 299
}

/// Why a cycle stopped.
#[derive(PartialEq, Eq, Structural, Clone, Copy, Debug)]
pub enum CycleError {
    /// The IPv4 address service answered with this non-success status.
    Ipv4Status(u16),
    /// The IPv6 address service answered with this non-success status.
    Ipv6Status(u16),
    /// The provider's record list answered with this non-success status.
    ListStatus(u16),
    /// The provider's record update answered with this non-success status.
    UpdateStatus(u16),
    /// An event came that the current stage does not wait for.
    OutOfOrder,
}

/// The outcome of the last action, handed back to the state machine.
#[derive(Debug)]
pub enum Event {
    /// A cycle is due: at start, and after each pause.
    Tick,
    /// The IPv4 address service answered.
    Ipv4Fetched { status: u16, body: String },
    /// The IPv6 address service answered.
    Ipv6Fetched { status: u16, body: String },
    /// The provider answered the request for the zone's records.
    ListAnswered { status: u16 },
    /// The body of a successful list answer, read as records.
    RecordsRead { records: Vec<DnsRecord> },
    /// The provider answered an update request.
    UpdateAnswered { status: u16 },
}

pub enum EventView {
    Tick,
    Ipv4Fetched { status: u16, body: Seq<char> },
    Ipv6Fetched { status: u16, body: Seq<char> },
    ListAnswered { status: u16 },
    RecordsRead { records: Seq<RecordView> },
    UpdateAnswered { status: u16 },
}

impl View for Event {
    type V = EventView;

    open spec fn view(&self) -> EventView {
        match self {
            Event::Tick => EventView::Tick,
            Event::Ipv4Fetched { status, body } => EventView::Ipv4Fetched {
                status: *status,
                body: body@,
            },
            Event::Ipv6Fetched { status, body } => EventView::Ipv6Fetched {
                status: *status,
                body: body@,
            },
            Event::ListAnswered { status } => EventView::ListAnswered { status: *status },
            Event::RecordsRead { records } => EventView::RecordsRead {
                records: record_views(records@),
            },
            Event::UpdateAnswered { status } => EventView::UpdateAnswered { status: *status },
        }
    }
}

/// What the caller is to do next.
#[derive(Debug)]
pub enum Action {
    /// Ask the IPv4 address service for the current address.
    FetchIpv4,
    /// Ask the IPv6 address service for the current address.
    FetchIpv6,
    /// Ask the provider for the records of the zone.
    ListRecords,
    /// Read the body of the list answer as records.
    ReadRecords,
    /// Send this update request to the provider.
    Put(RecordUpdate),
    /// Wait this many seconds, then hand back [`Event::Tick`].
    Sleep(u64),
    /// Stop for good, with this error.
    Stop(CycleError),
}

pub enum ActionView {
    FetchIpv4,
    FetchIpv6,
    ListRecords,
    ReadRecords,
    Put(UpdateView),
    Sleep(u64),
    Stop(CycleError),
}

impl View for Action {
    type V = ActionView;

    open spec fn view(&self) -> ActionView {
        match self {
            Action::FetchIpv4 => ActionView::FetchIpv4,
            Action::FetchIpv6 => ActionView::FetchIpv6,
            Action::ListRecords => ActionView::ListRecords,
            Action::ReadRecords => ActionView::ReadRecords,
            Action::Put(u) => ActionView::Put(u@),
            Action::Sleep(secs) => ActionView::Sleep(*secs),
            Action::Stop(e) => ActionView::Stop(*e),
        }
    }
}

/// Something worth reporting to the operator.
#[derive(Debug)]
pub enum Notice {
    /// The addresses observed in this cycle.
    CurrentAddress { ipv4: String, ipv6: String },
    /// A matched record of this kind already holds the observed address.
    Identical(RecordKind),
    /// No record of the zone is matched for the host.
    NotFound,
    /// The provider accepted the update of the record named `name` to `value`.
    Updated { name: String, value: String },
}

pub enum NoticeView {
    CurrentAddress { ipv4: Seq<char>, ipv6: Seq<char> },
    Identical(RecordKind),
    NotFound,
    Updated { name: Seq<char>, value: Seq<char> },
}

impl View for Notice {
    type V = NoticeView;

    open spec fn view(&self) -> NoticeView {
        match self {
            Notice::CurrentAddress { ipv4, ipv6 } => NoticeView::CurrentAddress {
                ipv4: ipv4@,
                ipv6: ipv6@,
            },
            Notice::Identical(k) => NoticeView::Identical(*k),
            Notice::NotFound => NoticeView::NotFound,
            Notice::Updated { name, value } => NoticeView::Updated { name: name@, value: value@ },
        }
    }
}

/// The views of a list of notices.
pub open spec fn notice_views(ns: Seq<Notice>) -> Seq<NoticeView> {
    ns.map_values(|n: Notice| n@)
}

/// The views of a list of update requests.
pub open spec fn update_views(us: Seq<RecordUpdate>) -> Seq<UpdateView> {
    us.map_values(|u: RecordUpdate| u@)
}

enum Stage {
    Idle,
    AwaitIpv4,
    AwaitIpv6 { ipv4: String },
    AwaitList { ipv4: String, ipv6: String },
    AwaitRecords { ipv4: String, ipv6: String },
    Updating { pending: Vec<RecordUpdate>, next: usize },
    Stopped(CycleError),
}

/// Where a cycle stands.
pub enum StageView {
    /// Between cycles: waiting for [`Event::Tick`].
    Idle,
    /// Waiting for the IPv4 address.
    AwaitIpv4,
    /// Waiting for the IPv6 address.
    AwaitIpv6 { ipv4: Seq<char> },
    /// Waiting for the status of the record list.
    AwaitList { ipv4: Seq<char>, ipv6: Seq<char> },
    /// Waiting for the records of the list.
    AwaitRecords { ipv4: Seq<char>, ipv6: Seq<char> },
    /// Waiting for the answer to the update `pending[next]`.
    Updating { pending: Seq<UpdateView>, next: int },
    /// Stopped for good.
    Stopped(CycleError),
}

/// The state of the reconciliation of one host's records.
pub struct Reconciler {
    target: String,
    stage: Stage,
}

pub struct ReconcilerView {
    /// The name of the records kept in sync.
    pub target: Seq<char>,
    pub stage: StageView,
}

impl View for Reconciler {
    type V = ReconcilerView;

    closed spec fn view(&self) -> ReconcilerView {
        ReconcilerView {
            target: self.target@,
            stage: match &self.stage {
                Stage::Idle => StageView::Idle,
                Stage::AwaitIpv4 => StageView::AwaitIpv4,
                Stage::AwaitIpv6 { ipv4 } => StageView::AwaitIpv6 { ipv4: ipv4@ },
                Stage::AwaitList { ipv4, ipv6 } => StageView::AwaitList { ipv4: ipv4@, ipv6: ipv6@ },
                Stage::AwaitRecords { ipv4, ipv6 } => StageView::AwaitRecords {
                    ipv4: ipv4@,
                    ipv6: ipv6@,
                },
                Stage::Updating { pending, next } => StageView::Updating {
                    pending: update_views(pending@),
                    next: *next as int,
                },
                Stage::Stopped(e) => StageView::Stopped(*e),
            },
        }
    }
}

/// A state is well formed when the update it waits for exists.
pub open spec fn well_formed(s: ReconcilerView) -> bool {
    match s.stage {
        StageView::Updating { pending, next } => 0 <= next < pending.len(),
        _ => true,
    }
}

/// `s` moved to `stage`.
pub open spec fn at(s: ReconcilerView, stage: StageView) -> ReconcilerView {
    ReconcilerView { target: s.target, stage }
}

/// Stopping with `e`.
pub open spec fn stop_with(s: ReconcilerView, e: CycleError) -> (
    ReconcilerView,
    ActionView,
    Seq<NoticeView>,
) {
    (at(s, StageView::Stopped(e)), ActionView::Stop(e), Seq::empty())
}

/// What is reported once the records of a cycle are read: each matched record
/// that already holds the observed address, then, where no record is matched,
/// that none was found.
pub open spec fn record_notices(
    rs: Seq<RecordView>,
    target: Seq<char>,
    ipv4: Seq<char>,
    ipv6: Seq<char>,
) -> Seq<NoticeView> {
    identical_kinds(rs, target, ipv4, ipv6).map_values(|k: RecordKind| NoticeView::Identical(k))
        + if any_match(rs, target) {
        Seq::<NoticeView>::empty()
    } else {
        seq![NoticeView::NotFound]
    }
}

/// The transition on `e` from `s`: the next state, the action and the notices.
pub open spec fn step_spec(s: ReconcilerView, e: EventView) -> (
    ReconcilerView,
    ActionView,
    Seq<NoticeView>,
) {
    match s.stage {
        StageView::Stopped(err) => (s, ActionView::Stop(err), Seq::empty()),
        StageView::Idle => match e {
            EventView::Tick => (at(s, StageView::AwaitIpv4), ActionView::FetchIpv4, Seq::empty()),
            _ => stop_with(s, CycleError::OutOfOrder),
        },
        StageView::AwaitIpv4 => match e {
            EventView::Ipv4Fetched { status, body } => if success(status) {
                (at(s, StageView::AwaitIpv6 { ipv4: body }), ActionView::FetchIpv6, Seq::empty())
            } else {
                stop_with(s, CycleError::Ipv4Status(status))
            },
            _ => stop_with(s, CycleError::OutOfOrder),
        },
        StageView::AwaitIpv6 { ipv4 } => match e {
            EventView::Ipv6Fetched { status, body } => if success(status) {
                (
                    at(s, StageView::AwaitList { ipv4, ipv6: body }),
                    ActionView::ListRecords,
                    seq![NoticeView::CurrentAddress { ipv4, ipv6: body }],
                )
            } else {
                stop_with(s, CycleError::Ipv6Status(status))
            },
            _ => stop_with(s, CycleError::OutOfOrder),
        },
        StageView::AwaitList { ipv4, ipv6 } => match e {
            EventView::ListAnswered { status } => if success(status) {
                (at(s, StageView::AwaitRecords { ipv4, ipv6 }), ActionView::ReadRecords, Seq::empty())
            } else {
                stop_with(s, CycleError::ListStatus(status))
            },
            _ => stop_with(s, CycleError::OutOfOrder),
        },
        StageView::AwaitRecords { ipv4, ipv6 } => match e {
            EventView::RecordsRead { records } => {
                let ups = pending_updates(records, s.target, ipv4, ipv6);
                let ns = record_notices(records, s.target, ipv4, ipv6);
                if ups.len() == 0 {
                    (at(s, StageView::Idle), ActionView::Sleep(POLL_INTERVAL_SECS), ns)
                } else {
                    (at(s, StageView::Updating { pending: ups, next: 0 }), ActionView::Put(ups[0]), ns)
                }
            },
            _ => stop_with(s, CycleError::OutOfOrder),
        },
        StageView::Updating { pending, next } => match e {
            EventView::UpdateAnswered { status } => if success(status) {
                let ns = seq![
                    NoticeView::Updated {
                        name: pending[next].payload.name,
                        value: pending[next].payload.value,
                    },
                ];
                if next + 1 < pending.len() {
                    (
                        at(s, StageView::Updating { pending, next: next + 1 }),
                        ActionView::Put(pending[next + 1]),
                        ns,
                    )
                } else {
                    (at(s, StageView::Idle), ActionView::Sleep(POLL_INTERVAL_SECS), ns)
                }
            } else {
                stop_with(s, CycleError::UpdateStatus(status))
            },
            _ => stop_with(s, CycleError::OutOfOrder),
        },
    }
}

/// Returns the notices of a cycle once its records are read.
fn notices_for_records(records: &Vec<DnsRecord>, target: &String, ipv4: &String, ipv6: &String) -> (r:
    Vec<Notice>)
    ensures
        notice_views(r@) == record_notices(record_views(records@), target@, ipv4@, ipv6@),
{
    let kinds = identical_records(records, target, ipv4, ipv6);
    let ghost ks = kinds@;
    let mut out: Vec<Notice> = Vec::new();
    let mut i: usize = 0;
    while i < kinds.len()
        invariant
            i <= kinds.len(),
            ks == kinds@,
            notice_views(out@) =~= ks.take(i as int).map_values(
                |k: RecordKind| NoticeView::Identical(k),
            ),
        decreases kinds.len() - i,
    {
        let ghost prev = out@;
        out.push(Notice::Identical(kinds[i]));
        assert(notice_views(out@) =~= notice_views(prev).push(NoticeView::Identical(ks[i as int])));
        assert(ks.take(i + 1) =~= ks.take(i as int).push(ks[i as int]));
        i = i + 1;
    }
    assert(ks.take(kinds.len() as int) =~= ks);
    let ghost before = out@;
    if !has_match(records, target) {
        out.push(Notice::NotFound);
        assert(notice_views(out@) =~= notice_views(before) + seq![NoticeView::NotFound]);
    } else {
        assert(notice_views(out@) =~= notice_views(before) + Seq::<NoticeView>::empty());
    }
    out
}

impl Reconciler {
    /// Returns the state before the first cycle for the records named `target`.
    pub fn new(target: String) -> (r: Reconciler)
        ensures
            r@ == (ReconcilerView { target: target@, stage: StageView::Idle }),
            well_formed(r@),
    {
        Reconciler { target, stage: Stage::Idle }
    }

    /// Returns the name of the records kept in sync.
    pub fn target(&self) -> (r: &String)
        ensures
            r@ == self@.target,
    {
        &self.target
    }

    /// Returns whether the machine has stopped for good.
    pub fn is_stopped(&self) -> (r: bool)
        ensures
            r == (self@.stage is Stopped),
    {
        match self.stage {
            Stage::Stopped(_) => true,
            _ => false,
        }
    }

    /// Takes `event`, the outcome of the last action, and returns the next
    /// action together with what there is to report.
    pub fn step(&mut self, event: Event) -> (r: (Action, Vec<Notice>))
        requires
            well_formed(old(self)@),
        ensures
            well_formed(final(self)@),
            (final(self)@, r.0@, notice_views(r.1@)) == step_spec(old(self)@, event@),
    {
        let ghost s0 = self@;
        let mut stage = Stage::Idle;
        std::mem::swap(&mut self.stage, &mut stage);
        assert(match stage {
            Stage::Updating { pending, next } => next < pending.len(),
            _ => true,
        });
        let (next, action, notices): (Stage, Action, Vec<Notice>) = match stage {
            Stage::Stopped(e) => (Stage::Stopped(e), Action::Stop(e), Vec::new()),
            Stage::Idle => match event {
                Event::Tick => (Stage::AwaitIpv4, Action::FetchIpv4, Vec::new()),
                _ => (Stage::Stopped(CycleError::OutOfOrder), Action::Stop(CycleError::OutOfOrder), Vec::new()),
            },
            Stage::AwaitIpv4 => match event {
                Event::Ipv4Fetched { status, body } => if is_success(status) {
                    (Stage::AwaitIpv6 { ipv4: body }, Action::FetchIpv6, Vec::new())
                } else {
                    let e = CycleError::Ipv4Status(status);
                    (Stage::Stopped(e), Action::Stop(e), Vec::new())
                },
                _ => (Stage::Stopped(CycleError::OutOfOrder), Action::Stop(CycleError::OutOfOrder), Vec::new()),
            },
            Stage::AwaitIpv6 { ipv4 } => match event {
                Event::Ipv6Fetched { status, body } => if is_success(status) {
                    let mut ns: Vec<Notice> = Vec::new();
                    ns.push(Notice::CurrentAddress { ipv4: ipv4.clone(), ipv6: body.clone() });
                    assert(notice_views(ns@) =~= seq![NoticeView::CurrentAddress { ipv4: ipv4@, ipv6: body@ }]);
                    (Stage::AwaitList { ipv4, ipv6: body }, Action::ListRecords, ns)
                } else {
                    let e = CycleError::Ipv6Status(status);
                    (Stage::Stopped(e), Action::Stop(e), Vec::new())
                },
                _ => (Stage::Stopped(CycleError::OutOfOrder), Action::Stop(CycleError::OutOfOrder), Vec::new()),
            },
            Stage::AwaitList { ipv4, ipv6 } => match event {
                Event::ListAnswered { status } => if is_success(status) {
                    (Stage::AwaitRecords { ipv4, ipv6 }, Action::ReadRecords, Vec::new())
                } else {
                    let e = CycleError::ListStatus(status);
                    (Stage::Stopped(e), Action::Stop(e), Vec::new())
                },
                _ => (Stage::Stopped(CycleError::OutOfOrder), Action::Stop(CycleError::OutOfOrder), Vec::new()),
            },
            Stage::AwaitRecords { ipv4, ipv6 } => match event {
                Event::RecordsRead { records } => {
                    let pending = plan_updates(&records, &self.target, &ipv4, &ipv6);
                    let ns = notices_for_records(&records, &self.target, &ipv4, &ipv6);
                    if pending.len() == 0 {
                        (Stage::Idle, Action::Sleep(POLL_INTERVAL_SECS), ns)
                    } else {
                        let first = pending[0].duplicate();
                        (Stage::Updating { pending, next: 0 }, Action::Put(first), ns)
                    }
                },
                _ => (Stage::Stopped(CycleError::OutOfOrder), Action::Stop(CycleError::OutOfOrder), Vec::new()),
            },
            Stage::Updating { pending, next } => match event {
                Event::UpdateAnswered { status } => if is_success(status) {
                    let mut ns: Vec<Notice> = Vec::new();
                    ns.push(Notice::Updated {
                        name: pending[next].payload.name.clone(),
                        value: pending[next].payload.value.clone(),
                    });
                    assert(notice_views(ns@) =~= seq![
                        NoticeView::Updated {
                            name: pending@[next as int]@.payload.name,
                            value: pending@[next as int]@.payload.value,
                        },
                    ]);
                    if next + 1 < pending.len() {
                        let u = pending[next + 1].duplicate();
                        (Stage::Updating { pending, next: next + 1 }, Action::Put(u), ns)
                    } else {
                        (Stage::Idle, Action::Sleep(POLL_INTERVAL_SECS), ns)
                    }
                } else {
                    let e = CycleError::UpdateStatus(status);
                    (Stage::Stopped(e), Action::Stop(e), Vec::new())
                },
                _ => (Stage::Stopped(CycleError::OutOfOrder), Action::Stop(CycleError::OutOfOrder), Vec::new()),
            },
        };
        self.stage = next;
        proof {
            assert(notice_views(Seq::<Notice>::empty()) =~= Seq::<NoticeView>::empty());
        }
        (action, notices)
    }
}

/// The state reached and the actions returned when the events `es` are handed
/// over one after another, starting from `s`.
pub open spec fn run(s: ReconcilerView, es: Seq<EventView>) -> (ReconcilerView, Seq<ActionView>)
    decreases es.len(),
{
    if es.len() == 0 {
        (s, Seq::empty())
    } else {
        let first = step_spec(s, es[0]);
        let rest = run(first.0, es.skip(1));
        (rest.0, seq![first.1] + rest.1)
    }
}

/// The answers of the provider to update requests, one per status.
pub open spec fn update_answers(statuses: Seq<u16>) -> Seq<EventView> {
    statuses.map_values(|status: u16| EventView::UpdateAnswered { status })
}

/// The actions that send each of `us`, in order.
pub open spec fn puts(us: Seq<UpdateView>) -> Seq<ActionView> {
    us.map_values(|u: UpdateView| ActionView::Put(u))
}

/// Once the update `pending[next]` is sent and every answer is a success,
/// each later update is sent once, in order, and then the cycle pauses.
proof fn lemma_updates_run_to_end(s: ReconcilerView, statuses: Seq<u16>)
    requires
        s.stage is Updating,
        0 <= s.stage->next < s.stage->pending.len(),
        statuses.len() == s.stage->pending.len() - s.stage->next,
        forall|i: int| 0 <= i < statuses.len() ==> success(#[trigger] statuses[i]),
    ensures
        run(s, update_answers(statuses)) == (
            at(s, StageView::Idle),
            puts(s.stage->pending.skip(s.stage->next + 1)) + seq![ActionView::Sleep(POLL_INTERVAL_SECS)],
        ),
    decreases statuses.len(),
{
    let pending = s.stage->pending;
    let next = s.stage->next;
    let es = update_answers(statuses);
    assert(success(statuses[0]));
    assert(es[0] == EventView::UpdateAnswered { status: statuses[0] });
    let first = step_spec(s, es[0]);
    assert(run(s, es) == (run(first.0, es.skip(1)).0, seq![first.1] + run(first.0, es.skip(1)).1));
    if next + 1 < pending.len() {
        let s1 = at(s, StageView::Updating { pending, next: next + 1 });
        assert(first.0 == s1);
        assert(update_answers(statuses.skip(1)) =~= es.skip(1));
        assert forall|i: int| 0 <= i < statuses.skip(1).len() implies success(
            #[trigger] statuses.skip(1)[i],
        ) by {
            assert(statuses.skip(1)[i] == statuses[i + 1]);
        }
        lemma_updates_run_to_end(s1, statuses.skip(1));
        assert(puts(pending.skip(next + 1)) =~= seq![ActionView::Put(pending[next + 1])] + puts(
            pending.skip(next + 2),
        ));
        assert(seq![ActionView::Put(pending[next + 1])] + (puts(pending.skip(next + 2)) + seq![
            ActionView::Sleep(POLL_INTERVAL_SECS),
        ]) =~= puts(pending.skip(next + 1)) + seq![ActionView::Sleep(POLL_INTERVAL_SECS)]);
    } else {
        assert(es.skip(1) =~= Seq::<EventView>::empty());
        assert(puts(pending.skip(next + 1)) =~= Seq::<ActionView>::empty());
        assert(seq![ActionView::Sleep(POLL_INTERVAL_SECS)] + Seq::<ActionView>::empty() =~= puts(
            pending.skip(next + 1),
        ) + seq![ActionView::Sleep(POLL_INTERVAL_SECS)]);
    }
}

/// A cycle whose records are read and whose update requests all succeed sends
/// each pending update exactly once, in the order of the records, and then
/// pauses for the poll interval.
pub proof fn cycle_sends_each_update_once(
    s: ReconcilerView,
    records: Seq<RecordView>,
    statuses: Seq<u16>,
)
    requires
        s.stage is AwaitRecords,
        statuses.len() == pending_updates(
            records,
            s.target,
            s.stage->AwaitRecords_ipv4,
            s.stage->AwaitRecords_ipv6,
        ).len(),
        forall|i: int| 0 <= i < statuses.len() ==> success(#[trigger] statuses[i]),
    ensures
        run(s, seq![EventView::RecordsRead { records }] + update_answers(statuses)) == (
            at(s, StageView::Idle),
            puts(
                pending_updates(
                    records,
                    s.target,
                    s.stage->AwaitRecords_ipv4,
                    s.stage->AwaitRecords_ipv6,
                ),
            ) + seq![ActionView::Sleep(POLL_INTERVAL_SECS)],
        ),
{
    let ups = pending_updates(records, s.target, s.stage->AwaitRecords_ipv4, s.stage->AwaitRecords_ipv6);
    let es = seq![EventView::RecordsRead { records }] + update_answers(statuses);
    assert(es[0] == EventView::RecordsRead { records });
    assert(es.skip(1) =~= update_answers(statuses));
    let first = step_spec(s, es[0]);
    assert(run(s, es) == (run(first.0, es.skip(1)).0, seq![first.1] + run(first.0, es.skip(1)).1));
    if ups.len() == 0 {
        assert(update_answers(statuses) =~= Seq::<EventView>::empty());
        assert(puts(ups) =~= Seq::<ActionView>::empty());
        assert(seq![ActionView::Sleep(POLL_INTERVAL_SECS)] + Seq::<ActionView>::empty() =~= puts(ups)
            + seq![ActionView::Sleep(POLL_INTERVAL_SECS)]);
    } else {
        let s1 = at(s, StageView::Updating { pending: ups, next: 0 });
        assert(first.0 == s1);
        lemma_updates_run_to_end(s1, statuses);
        assert(puts(ups) =~= seq![ActionView::Put(ups[0])] + puts(ups.skip(1)));
        assert(seq![ActionView::Put(ups[0])] + (puts(ups.skip(1)) + seq![
            ActionView::Sleep(POLL_INTERVAL_SECS),
        ]) =~= puts(ups) + seq![ActionView::Sleep(POLL_INTERVAL_SECS)]);
    }
}

/// Where no record is matched, reading the records ends the cycle without an
/// update and without an error: the only report is that none was found, and
/// the machine pauses for the poll interval.
pub proof fn no_match_ends_cycle_quietly(s: ReconcilerView, records: Seq<RecordView>)
    requires
        s.stage is AwaitRecords,
        !any_match(records, s.target),
    ensures
        step_spec(s, EventView::RecordsRead { records }) == (
            at(s, StageView::Idle),
            ActionView::Sleep(POLL_INTERVAL_SECS),
            seq![NoticeView::NotFound],
        ),
{
    no_match_no_update(records, s.target, s.stage->AwaitRecords_ipv4, s.stage->AwaitRecords_ipv6);
    let ks = identical_kinds(records, s.target, s.stage->AwaitRecords_ipv4, s.stage->AwaitRecords_ipv6);
    assert(ks.map_values(|k: RecordKind| NoticeView::Identical(k)) =~= Seq::<NoticeView>::empty());
    assert(Seq::<NoticeView>::empty() + seq![NoticeView::NotFound] =~= seq![NoticeView::NotFound]);
}

/// A non-success answer to the request for the record list stops the machine
/// with that status, before any update is sent.
pub proof fn list_failure_stops(s: ReconcilerView, status: u16)
    requires
        s.stage is AwaitList,
        !success(status),
    ensures
        step_spec(s, EventView::ListAnswered { status }) == stop_with(s, CycleError::ListStatus(status)),
{
}

/// A non-success answer to an update request stops the machine with that status.
pub proof fn update_failure_stops(s: ReconcilerView, status: u16)
    requires
        s.stage is Updating,
        !success(status),
    ensures
        step_spec(s, EventView::UpdateAnswered { status }) == stop_with(
            s,
            CycleError::UpdateStatus(status),
        ),
{
}

/// Once stopped, the machine stays stopped and sends nothing, whatever comes.
pub proof fn stopped_is_final(s: ReconcilerView, es: Seq<EventView>)
    requires
        s.stage is Stopped,
    ensures
        run(s, es).0 == s,
        run(s, es).1.len() == es.len(),
        forall|i: int| 0 <= i < es.len() ==> #[trigger] run(s, es).1[i] == ActionView::Stop(s.stage->Stopped_0),
    decreases es.len(),
{
    if es.len() > 0 {
        stopped_is_final(s, es.skip(1));
        let acts = run(s, es).1;
        assert forall|i: int| 0 <= i < es.len() implies #[trigger] acts[i] == ActionView::Stop(
            s.stage->Stopped_0,
        ) by {
            if i > 0 {
                assert(acts[i] == run(s, es.skip(1)).1[i - 1]);
            }
        }
    }
}

} // verus!
