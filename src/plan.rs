//! What one cycle does with the records of the zone: the updates to send,
//! and the matched records whose value already agrees with the observed address.
use vstd::prelude::*;
use crate::record::{
    DnsRecord, RecordKind, RecordView, UpdateView, RecordUpdate, kind_of, observed_for,
    update_for, record_kind, make_update, UPDATE_TTL, update_url_of,
};

verus! {

/// The views of a slice of records.
pub open spec fn record_views(rs: Seq<DnsRecord>) -> Seq<RecordView> {
    rs.map_values(|r: DnsRecord| r@)
}

/// Whether `r` is matched for `target` and holds another value than the one observed.
pub open spec fn needs_update(
    r: RecordView,
    target: Seq<char>,
    ipv4: Seq<char>,
    ipv6: Seq<char>,
) -> bool {
    match kind_of(r, target) {
        Some(k) => r.value != observed_for(k, ipv4, ipv6),
        None => false,
    }
}

/// Whether `r` is matched for `target` and already holds the observed value.
pub open spec fn is_identical(
    r: RecordView,
    target: Seq<char>,
    ipv4: Seq<char>,
    ipv6: Seq<char>,
) -> bool {
    match kind_of(r, target) {
        Some(k) => r.value == observed_for(k, ipv4, ipv6),
        None => false,
    }
}

/// The update request for `r`, where it needs one.
pub open spec fn update_of(
    r: RecordView,
    target: Seq<char>,
    ipv4: Seq<char>,
    ipv6: Seq<char>,
) -> UpdateView {
    update_for(r, observed_for(kind_of(r, target).unwrap(), ipv4, ipv6))
}

/// The update requests of one cycle, one for each matched record whose value
/// differs from the observed address, in the order of the records.
pub open spec fn pending_updates(
    rs: Seq<RecordView>,
    target: Seq<char>,
    ipv4: Seq<char>,
    ipv6: Seq<char>,
) -> Seq<UpdateView>
    decreases rs.len(),
{
    if rs.len() == 0 {
        Seq::empty()
    } else {
        let prev = pending_updates(rs.drop_last(), target, ipv4, ipv6);
        if needs_update(rs.last(), target, ipv4, ipv6) {
            prev.push(update_of(rs.last(), target, ipv4, ipv6))
        } else {
            prev
        }
    }
}

/// The kinds of the matched records that already hold the observed address,
/// in the order of the records.
pub open spec fn identical_kinds(
    rs: Seq<RecordView>,
    target: Seq<char>,
    ipv4: Seq<char>,
    ipv6: Seq<char>,
) -> Seq<RecordKind>
    decreases rs.len(),
{
    if rs.len() == 0 {
        Seq::empty()
    } else {
        let prev = identical_kinds(rs.drop_last(), target, ipv4, ipv6);
        if is_identical(rs.last(), target, ipv4, ipv6) {
            prev.push(kind_of(rs.last(), target).unwrap())
        } else {
            prev
        }
    }
}

/// Whether some record of `rs` is matched for `target`.
pub open spec fn any_match(rs: Seq<RecordView>, target: Seq<char>) -> bool {
    exists|i: int| 0 <= i < rs.len() && (#[trigger] kind_of(rs[i], target)) is Some
}

/// Returns the update requests of one cycle: for each record named `target`
/// whose type is `A` (`AAAA`) and whose value differs from `ipv4` (`ipv6`),
/// in the order of `records`, the request that sets it to that address.
pub fn plan_updates(records: &Vec<DnsRecord>, target: &String, ipv4: &String, ipv6: &String) -> (r:
    Vec<RecordUpdate>)
    ensures
        r@.map_values(|u: RecordUpdate| u@) == pending_updates(
            record_views(records@),
            target@,
            ipv4@,
            ipv6@,
        ),
{
    let ghost rs = record_views(records@);
    let mut out: Vec<RecordUpdate> = Vec::new();
    let mut i: usize = 0;
    while i < records.len()
        invariant
            i <= records.len(),
            rs == record_views(records@),
            out@.map_values(|u: RecordUpdate| u@) == pending_updates(
                rs.take(i as int),
                target@,
                ipv4@,
                ipv6@,
            ),
        decreases records.len() - i,
    {
        let record = &records[i];
        assert(rs.take(i + 1).drop_last() =~= rs.take(i as int));
        assert(rs.take(i + 1).last() == record@);
        match record_kind(record, target) {
            Some(kind) => {
                let observed = match kind {
                    RecordKind::A => ipv4,
                    RecordKind::Aaaa => ipv6,
                };
                if record.value != *observed {
                    let u = make_update(record, observed);
                    out.push(u);
                    assert(out@.map_values(|u: RecordUpdate| u@) =~= pending_updates(
                        rs.take(i + 1),
                        target@,
                        ipv4@,
                        ipv6@,
                    ));
                }
            },
            None => {},
        }
        i = i + 1;
    }
    assert(rs.take(records.len() as int) =~= rs);
    out
}

/// Returns the kinds of the records named `target` whose type is `A` (`AAAA`)
/// and whose value equals `ipv4` (`ipv6`), in the order of `records`.
pub fn identical_records(records: &Vec<DnsRecord>, target: &String, ipv4: &String, ipv6: &String) -> (r:
    Vec<RecordKind>)
    ensures
        r@ == identical_kinds(record_views(records@), target@, ipv4@, ipv6@),
{
    let ghost rs = record_views(records@);
    let mut out: Vec<RecordKind> = Vec::new();
    let mut i: usize = 0;
    while i < records.len()
        invariant
            i <= records.len(),
            rs == record_views(records@),
            out@ == identical_kinds(rs.take(i as int), target@, ipv4@, ipv6@),
        decreases records.len() - i,
    {
        let record = &records[i];
        assert(rs.take(i + 1).drop_last() =~= rs.take(i as int));
        assert(rs.take(i + 1).last() == record@);
        match record_kind(record, target) {
            Some(kind) => {
                let observed = match kind {
                    RecordKind::A => ipv4,
                    RecordKind::Aaaa => ipv6,
                };
                if record.value == *observed {
                    out.push(kind);
                }
            },
            None => {},
        }
        i = i + 1;
    }
    assert(rs.take(records.len() as int) =~= rs);
    out
}

/// Returns whether some record of `records` is named `target` and has type `A` or `AAAA`.
pub fn has_match(records: &Vec<DnsRecord>, target: &String) -> (r: bool)
    ensures
        r == any_match(record_views(records@), target@),
{
    let ghost rs = record_views(records@);
    let mut i: usize = 0;
    while i < records.len()
        invariant
            i <= records.len(),
            rs == record_views(records@),
            forall|j: int| 0 <= j < i ==> (#[trigger] kind_of(rs[j], target@)) is None,
        decreases records.len() - i,
    {
        if record_kind(&records[i], target).is_some() {
            assert(kind_of(rs[i as int], target@) is Some);
            return true;
        }
        i = i + 1;
    }
    false
}

/// The updates of a concatenation are the updates of its parts, in order.
pub proof fn lemma_pending_updates_concat(
    a: Seq<RecordView>,
    b: Seq<RecordView>,
    target: Seq<char>,
    ipv4: Seq<char>,
    ipv6: Seq<char>,
)
    ensures
        pending_updates(a + b, target, ipv4, ipv6) == pending_updates(a, target, ipv4, ipv6)
            + pending_updates(b, target, ipv4, ipv6),
    decreases b.len(),
{
    if b.len() == 0 {
        assert(a + b =~= a);
        assert(pending_updates(a, target, ipv4, ipv6) + Seq::empty() =~= pending_updates(
            a,
            target,
            ipv4,
            ipv6,
        ));
    } else {
        lemma_pending_updates_concat(a, b.drop_last(), target, ipv4, ipv6);
        assert((a + b).drop_last() =~= a + b.drop_last());
        assert((a + b).last() == b.last());
        let pa = pending_updates(a, target, ipv4, ipv6);
        let pb = pending_updates(b.drop_last(), target, ipv4, ipv6);
        if needs_update(b.last(), target, ipv4, ipv6) {
            assert((pa + pb).push(update_of(b.last(), target, ipv4, ipv6)) =~= pa + pb.push(
                update_of(b.last(), target, ipv4, ipv6),
            ));
        }
    }
}

/// The identical kinds of a concatenation are those of its parts, in order.
pub proof fn lemma_identical_kinds_concat(
    a: Seq<RecordView>,
    b: Seq<RecordView>,
    target: Seq<char>,
    ipv4: Seq<char>,
    ipv6: Seq<char>,
)
    ensures
        identical_kinds(a + b, target, ipv4, ipv6) == identical_kinds(a, target, ipv4, ipv6)
            + identical_kinds(b, target, ipv4, ipv6),
    decreases b.len(),
{
    if b.len() == 0 {
        assert(a + b =~= a);
        assert(identical_kinds(a, target, ipv4, ipv6) + Seq::empty() =~= identical_kinds(
            a,
            target,
            ipv4,
            ipv6,
        ));
    } else {
        lemma_identical_kinds_concat(a, b.drop_last(), target, ipv4, ipv6);
        assert((a + b).drop_last() =~= a + b.drop_last());
        assert((a + b).last() == b.last());
        let ka = identical_kinds(a, target, ipv4, ipv6);
        let kb = identical_kinds(b.drop_last(), target, ipv4, ipv6);
        if is_identical(b.last(), target, ipv4, ipv6) {
            let k = kind_of(b.last(), target).unwrap();
            assert((ka + kb).push(k) =~= ka + kb.push(k));
        }
    }
}

/// What the cycle does with a single record.
proof fn lemma_single(r: RecordView, target: Seq<char>, ipv4: Seq<char>, ipv6: Seq<char>)
    ensures
        pending_updates(seq![r], target, ipv4, ipv6) == (if needs_update(r, target, ipv4, ipv6) {
            seq![update_of(r, target, ipv4, ipv6)]
        } else {
            Seq::<UpdateView>::empty()
        }),
        identical_kinds(seq![r], target, ipv4, ipv6) == (if is_identical(r, target, ipv4, ipv6) {
            seq![kind_of(r, target).unwrap()]
        } else {
            Seq::<RecordKind>::empty()
        }),
{
    let one = seq![r];
    assert(one.drop_last() =~= Seq::<RecordView>::empty());
    assert(one.last() == r);
    assert(pending_updates(one.drop_last(), target, ipv4, ipv6) == Seq::<UpdateView>::empty());
    assert(identical_kinds(one.drop_last(), target, ipv4, ipv6) == Seq::<RecordKind>::empty());
    assert(Seq::<UpdateView>::empty().push(update_of(r, target, ipv4, ipv6)) =~= seq![
        update_of(r, target, ipv4, ipv6),
    ]);
    assert(Seq::<RecordKind>::empty().push(kind_of(r, target).unwrap()) =~= seq![
        kind_of(r, target).unwrap(),
    ]);
}

/// Cuts `rs` around its record at `i`: what the cycle does is what it does
/// with the records before, then with that record alone, then with those after.
pub proof fn lemma_split_at(
    rs: Seq<RecordView>,
    i: int,
    target: Seq<char>,
    ipv4: Seq<char>,
    ipv6: Seq<char>,
)
    requires
        0 <= i < rs.len(),
    ensures
        pending_updates(rs, target, ipv4, ipv6) == pending_updates(rs.take(i), target, ipv4, ipv6)
            + pending_updates(seq![rs[i]], target, ipv4, ipv6) + pending_updates(
            rs.skip(i + 1),
            target,
            ipv4,
            ipv6,
        ),
        identical_kinds(rs, target, ipv4, ipv6) == identical_kinds(rs.take(i), target, ipv4, ipv6)
            + identical_kinds(seq![rs[i]], target, ipv4, ipv6) + identical_kinds(
            rs.skip(i + 1),
            target,
            ipv4,
            ipv6,
        ),
{
    let one = seq![rs[i]];
    assert(rs =~= rs.take(i) + one + rs.skip(i + 1));
    lemma_pending_updates_concat(rs.take(i) + one, rs.skip(i + 1), target, ipv4, ipv6);
    lemma_pending_updates_concat(rs.take(i), one, target, ipv4, ipv6);
    lemma_identical_kinds_concat(rs.take(i) + one, rs.skip(i + 1), target, ipv4, ipv6);
    lemma_identical_kinds_concat(rs.take(i), one, target, ipv4, ipv6);
    lemma_single(rs[i], target, ipv4, ipv6);
}

/// A matched record that already holds the observed address gets no update:
/// the updates of the cycle are those of the other records.
pub proof fn identical_record_is_not_updated(
    rs: Seq<RecordView>,
    i: int,
    target: Seq<char>,
    ipv4: Seq<char>,
    ipv6: Seq<char>,
)
    requires
        0 <= i < rs.len(),
        is_identical(rs[i], target, ipv4, ipv6),
    ensures
        pending_updates(rs, target, ipv4, ipv6) == pending_updates(rs.take(i), target, ipv4, ipv6)
            + pending_updates(rs.skip(i + 1), target, ipv4, ipv6),
{
    lemma_split_at(rs, i, target, ipv4, ipv6);
    lemma_single(rs[i], target, ipv4, ipv6);
    assert(pending_updates(rs.take(i), target, ipv4, ipv6) + Seq::<UpdateView>::empty() =~= pending_updates(
        rs.take(i),
        target,
        ipv4,
        ipv6,
    ));
}

/// A matched record whose value differs from the observed address gets
/// exactly one update, in its place among the others, which carries the
/// observed address and the fixed time-to-live.
pub proof fn differing_record_is_updated_once(
    rs: Seq<RecordView>,
    i: int,
    target: Seq<char>,
    ipv4: Seq<char>,
    ipv6: Seq<char>,
)
    requires
        0 <= i < rs.len(),
        needs_update(rs[i], target, ipv4, ipv6),
    ensures
        pending_updates(rs, target, ipv4, ipv6) == pending_updates(rs.take(i), target, ipv4, ipv6)
            + seq![update_of(rs[i], target, ipv4, ipv6)] + pending_updates(
            rs.skip(i + 1),
            target,
            ipv4,
            ipv6,
        ),
        update_of(rs[i], target, ipv4, ipv6).payload.value == observed_for(
            kind_of(rs[i], target).unwrap(),
            ipv4,
            ipv6,
        ),
        update_of(rs[i], target, ipv4, ipv6).payload.ttl == UPDATE_TTL,
        update_of(rs[i], target, ipv4, ipv6).url == update_url_of(rs[i].id),
{
    lemma_split_at(rs, i, target, ipv4, ipv6);
    lemma_single(rs[i], target, ipv4, ipv6);
}

/// A record whose name is not `target`, or whose type is neither `A` nor
/// `AAAA`, is neither updated nor reported, whatever its value.
pub proof fn unmatched_record_is_ignored(
    rs: Seq<RecordView>,
    i: int,
    target: Seq<char>,
    ipv4: Seq<char>,
    ipv6: Seq<char>,
)
    requires
        0 <= i < rs.len(),
        rs[i].name != target || (rs[i].record_type != crate::record::a_type()
            && rs[i].record_type != crate::record::aaaa_type()),
    ensures
        pending_updates(rs, target, ipv4, ipv6) == pending_updates(rs.take(i), target, ipv4, ipv6)
            + pending_updates(rs.skip(i + 1), target, ipv4, ipv6),
        identical_kinds(rs, target, ipv4, ipv6) == identical_kinds(rs.take(i), target, ipv4, ipv6)
            + identical_kinds(rs.skip(i + 1), target, ipv4, ipv6),
{
    lemma_split_at(rs, i, target, ipv4, ipv6);
    lemma_single(rs[i], target, ipv4, ipv6);
    assert(pending_updates(rs.take(i), target, ipv4, ipv6) + Seq::<UpdateView>::empty() =~= pending_updates(
        rs.take(i),
        target,
        ipv4,
        ipv6,
    ));
    assert(identical_kinds(rs.take(i), target, ipv4, ipv6) + Seq::<RecordKind>::empty() =~= identical_kinds(
        rs.take(i),
        target,
        ipv4,
        ipv6,
    ));
}

/// Where no record is matched, the cycle has no update to send and no record to report.
pub proof fn no_match_no_update(rs: Seq<RecordView>, target: Seq<char>, ipv4: Seq<char>, ipv6: Seq<char>)
    requires
        !any_match(rs, target),
    ensures
        pending_updates(rs, target, ipv4, ipv6) == Seq::<UpdateView>::empty(),
        identical_kinds(rs, target, ipv4, ipv6) == Seq::<RecordKind>::empty(),
    decreases rs.len(),
{
    if rs.len() > 0 {
        let init = rs.drop_last();
        assert(!any_match(init, target)) by {
            if any_match(init, target) {
                let j = choose|j: int| 0 <= j < init.len() && (#[trigger] kind_of(init[j], target)) is Some;
                assert(rs[j] == init[j]);
            }
        }
        no_match_no_update(init, target, ipv4, ipv6);
        assert(kind_of(rs[rs.len() - 1], target) is None);
    }
}

} // verus!
