//! Calls served one after another, and what holds of every such run.
//!
//! The guard lets one caller at a time reach the store, so whatever callers
//! do at once is served in some order. This module describes a run in that
//! order — the record it leaves, what it announces, what each caller is
//! told — from the same rules the front doors apply to a single call.

use crate::fanout::{delivery_view, settled_outcome};
use crate::fault::{message_of, LockUse, SyncErrorView};
use crate::http::{lyrics_response, BodyView, ResponseView};
use crate::payload::{LyricsPayload, PayloadView};
use crate::store::{replaced, Store};
use crate::surface::{plain_reply, read_outcome, state_reply, write_outcome};
use vstd::prelude::*;

verus! {

/// One call at either front door, with what the host met while serving it:
/// whether the guard was sound, and for an update how the delivery of its
/// announcement went.
pub enum Call {
    Read { held: bool },
    Update { held: bool, payload: PayloadView, delivery: Result<(), Seq<char>> },
}

/// The record after one call. An update that got the guard leaves its
/// payload, whole; nothing else changes the record.
pub open spec fn record_after(record: PayloadView, call: Call) -> PayloadView {
    match call {
        Call::Update { held: true, payload, .. } => replaced(record, payload),
        _ => record,
    }
}

/// What one call owes the listeners: the stored record, once, for an update
/// that got the guard; nothing for any other call.
pub open spec fn announced_by(call: Call) -> Seq<PayloadView> {
    match call {
        Call::Update { held, payload, .. } => match write_outcome(held, payload) {
            Ok(stored) => seq![stored],
            Err(_) => Seq::empty(),
        },
        Call::Read { .. } => Seq::empty(),
    }
}

/// What the caller of one call is told.
pub open spec fn reply_to(record: PayloadView, call: Call) -> Result<PayloadView, SyncErrorView> {
    match call {
        Call::Read { held } => read_outcome(
            if held {
                Some(record)
            } else {
                None
            },
        ),
        Call::Update { held, payload, delivery } => match write_outcome(held, payload) {
            Ok(stored) => settled_outcome(stored, delivery),
            Err(e) => Err(e),
        },
    }
}

/// The record after a run of calls, served in order.
pub open spec fn record_after_all(record: PayloadView, calls: Seq<Call>) -> PayloadView
    decreases calls.len(),
{
    if calls.len() == 0 {
        record
    } else {
        record_after(record_after_all(record, calls.drop_last()), calls.last())
    }
}

/// Everything a run of calls owes the listeners, in the order it came to be
/// owed.
pub open spec fn announced_by_all(calls: Seq<Call>) -> Seq<PayloadView>
    decreases calls.len(),
{
    if calls.len() == 0 {
        Seq::empty()
    } else {
        announced_by_all(calls.drop_last()) + announced_by(calls.last())
    }
}

/// Tells whether a call replaced the record.
pub open spec fn took_hold(call: Call) -> bool {
    call matches Call::Update { held: true, .. }
}

/// The payload a call carries; the empty record for a call that carries
/// none.
pub open spec fn payload_of(call: Call) -> PayloadView {
    match call {
        Call::Update { payload, .. } => payload,
        Call::Read { .. } => PayloadView::empty(),
    }
}

/// Read after write: once `payload` has replaced the record, a read returns
/// exactly `payload`, whatever the store held before and however the
/// announcement went.
pub proof fn law_read_after_write(store: Store, payload: LyricsPayload, delivery: Result<(), String>)
    ensures
        replaced(store@, payload@) == payload@,
        reply_to(
            record_after(
                store@,
                Call::Update { held: true, payload: payload@, delivery: delivery_view(delivery) },
            ),
            Call::Read { held: true },
        ) == Ok::<PayloadView, SyncErrorView>(payload@),
{
}

/// Two writers at once: the guard serves them in one order or the other, and
/// a read afterwards returns the payload of whichever came last, whole. No
/// field of the other payload, nor of the earlier record, is left in it.
pub proof fn law_concurrent_writes(
    store: Store,
    first: LyricsPayload,
    second: LyricsPayload,
    first_delivery: Result<(), String>,
    second_delivery: Result<(), String>,
)
    ensures
        ({
            let a = Call::Update {
                held: true,
                payload: first@,
                delivery: delivery_view(first_delivery),
            };
            let b = Call::Update {
                held: true,
                payload: second@,
                delivery: delivery_view(second_delivery),
            };
            let read = Call::Read { held: true };
            &&& reply_to(record_after_all(store@, seq![a, b]), read) == Ok::<
                PayloadView,
                SyncErrorView,
            >(second@)
            &&& reply_to(record_after_all(store@, seq![b, a]), read) == Ok::<
                PayloadView,
                SyncErrorView,
            >(first@)
        }),
{
    let a = Call::Update { held: true, payload: first@, delivery: delivery_view(first_delivery) };
    let b = Call::Update {
        held: true,
        payload: second@,
        delivery: delivery_view(second_delivery),
    };
    lemma_last_writer_wins(store@, seq![a, b]);
    lemma_last_writer_wins(store@, seq![b, a]);
}

/// A failed announcement takes nothing back: the record is stored, the
/// announcement was owed all the same, and the caller is told of the
/// announcer's failure.
pub proof fn law_failed_announcement_keeps_record(
    store: Store,
    payload: LyricsPayload,
    reason: String,
)
    ensures
        ({
            let call = Call::Update { held: true, payload: payload@, delivery: Err(reason@) };
            &&& record_after(store@, call) == payload@
            &&& announced_by(call) == seq![payload@]
            &&& reply_to(store@, call) == Err::<PayloadView, SyncErrorView>(
                SyncErrorView::BroadcastFailure(reason@),
            )
        }),
{
}

/// A broken guard lets nothing through: the record stays as it was, nothing
/// is owed to the listeners, and the caller is told that the guard was
/// unavailable for what it wanted.
pub proof fn law_broken_guard_changes_nothing(
    store: Store,
    payload: LyricsPayload,
    delivery: Result<(), String>,
)
    ensures
        ({
            let write = Call::Update {
                held: false,
                payload: payload@,
                delivery: delivery_view(delivery),
            };
            let read = Call::Read { held: false };
            &&& record_after(store@, write) == store@
            &&& record_after(store@, read) == store@
            &&& announced_by(write) == Seq::<PayloadView>::empty()
            &&& announced_by(read) == Seq::<PayloadView>::empty()
            &&& reply_to(store@, write) == Err::<PayloadView, SyncErrorView>(
                SyncErrorView::LockUnavailable(LockUse::Write),
            )
            &&& reply_to(store@, read) == Err::<PayloadView, SyncErrorView>(
                SyncErrorView::LockUnavailable(LockUse::Read),
            )
        }),
{
}

/// After any run that ends with an update that got the guard, the record is
/// that update's payload.
pub proof fn lemma_last_writer_wins(record: PayloadView, calls: Seq<Call>)
    requires
        calls.len() > 0,
        took_hold(calls.last()),
    ensures
        record_after_all(record, calls) == payload_of(calls.last()),
{
}

/// A run in which no update got the guard leaves the record as it was.
pub proof fn lemma_reads_change_nothing(record: PayloadView, calls: Seq<Call>)
    requires
        forall|i: int| 0 <= i < calls.len() ==> !took_hold(#[trigger] calls[i]),
    ensures
        record_after_all(record, calls) == record,
    decreases calls.len(),
{
    if calls.len() > 0 {
        let rest = calls.drop_last();
        assert forall|i: int| 0 <= i < rest.len() implies !took_hold(#[trigger] rest[i]) by {
            assert(rest[i] == calls[i]);
        }
        lemma_reads_change_nothing(record, rest);
    }
}

/// One announcement per replacement: what a run owes the listeners is
/// exactly the payloads of the updates that replaced the record, each once
/// and in the order they were served. Reads, and updates that met a broken
/// guard, owe nothing.
pub proof fn law_one_announcement_per_replace(calls: Seq<Call>)
    ensures
        announced_by_all(calls) == calls.filter(|c: Call| took_hold(c)).map_values(
            |c: Call| payload_of(c),
        ),
    decreases calls.len(),
{
    reveal(Seq::filter);
    let kept = |c: Call| took_hold(c);
    let carried = |c: Call| payload_of(c);
    if calls.len() == 0 {
        assert(announced_by_all(calls) =~= calls.filter(kept).map_values(carried));
    } else {
        let rest = calls.drop_last();
        let last = calls.last();
        law_one_announcement_per_replace(rest);
        if took_hold(last) {
            assert(calls.filter(kept) == rest.filter(kept).push(last));
            assert(announced_by(last) =~= seq![payload_of(last)]);
        } else {
            assert(calls.filter(kept) == rest.filter(kept));
            assert(announced_by(last) =~= Seq::<PayloadView>::empty());
        }
        assert(announced_by_all(calls) =~= calls.filter(kept).map_values(carried));
    }
}

/// Replacing twice with the same payload leaves the record as one
/// replacement does, and is announced twice: the second announcement is not
/// held back for carrying nothing new.
pub proof fn law_repeated_update(
    store: Store,
    payload: LyricsPayload,
    first_delivery: Result<(), String>,
    second_delivery: Result<(), String>,
)
    ensures
        ({
            let once = Call::Update {
                held: true,
                payload: payload@,
                delivery: delivery_view(first_delivery),
            };
            let again = Call::Update {
                held: true,
                payload: payload@,
                delivery: delivery_view(second_delivery),
            };
            &&& record_after_all(store@, seq![once, again]) == record_after(store@, once)
            &&& record_after(store@, once) == payload@
            &&& announced_by_all(seq![once, again]) == seq![payload@, payload@]
        }),
{
    let once = Call::Update {
        held: true,
        payload: payload@,
        delivery: delivery_view(first_delivery),
    };
    let again = Call::Update {
        held: true,
        payload: payload@,
        delivery: delivery_view(second_delivery),
    };
    let both = seq![once, again];
    lemma_last_writer_wins(store@, both);
    let one = both.drop_last();
    assert(one =~= seq![once]);
    assert(one.drop_last() =~= Seq::<Call>::empty());
    assert(announced_by_all(one.drop_last()) =~= Seq::<PayloadView>::empty());
    assert(announced_by_all(one) =~= seq![payload@]);
    assert(announced_by_all(both) =~= seq![payload@, payload@]);
}

/// The two doors tell one story. Whatever a call comes to, the HTTP door
/// answers 200 with a record exactly when the command door returns that
/// record, and otherwise both give the same failure text.
pub proof fn law_doors_agree(record: PayloadView, call: Call)
    ensures
        match reply_to(record, call) {
            Ok(r) => {
                &&& lyrics_response(reply_to(record, call)) == (ResponseView {
                    status: 200,
                    body: BodyView::Lyrics(r),
                })
                &&& state_reply(reply_to(record, call)) == Ok::<PayloadView, Seq<char>>(r)
                &&& plain_reply(reply_to(record, call)) == Ok::<(), Seq<char>>(())
            },
            Err(e) => {
                &&& lyrics_response(reply_to(record, call)).status == 500
                &&& lyrics_response(reply_to(record, call)).body == BodyView::Text(message_of(e))
                &&& state_reply(reply_to(record, call)) == Err::<PayloadView, Seq<char>>(
                    message_of(e),
                )
                &&& plain_reply(reply_to(record, call)) == Err::<(), Seq<char>>(message_of(e))
            },
        },
{
}

/// Write at one door, read at the other: after an update with `payload` got
/// the guard and was announced, both doors echo `payload` to the writer, and
/// both return `payload` to a reader — the same value a replace and a get on
/// the store itself give.
pub proof fn law_write_then_read_at_either_door(store: Store, payload: LyricsPayload)
    ensures
        ({
            let write = Call::Update { held: true, payload: payload@, delivery: Ok(()) };
            let read = Call::Read { held: true };
            let stored = record_after(store@, write);
            &&& stored == payload@
            &&& lyrics_response(reply_to(store@, write)) == (ResponseView {
                status: 200,
                body: BodyView::Lyrics(payload@),
            })
            &&& plain_reply(reply_to(store@, write)) == Ok::<(), Seq<char>>(())
            &&& lyrics_response(reply_to(stored, read)) == (ResponseView {
                status: 200,
                body: BodyView::Lyrics(payload@),
            })
            &&& state_reply(reply_to(stored, read)) == Ok::<PayloadView, Seq<char>>(payload@)
        }),
{
}

} // verus!
