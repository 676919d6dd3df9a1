//! Laws of the session machine, stated over whole event traces.
//!
//! `run` folds [`spec_step`] over a sequence of events and collects the
//! actions; the lemmas here pin down what any driver of the machine can and
//! cannot make it do.

use vstd::prelude::*;

use crate::device::BleError;
use crate::device::ServiceInfo;
use crate::device::spec_has_char;
use crate::payload::spec_trim;
use crate::session::ActionV;
use crate::session::Event;
use crate::session::Mode;
use crate::session::Session;
use crate::session::WriteMode;
use crate::session::spec_step;

verus! {

/// The actions the machine emits when fed `events` from state `s`, in order.
pub open spec fn run(s: Session, events: Seq<Event>) -> Seq<ActionV>
    decreases events.len(),
{
    if events.len() == 0 {
        Seq::empty()
    } else {
        seq![spec_step(s, events[0]).1] + run(spec_step(s, events[0]).0, events.skip(1))
    }
}

/// A whole command: the connect request that starts the session, then
/// everything the machine emits for `events`.
pub open spec fn full_run(mode: Mode, events: Seq<Event>) -> Seq<ActionV> {
    seq![ActionV::Connect] + run(Session::Connecting { mode }, events)
}

/// An action that touches a characteristic over the link.
pub open spec fn is_transport(a: ActionV) -> bool {
    a is ReadChar || a is WriteChar
}

/// States the machine can only be in once `Discover` has been emitted.
pub open spec fn past_discover(s: Session) -> bool {
    ||| s is Discovering
    ||| s is AwaitRead
    ||| s is AwaitWriteAck
    ||| s is AwaitLine
    ||| s is LoopWrite
    ||| s is LoopRead
}

/// States an enumerate-mode session can reach.
pub open spec fn enumerate_like(s: Session) -> bool {
    ||| s matches Session::Connecting { mode: Mode::Enumerate }
    ||| s matches Session::Discovering { mode: Mode::Enumerate }
    ||| s is Done
    ||| s is Failed
}

proof fn lemma_enumerate_like_no_transport(s: Session, events: Seq<Event>)
    requires
        enumerate_like(s),
    ensures
        forall|k: int|
            0 <= k < run(s, events).len() ==> !is_transport(#[trigger] run(s, events)[k]),
    decreases events.len(),
{
    if events.len() > 0 {
        let s2 = spec_step(s, events[0]).0;
        let a = spec_step(s, events[0]).1;
        assert(enumerate_like(s2));
        assert(!is_transport(a));
        lemma_enumerate_like_no_transport(s2, events.skip(1));
        assert(run(s, events) == seq![a] + run(s2, events.skip(1)));
        assert forall|k: int|
            0 <= k < run(s, events).len() implies !is_transport(
            #[trigger] run(s, events)[k],
        ) by {
            if k > 0 {
                assert(run(s, events)[k] == run(s2, events.skip(1))[k - 1]);
            }
        }
    }
}

/// An enumerate-mode command never reads or writes a characteristic,
/// whatever events the outside world produces.
pub proof fn lemma_enumerate_no_transport(events: Seq<Event>)
    ensures
        forall|k: int|
            0 <= k < full_run(Mode::Enumerate, events).len() ==> !is_transport(
                #[trigger] full_run(Mode::Enumerate, events)[k],
            ),
{
    let s0 = Session::Connecting { mode: Mode::Enumerate };
    lemma_enumerate_like_no_transport(s0, events);
    assert forall|k: int|
        0 <= k < full_run(Mode::Enumerate, events).len() implies !is_transport(
        #[trigger] full_run(Mode::Enumerate, events)[k],
    ) by {
        if k > 0 {
            assert(full_run(Mode::Enumerate, events)[k] == run(s0, events)[k - 1]);
        }
    }
}

proof fn lemma_transport_needs_discover(s: Session, events: Seq<Event>)
    requires
        !past_discover(s),
    ensures
        forall|k: int|
            0 <= k < run(s, events).len() && is_transport(#[trigger] run(s, events)[k])
                ==> exists|j: int| 0 <= j < k && run(s, events)[j] == ActionV::Discover,
    decreases events.len(),
{
    if events.len() > 0 {
        let acts = run(s, events);
        let s2 = spec_step(s, events[0]).0;
        let a = spec_step(s, events[0]).1;
        let tail = run(s2, events.skip(1));
        assert(acts == seq![a] + tail);
        assert(!is_transport(a));
        if past_discover(s2) {
            // Only a successful connect moves below discovery, and that very
            // step emits the discover request.
            assert(a == ActionV::Discover);
            assert forall|k: int|
                0 <= k < acts.len() && is_transport(#[trigger] acts[k]) implies exists|j: int|
                0 <= j < k && acts[j] == ActionV::Discover by {
                assert(k > 0);
                assert(0 <= 0 < k && acts[0] == ActionV::Discover);
            }
        } else {
            lemma_transport_needs_discover(s2, events.skip(1));
            assert forall|k: int|
                0 <= k < acts.len() && is_transport(#[trigger] acts[k]) implies exists|j: int|
                0 <= j < k && acts[j] == ActionV::Discover by {
                assert(k > 0);
                assert(acts[k] == tail[k - 1]);
                let j0 = choose|j0: int| 0 <= j0 < k - 1 && tail[j0] == ActionV::Discover;
                assert(acts[j0 + 1] == ActionV::Discover);
            }
        }
    }
}

/// Connect comes first and discovery comes before any characteristic access:
/// in any command's trace the opening action is `Connect`, and every read or
/// write of a characteristic is preceded by a `Discover`.
pub proof fn lemma_connect_discover_order(mode: Mode, events: Seq<Event>)
    ensures
        full_run(mode, events)[0] == ActionV::Connect,
        forall|k: int|
            0 <= k < full_run(mode, events).len() && is_transport(
                #[trigger] full_run(mode, events)[k],
            ) ==> exists|j: int| 0 < j < k && full_run(mode, events)[j] == ActionV::Discover,
{
    let s0 = Session::Connecting { mode };
    let acts = full_run(mode, events);
    lemma_transport_needs_discover(s0, events);
    assert forall|k: int|
        0 <= k < acts.len() && is_transport(#[trigger] acts[k]) implies exists|j: int|
        0 < j < k && acts[j] == ActionV::Discover by {
        assert(k > 0);
        assert(acts[k] == run(s0, events)[k - 1]);
        let j0 = choose|j0: int| 0 <= j0 < k - 1 && run(s0, events)[j0] == ActionV::Discover;
        assert(acts[j0 + 1] == ActionV::Discover);
    }
}

/// A failed session is inert: no further event makes it act again.
pub proof fn lemma_failed_inert(error: BleError, events: Seq<Event>)
    ensures
        forall|k: int|
            0 <= k < run(Session::Failed { error }, events).len() ==> run(
                Session::Failed { error },
                events,
            )[k] == ActionV::Idle,
    decreases events.len(),
{
    let s = Session::Failed { error };
    if events.len() > 0 {
        lemma_failed_inert(error, events.skip(1));
        assert(run(s, events) == seq![ActionV::Idle] + run(s, events.skip(1)));
        assert forall|k: int|
            0 <= k < run(s, events).len() implies run(s, events)[k] == ActionV::Idle by {
            if k > 0 {
                assert(run(s, events)[k] == run(s, events.skip(1))[k - 1]);
            }
        }
    }
}

/// A read command whose characteristic UUID is absent from the flattened
/// discovered set stops with `CharacteristicNotFound` at the discovery step,
/// and no read or write is ever attempted afterwards.
pub proof fn lemma_missing_char_stops_read(
    uuid: String,
    services: Vec<ServiceInfo>,
    later: Seq<Event>,
)
    requires
        !spec_has_char(services@, uuid@),
    ensures
        ({
            let s = Session::Discovering { mode: Mode::Read { uuid } };
            let e = Event::Discovered { services };
            &&& spec_step(s, e).1 == (ActionV::Stop {
                error: Some(BleError::CharacteristicNotFound),
            })
            &&& spec_step(s, e).0 == (Session::Failed {
                error: BleError::CharacteristicNotFound,
            })
            &&& forall|k: int|
                0 <= k < run(spec_step(s, e).0, later).len() ==> !is_transport(
                    #[trigger] run(spec_step(s, e).0, later)[k],
                )
        }),
{
    lemma_failed_inert(BleError::CharacteristicNotFound, later);
}

/// The event trace of a clean interactive exchange: for each input line the
/// write completes and the paired read returns, and then input ends.
pub open spec fn loop_events(lines: Seq<Vec<u8>>, replies: Seq<Vec<u8>>) -> Seq<Event>
    decreases lines.len(),
{
    if lines.len() == 0 {
        seq![Event::EndOfInput]
    } else {
        seq![
            Event::Line { raw: lines[0] },
            Event::WriteDone,
            Event::ReadResult { value: replies[0] },
        ] + loop_events(lines.skip(1), replies.skip(1))
    }
}

/// The interactive loop writes and reads in strict alternation: for N input
/// lines with no failures the machine emits exactly N writes and N reads,
/// write-then-read per line, each write carrying the trimmed line without
/// response, and then stops cleanly at end of input.
pub proof fn lemma_interactive_alternation(
    write_uuid: String,
    read_uuid: String,
    lines: Seq<Vec<u8>>,
    replies: Seq<Vec<u8>>,
)
    requires
        lines.len() == replies.len(),
    ensures
        ({
            let acts = run(
                Session::AwaitLine { write_uuid, read_uuid },
                loop_events(lines, replies),
            );
            &&& acts.len() == 3 * lines.len() + 1
            &&& forall|k: int| #![trigger lines[k]]
                0 <= k < lines.len() ==> {
                    &&& acts[3 * k] == (ActionV::WriteChar {
                        uuid: write_uuid@,
                        payload: spec_trim(lines[k]@),
                        write_type: WriteMode::WithoutResponse,
                    })
                    &&& acts[3 * k + 1] == (ActionV::ReadChar { uuid: read_uuid@ })
                    &&& acts[3 * k + 2] == ActionV::RequestLine
                }
            &&& acts[3 * lines.len() as int] == (ActionV::Stop { error: None })
        }),
    decreases lines.len(),
{
    let s0 = Session::AwaitLine { write_uuid, read_uuid };
    let events = loop_events(lines, replies);
    let acts = run(s0, events);
    if lines.len() == 0 {
        assert(events == seq![Event::EndOfInput]);
        assert(events[0] == Event::EndOfInput);
        assert(spec_step(s0, events[0]).1 == (ActionV::Stop { error: None }));
        assert(events.skip(1) =~= Seq::<Event>::empty());
        assert(run(spec_step(s0, events[0]).0, events.skip(1)) == Seq::<ActionV>::empty());
        assert(acts =~= seq![ActionV::Stop { error: None }]);
    } else {
        let head = seq![
            Event::Line { raw: lines[0] },
            Event::WriteDone,
            Event::ReadResult { value: replies[0] },
        ];
        let rest = loop_events(lines.skip(1), replies.skip(1));
        assert(events == head + rest);
        let w = ActionV::WriteChar {
            uuid: write_uuid@,
            payload: spec_trim(lines[0]@),
            write_type: WriteMode::WithoutResponse,
        };
        let s1 = Session::LoopWrite { write_uuid, read_uuid };
        let s2 = Session::LoopRead { write_uuid, read_uuid };
        let e1 = events.skip(1);
        let e2 = e1.skip(1);
        let e3 = e2.skip(1);
        assert(events[0] == (Event::Line { raw: lines[0] }));
        assert(spec_step(s0, events[0]).0 == s1);
        assert(spec_step(s0, events[0]).1 == w);
        assert(e1[0] == Event::WriteDone);
        assert(e2[0] == (Event::ReadResult { value: replies[0] }));
        assert(e3 =~= rest);
        lemma_interactive_alternation(write_uuid, read_uuid, lines.skip(1), replies.skip(1));
        let tail = run(s0, rest);
        assert(run(s0, events) == seq![w] + run(s1, e1));
        assert(run(s1, e1) == seq![ActionV::ReadChar { uuid: read_uuid@ }] + run(s2, e2));
        assert(run(s2, e2) == seq![ActionV::RequestLine] + run(s0, e3));
        assert(run(s0, e3) == tail);
        assert(acts =~= seq![
            w,
            ActionV::ReadChar { uuid: read_uuid@ },
            ActionV::RequestLine,
        ] + tail);
        assert forall|k: int|
            0 <= k < lines.len() implies acts[3 * k] == (ActionV::WriteChar {
            uuid: write_uuid@,
            payload: spec_trim(lines[k]@),
            write_type: WriteMode::WithoutResponse,
        }) && acts[3 * k + 1] == (ActionV::ReadChar { uuid: read_uuid@ }) && acts[3 * k + 2]
            == ActionV::RequestLine by {
            if k > 0 {
                assert(acts[3 * k] == tail[3 * (k - 1)]);
                assert(acts[3 * k + 1] == tail[3 * (k - 1) + 1]);
                assert(acts[3 * k + 2] == tail[3 * (k - 1) + 2]);
                assert(lines.skip(1)[k - 1] == lines[k]);
            }
        }
        assert(acts[3 * lines.len() as int] == tail[3 * lines.skip(1).len() as int]);
    }
}

} // verus!
