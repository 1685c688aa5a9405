//! What holds of every lobby: the join counters stay within their bounds,
//! the countdown is started at most once and lasts as long as the game
//! client needs, and the relay node is told at most once that the game
//! client joined.

use crate::error::Error;
use crate::lan::game::lobby::{
    send_steps, spec_join_reply, ClientAddr, ClientPacketView, HostPacketView, LobbyAction,
    LobbyEventView, LobbyHandlerView, LobbyOutcomeView, LobbyStepView, SockAddrV4,
    COUNTDOWN_GRACE_MILLIS, COUNTDOWN_MILLIS, COUNTDOWN_NOTIFY_CEILING_MILLIS,
};
use crate::types::SlotClientStatus;
use vstd::prelude::*;

verus! {

/// How often the start of the countdown occurs among some packets.
pub open spec fn countdown_starts_in(packets: Seq<HostPacketView>) -> nat
    decreases packets.len(),
{
    if packets.len() == 0 {
        0
    } else {
        countdown_starts_in(packets.drop_last()) + if packets.last()
            == HostPacketView::CountDownStart {
            1nat
        } else {
            0nat
        }
    }
}

/// How often the start of the countdown is sent by some steps.
pub open spec fn countdown_starts(steps: Seq<LobbyStepView>) -> nat
    decreases steps.len(),
{
    if steps.len() == 0 {
        0
    } else {
        countdown_starts(steps.drop_last()) + match steps.last() {
            LobbyStepView::Send(packets) => countdown_starts_in(packets),
            _ => 0nat,
        }
    }
}

/// Packets none of which starts the countdown.
proof fn lemma_no_start_in(packets: Seq<HostPacketView>)
    requires
        forall|i: int| 0 <= i < packets.len() ==> packets[i] != HostPacketView::CountDownStart,
    ensures
        countdown_starts_in(packets) == 0,
    decreases packets.len(),
{
    if packets.len() > 0 {
        lemma_no_start_in(packets.drop_last());
    }
}

/// The starts of two lists of steps add up.
proof fn lemma_starts_add(a: Seq<LobbyStepView>, b: Seq<LobbyStepView>)
    ensures
        countdown_starts(a + b) == countdown_starts(a) + countdown_starts(b),
    decreases b.len(),
{
    if b.len() == 0 {
        assert(a + b =~= a);
    } else {
        assert((a + b).drop_last() =~= a + b.drop_last());
        assert((a + b).last() == b.last());
        lemma_starts_add(a, b.drop_last());
    }
}

/// The answer to a join request does not start the countdown.
proof fn lemma_join_reply_has_no_start(handler: LobbyHandlerView, addr: SockAddrV4)
    ensures
        countdown_starts_in(spec_join_reply(handler.info, addr)) == 0,
{
    let reply = spec_join_reply(handler.info, addr);
    assert forall|i: int| 0 <= i < reply.len() implies reply[i]
        != HostPacketView::CountDownStart by {}
    lemma_no_start_in(reply);
}

/// No answer to a packet of the game client starts the countdown.
proof fn lemma_reply_has_no_start(
    handler: LobbyHandlerView,
    addr: ClientAddr,
    packet: ClientPacketView,
)
    ensures
        handler.packet_reply(addr, packet) matches Ok(replies) ==> countdown_starts(
            send_steps(replies),
        ) == 0,
{
    match handler.packet_reply(addr, packet) {
        Ok(replies) => {
            if replies.len() > 0 {
                match packet {
                    ClientPacketView::ReqJoin => {
                        match addr {
                            ClientAddr::V4 { ip, port } => {
                                lemma_join_reply_has_no_start(handler, SockAddrV4 { ip, port });
                            },
                            ClientAddr::V6 => {},
                        }
                    },
                    _ => {
                        lemma_no_start_in(replies);
                    },
                }
                let steps = send_steps(replies);
                assert(steps.drop_last() =~= Seq::empty());
                assert(steps.last() == LobbyStepView::Send(replies));
                assert(countdown_starts(steps.drop_last()) == 0);
                assert(countdown_starts_in(replies) == 0);
                assert(countdown_starts(steps) == 0);
            } else {
                assert(send_steps(replies) =~= Seq::empty());
            }
        },
        Err(_) => {},
    }
}

/// Telling that the game client joined does not start the countdown.
proof fn lemma_report_has_no_start(handler: LobbyHandlerView)
    ensures
        countdown_starts(handler.report_steps()) == 0,
{
    reveal_with_fuel(countdown_starts, 3);
    let steps = handler.report_steps();
    if steps.len() == 2 {
        assert(steps.drop_last().drop_last() =~= Seq::empty());
    } else if steps.len() == 1 {
        assert(steps.drop_last() =~= Seq::empty());
    }
}

/// The start sequence starts the countdown once.
pub proof fn lemma_start_sequence_starts_once(handler: LobbyHandlerView)
    ensures
        countdown_starts(handler.start_sequence()) == 1,
{
    let s = handler.start_sequence();
    let s4 = s.drop_last();
    let s3 = s4.drop_last();
    let s2 = s3.drop_last();
    let s1 = s2.drop_last();
    let s0 = s1.drop_last();
    assert(s0 =~= Seq::empty());
    reveal_with_fuel(countdown_starts_in, 2);
    let first = seq![HostPacketView::SlotInfo(handler.info.slot_info.slot_info)];
    let begin = seq![HostPacketView::CountDownStart];
    let end = seq![HostPacketView::CountDownEnd];
    assert(first.drop_last() =~= Seq::empty());
    assert(begin.drop_last() =~= Seq::empty());
    assert(end.drop_last() =~= Seq::empty());
    assert(countdown_starts_in(first) == 0);
    assert(countdown_starts_in(begin) == 1);
    assert(countdown_starts_in(end) == 0);
    assert(s1.last() == LobbyStepView::Send(first));
    assert(s2.last() == LobbyStepView::Send(begin));
    assert(s.last() == LobbyStepView::Send(end));
    assert(countdown_starts(s0) == 0);
    assert(countdown_starts(s1) == 0);
    assert(countdown_starts(s2) == 1);
    assert(countdown_starts(s3) == 1);
    assert(countdown_starts(s4) == 1);
}

/// Starting the game is idempotent: the first call starts the countdown
/// once, every later call gives out nothing and changes nothing.
pub proof fn lemma_send_start_idempotent(handler: LobbyHandlerView)
    ensures
        countdown_starts(handler.start_steps()) == if handler.starting {
            0nat
        } else {
            1nat
        },
        handler.started().start_steps() == Seq::<LobbyStepView>::empty(),
        handler.started().started() == handler.started(),
{
    lemma_start_sequence_starts_once(handler);
}

/// The steps of `n` calls to start the game, one after the other.
pub open spec fn repeated_start_steps(handler: LobbyHandlerView, n: nat) -> Seq<LobbyStepView>
    decreases n,
{
    if n == 0 {
        Seq::empty()
    } else {
        handler.start_steps() + repeated_start_steps(handler.started(), (n - 1) as nat)
    }
}

/// However often a lobby that has not started is asked to start, the
/// start of the countdown is sent exactly once.
pub proof fn lemma_repeated_start_starts_once(handler: LobbyHandlerView, n: nat)
    requires
        n >= 1,
        !handler.starting,
    ensures
        countdown_starts(repeated_start_steps(handler, n)) == 1,
{
    lemma_start_sequence_starts_once(handler);
    lemma_started_gives_nothing(handler.started(), (n - 1) as nat);
    lemma_starts_add(
        handler.start_steps(),
        repeated_start_steps(handler.started(), (n - 1) as nat),
    );
}

/// A lobby that has started gives out nothing, however often it is asked
/// to start.
proof fn lemma_started_gives_nothing(handler: LobbyHandlerView, n: nat)
    requires
        handler.starting,
    ensures
        repeated_start_steps(handler, n) == Seq::<LobbyStepView>::empty(),
    decreases n,
{
    if n > 0 {
        lemma_started_gives_nothing(handler.started(), (n - 1) as nat);
        assert(handler.started() == handler);
        assert(handler.start_steps() + Seq::<LobbyStepView>::empty() =~= Seq::<
            LobbyStepView,
        >::empty());
    }
}

/// One event starts the countdown exactly when it ends a lobby that had
/// not started before; an event that does not end the lobby leaves the
/// start flag as it was.
pub proof fn lemma_step_starts(handler: LobbyHandlerView, addr: ClientAddr, event: LobbyEventView)
    ensures
        handler.step(addr, event).1 matches Ok(outcome) ==> {
            &&& countdown_starts(outcome.steps) == if outcome.action is Some && !handler.starting {
                1nat
            } else {
                0nat
            }
            &&& (outcome.action is None ==> handler.step(addr, event).0.starting
                == handler.starting)
            &&& (outcome.action matches Some(action) ==> action == LobbyAction::Start)
        },
{
    let (next, result) = handler.step(addr, event);
    let empty = Seq::<LobbyStepView>::empty();
    assert(countdown_starts(empty) == 0);
    match event {
        LobbyEventView::Packet(ClientPacketView::LeaveReq) => {},
        LobbyEventView::Packet(packet) => {
            match handler.packet_reply(addr, packet) {
                Err(_) => {},
                Ok(replies) => {
                    lemma_reply_has_no_start(handler, addr, packet);
                    let answered = handler.after_packet(packet);
                    assert(answered.starting == handler.starting);
                    lemma_report_has_no_start(answered);
                    lemma_starts_add(send_steps(replies), answered.report_steps());
                    if answered.join.is_ready() {
                        let told = LobbyHandlerView { reported: true, ..answered };
                        let steps = send_steps(replies) + answered.report_steps();
                        assert(countdown_starts(steps) == 0);
                        lemma_start_sequence_starts_once(told);
                        lemma_starts_add(steps, told.start_steps());
                        if told.join.should_start() {
                            assert(result->Ok_0.steps == steps + told.start_steps());
                        } else {
                            assert(result->Ok_0.steps == steps);
                        }
                    } else {
                        assert(result->Ok_0.steps == send_steps(replies));
                    }
                },
            }
        },
        LobbyEventView::PingTick { elapsed_millis } => {
            let ping = seq![HostPacketView::PingFromHost { payload: elapsed_millis }];
            lemma_no_start_in(ping);
            let steps = seq![LobbyStepView::Send(ping)];
            assert(steps.drop_last() =~= empty);
            assert(steps.last() == LobbyStepView::Send(ping));
            assert(countdown_starts(steps) == 0);
        },
        LobbyEventView::StatusChanged(Some(status)) => {
            let seen = LobbyHandlerView { join: handler.join.with_status(status), ..handler };
            lemma_start_sequence_starts_once(seen);
        },
        _ => {},
    }
}

/// Over any run of events, the start of the countdown is sent at most
/// once: exactly once where the run ends with the start of the game in a
/// lobby that had not started before, and never otherwise.
pub proof fn lemma_run_starts_at_most_once(
    handler: LobbyHandlerView,
    addr: ClientAddr,
    events: Seq<LobbyEventView>,
)
    ensures
        countdown_starts(handler.run(addr, events).steps) == if handler.run(addr, events).result
            == Some(Ok::<LobbyAction, Error>(LobbyAction::Start)) && !handler.starting {
            1nat
        } else {
            0nat
        },
        handler.run(addr, events).result matches Some(Ok(action)) ==> action == LobbyAction::Start,
    decreases events.len(),
{
    if events.len() > 0 {
        lemma_step_starts(handler, addr, events[0]);
        let (next, result) = handler.step(addr, events[0]);
        match result {
            Err(_) => {},
            Ok(outcome) => {
                if outcome.action is None {
                    lemma_run_starts_at_most_once(next, addr, events.skip(1));
                    lemma_starts_add(outcome.steps, next.run(addr, events.skip(1)).steps);
                }
            },
        }
    }
}

/// The join counters stay within their bounds over any event.
pub proof fn lemma_step_keeps_counts(
    handler: LobbyHandlerView,
    addr: ClientAddr,
    event: LobbyEventView,
)
    requires
        handler.join.wf(),
    ensures
        handler.step(addr, event).0.join.wf(),
        handler.step(addr, event).0.join.total_players == handler.join.total_players,
{
}

/// The join counters stay within their bounds over any run of events:
/// never more profiles than players, never more than one skins message,
/// never more than one message of the fifth kind.
pub proof fn lemma_run_keeps_counts(
    handler: LobbyHandlerView,
    addr: ClientAddr,
    events: Seq<LobbyEventView>,
)
    requires
        handler.join.wf(),
    ensures
        handler.run(addr, events).handler.join.wf(),
        handler.run(addr, events).handler.join.num_profile <= handler.join.total_players,
        handler.run(addr, events).handler.join.num_skins <= 1,
        handler.run(addr, events).handler.join.num_unk5 <= 1,
    decreases events.len(),
{
    if events.len() > 0 {
        lemma_step_keeps_counts(handler, addr, events[0]);
        let (next, result) = handler.step(addr, events[0]);
        match result {
            Err(_) => {},
            Ok(outcome) => {
                if outcome.action is None {
                    lemma_run_keeps_counts(next, addr, events.skip(1));
                }
            },
        }
    }
}

/// How long a step makes the game client wait, in milliseconds, where
/// every pause lasts as long as it is set to. `notified_after` is the time
/// after which the game client is done with its countdown, or nothing
/// where it never says so.
pub open spec fn step_millis(step: LobbyStepView, notified_after: Option<nat>) -> nat {
    match step {
        LobbyStepView::Sleep { millis } => millis as nat,
        LobbyStepView::WaitCountdown { ceiling_millis } => match notified_after {
            Some(latency) => if latency < ceiling_millis {
                latency
            } else {
                ceiling_millis as nat
            },
            None => ceiling_millis as nat,
        },
        _ => 0,
    }
}

/// The time between the start and the end of the countdown in the start
/// sequence, in milliseconds.
pub open spec fn countdown_millis(handler: LobbyHandlerView, notified_after: Option<nat>) -> nat {
    let sequence = handler.start_sequence();
    step_millis(sequence[2], notified_after) + step_millis(sequence[3], notified_after)
}

/// In the start sequence the countdown starts in the second step and
/// ends in the last, with two pauses between them. They last three
/// seconds at least and nine at most: six where nothing tells when the
/// game client is done; three and the time that the game client took
/// where it tells within the ceiling; nine where it never tells.
pub proof fn lemma_countdown_timing(handler: LobbyHandlerView, notified_after: Option<nat>)
    ensures
        handler.start_sequence().len() == 5,
        handler.start_sequence()[1] == LobbyStepView::Send(seq![HostPacketView::CountDownStart]),
        handler.start_sequence()[4] == LobbyStepView::Send(seq![HostPacketView::CountDownEnd]),
        COUNTDOWN_MILLIS <= countdown_millis(handler, notified_after) <= COUNTDOWN_MILLIS
            + COUNTDOWN_NOTIFY_CEILING_MILLIS,
        !handler.countdown_notify ==> countdown_millis(handler, notified_after) == COUNTDOWN_MILLIS
            + COUNTDOWN_GRACE_MILLIS,
        handler.countdown_notify && notified_after is None ==> countdown_millis(
            handler,
            notified_after,
        ) == COUNTDOWN_MILLIS + COUNTDOWN_NOTIFY_CEILING_MILLIS,
        handler.countdown_notify && notified_after is Some && notified_after->0
            <= COUNTDOWN_NOTIFY_CEILING_MILLIS ==> countdown_millis(handler, notified_after)
            == COUNTDOWN_MILLIS + notified_after->0,
{
}

/// How often the relay node is told that the game client joined.
pub open spec fn joined_reports(steps: Seq<LobbyStepView>) -> nat
    decreases steps.len(),
{
    if steps.len() == 0 {
        0
    } else {
        joined_reports(steps.drop_last()) + if steps.last() == LobbyStepView::ReportSlotStatus(
            SlotClientStatus::Joined,
        ) {
            1nat
        } else {
            0nat
        }
    }
}

/// The reports of two lists of steps add up.
proof fn lemma_reports_add(a: Seq<LobbyStepView>, b: Seq<LobbyStepView>)
    ensures
        joined_reports(a + b) == joined_reports(a) + joined_reports(b),
    decreases b.len(),
{
    if b.len() == 0 {
        assert(a + b =~= a);
    } else {
        assert((a + b).drop_last() =~= a + b.drop_last());
        assert((a + b).last() == b.last());
        lemma_reports_add(a, b.drop_last());
    }
}

/// Steps none of which is a report.
proof fn lemma_no_report_in(steps: Seq<LobbyStepView>)
    requires
        forall|i: int|
            0 <= i < steps.len() ==> steps[i] != LobbyStepView::ReportSlotStatus(
                SlotClientStatus::Joined,
            ),
    ensures
        joined_reports(steps) == 0,
    decreases steps.len(),
{
    if steps.len() > 0 {
        lemma_no_report_in(steps.drop_last());
    }
}

/// Telling that the game client joined tells the relay node once, where
/// there is one and it has not been told.
proof fn lemma_report_steps_report_once(handler: LobbyHandlerView)
    ensures
        joined_reports(handler.report_steps()) == if !handler.reported && handler.node_stream {
            1nat
        } else {
            0nat
        },
{
    reveal_with_fuel(joined_reports, 3);
    let steps = handler.report_steps();
    if steps.len() == 2 {
        assert(steps.drop_last().drop_last() =~= Seq::empty());
    } else if steps.len() == 1 {
        assert(steps.drop_last() =~= Seq::empty());
    }
}

/// One event tells the relay node that the game client joined exactly
/// when it is the event by which the handler comes to have told, and
/// there is a relay node; once the handler has told, it stays so.
pub proof fn lemma_step_reports(handler: LobbyHandlerView, addr: ClientAddr, event: LobbyEventView)
    requires
        handler.join.is_ready() ==> handler.reported,
    ensures
        handler.reported ==> handler.step(addr, event).0.reported,
        handler.step(addr, event).0.node_stream == handler.node_stream,
        handler.step(addr, event).0.join.is_ready() ==> handler.step(addr, event).0.reported,
        handler.step(addr, event).1 matches Ok(outcome) ==> joined_reports(outcome.steps) == if
            !handler.reported && handler.step(addr, event).0.reported && handler.node_stream {
            1nat
        } else {
            0nat
        },
{
    let (next, result) = handler.step(addr, event);
    let empty = Seq::<LobbyStepView>::empty();
    assert(joined_reports(empty) == 0);
    match event {
        LobbyEventView::Packet(ClientPacketView::LeaveReq) => {},
        LobbyEventView::Packet(packet) => {
            match handler.packet_reply(addr, packet) {
                Err(_) => {},
                Ok(replies) => {
                    let answered = handler.after_packet(packet);
                    lemma_no_report_in(send_steps(replies));
                    lemma_report_steps_report_once(answered);
                    lemma_reports_add(send_steps(replies), answered.report_steps());
                    if answered.join.is_ready() {
                        let told = LobbyHandlerView { reported: true, ..answered };
                        let steps = send_steps(replies) + answered.report_steps();
                        lemma_no_report_in(told.start_steps());
                        lemma_reports_add(steps, told.start_steps());
                        if told.join.should_start() {
                            assert(result->Ok_0.steps == steps + told.start_steps());
                        } else {
                            assert(result->Ok_0.steps == steps);
                        }
                    } else {
                        assert(result->Ok_0.steps == send_steps(replies));
                    }
                },
            }
        },
        LobbyEventView::PingTick { elapsed_millis } => {
            lemma_no_report_in(result->Ok_0.steps);
        },
        LobbyEventView::StatusChanged(Some(status)) => {
            let seen = LobbyHandlerView { join: handler.join.with_status(status), ..handler };
            lemma_no_report_in(seen.start_steps());
        },
        _ => {},
    }
}

/// Over any run of events, the relay node is told at most once that the
/// game client joined: exactly once where the run brings the handler to
/// have told and there is a relay node, and never otherwise.
pub proof fn lemma_run_reports_at_most_once(
    handler: LobbyHandlerView,
    addr: ClientAddr,
    events: Seq<LobbyEventView>,
)
    requires
        handler.join.is_ready() ==> handler.reported,
    ensures
        joined_reports(handler.run(addr, events).steps) == if !handler.reported && handler.run(
            addr,
            events,
        ).handler.reported && handler.node_stream {
            1nat
        } else {
            0nat
        },
        handler.reported ==> handler.run(addr, events).handler.reported,
    decreases events.len(),
{
    if events.len() > 0 {
        lemma_step_reports(handler, addr, events[0]);
        let (next, result) = handler.step(addr, events[0]);
        match result {
            Err(_) => {},
            Ok(outcome) => {
                if outcome.action is None {
                    lemma_run_reports_at_most_once(next, addr, events.skip(1));
                    lemma_reports_add(outcome.steps, next.run(addr, events.skip(1)).steps);
                }
            },
        }
    }
}

} // verus!
