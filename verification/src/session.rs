//! Whole sessions: what holds along every run of the dispatcher.
//!
//! A run feeds the dispatcher a sequence of events. Each input also carries
//! the challenge that is drawn if the step needs one, so that a run is a
//! function of its inputs.

use crate::challenge::is_challenge;
use crate::command::CommandView;
use crate::command::wire_text;
use crate::coordinator::end_message_text;
use crate::dispatcher::challenge_reply;
use crate::dispatcher::port_reply;
use crate::dispatcher::teardown;
use crate::dispatcher::transition;
use crate::dispatcher::ActionView;
use crate::dispatcher::DispatchPhase;
use crate::dispatcher::DispatcherView;
use crate::dispatcher::EventView;
use crate::dispatcher::FALLBACK_PORT;
use crate::dispatcher::connected_report;
use crate::state::SessionView;
use crate::text::decimal_text;
use vstd::prelude::*;

verus! {

/// One input of a run.
pub struct Input {
    pub event: EventView,
    /// The challenge at hand, should the step draw one.
    pub fresh: Seq<char>,
}

/// Where the dispatcher stands after `inputs`, starting from `start`.
pub open spec fn run(start: DispatcherView, inputs: Seq<Input>) -> DispatcherView
    decreases inputs.len(),
{
    if inputs.len() == 0 {
        start
    } else {
        transition(run(start, inputs.drop_last()), inputs.last().event, inputs.last().fresh).next
    }
}

/// The actions that the dispatcher asks for along `inputs`, one for each.
pub open spec fn actions(start: DispatcherView, inputs: Seq<Input>) -> Seq<ActionView>
    decreases inputs.len(),
{
    if inputs.len() == 0 {
        Seq::empty()
    } else {
        actions(start, inputs.drop_last()).push(
            transition(run(start, inputs.drop_last()), inputs.last().event, inputs.last().fresh).action,
        )
    }
}

/// Whether a step from `pre` on `event` draws a challenge.
pub open spec fn draws(pre: DispatcherView, event: EventView) -> bool {
    &&& pre.phase == DispatchPhase::Receiving
    &&& event == EventView::Command(CommandView::HMAC)
    &&& pre.state.hmac_payload is None
}

/// How many steps of the run draw a challenge.
pub open spec fn draw_count(start: DispatcherView, inputs: Seq<Input>) -> nat
    decreases inputs.len(),
{
    if inputs.len() == 0 {
        0
    } else {
        draw_count(start, inputs.drop_last()) + if draws(
            run(start, inputs.drop_last()),
            inputs.last().event,
        ) {
            1nat
        } else {
            0nat
        }
    }
}

/// How many of `actions` announce the start of a stream.
pub open spec fn start_announcements(actions: Seq<ActionView>) -> nat
    decreases actions.len(),
{
    if actions.len() == 0 {
        0
    } else {
        start_announcements(actions.drop_last()) + if actions.last() is AnnounceStart {
            1nat
        } else {
            0nat
        }
    }
}

/// How many of `actions` announce the end of a stream.
pub open spec fn end_announcements(actions: Seq<ActionView>) -> nat
    decreases actions.len(),
{
    if actions.len() == 0 {
        0
    } else {
        end_announcements(actions.drop_last()) + if actions.last() is AnnounceEnd {
            1nat
        } else {
            0nat
        }
    }
}

/// How many of `actions` give a port back.
pub open spec fn releases(actions: Seq<ActionView>) -> nat
    decreases actions.len(),
{
    if actions.len() == 0 {
        0
    } else {
        releases(actions.drop_last()) + if actions.last() is Release {
            1nat
        } else {
            0nat
        }
    }
}

/// How many of `actions` hand an instruction to the frame task.
pub open spec fn answers(actions: Seq<ActionView>) -> nat
    decreases actions.len(),
{
    if actions.len() == 0 {
        0
    } else {
        answers(actions.drop_last()) + if actions.last() is Reply {
            1nat
        } else {
            0nat
        }
    }
}

/// How many of `actions` wait for a command.
pub open spec fn receptions(actions: Seq<ActionView>) -> nat
    decreases actions.len(),
{
    if actions.len() == 0 {
        0
    } else {
        receptions(actions.drop_last()) + if actions.last() is Receive {
            1nat
        } else {
            0nat
        }
    }
}

/// Whether a step from `pre` on `event` takes a command that is owed an
/// answer: any command but a disconnect, arriving while one is waited for.
pub open spec fn takes(pre: DispatcherView, event: EventView) -> bool {
    &&& pre.phase == DispatchPhase::Receiving
    &&& event matches EventView::Command(command)
    &&& !(command is Disconnect)
}

/// How many steps of the run take a command that is owed an answer.
pub open spec fn taken(start: DispatcherView, inputs: Seq<Input>) -> nat
    decreases inputs.len(),
{
    if inputs.len() == 0 {
        0
    } else {
        taken(start, inputs.drop_last()) + if takes(
            run(start, inputs.drop_last()),
            inputs.last().event,
        ) {
            1nat
        } else {
            0nat
        }
    }
}

/// Whether the session is still being served: the cleanup has not begun.
pub open spec fn serving(phase: DispatchPhase) -> bool {
    phase != DispatchPhase::Closing && phase != DispatchPhase::Releasing && phase
        != DispatchPhase::Terminated
}

/// Whether `action`, if it belongs to the cleanup, fits a session that stands
/// at `last`: the cleanup has begun, and the action speaks of the stream key
/// or the port that the session holds.
pub open spec fn cleans_up(action: ActionView, last: DispatcherView) -> bool {
    match action {
        ActionView::AnnounceEnd { message } => {
            &&& !serving(last.phase)
            &&& last.state.stream_key is Some
            &&& message == end_message_text(last.state.stream_key->Some_0)
        },
        ActionView::Release { port } => {
            &&& !serving(last.phase)
            &&& last.state.rtp_port == Some(port)
        },
        _ => true,
    }
}

/// A step that draws no challenge does the same whatever challenge is at
/// hand.
pub proof fn lemma_challenge_used_only_when_drawn(
    pre: DispatcherView,
    event: EventView,
    one: Seq<char>,
    other: Seq<char>,
)
    requires
        !draws(pre, event),
    ensures
        transition(pre, event, one) == transition(pre, event, other),
{
}

/// A step that draws a challenge stores it and sends it.
pub proof fn lemma_drawn_challenge_is_sent(pre: DispatcherView, event: EventView, fresh: Seq<char>)
    requires
        draws(pre, event),
    ensures
        transition(pre, event, fresh).next.state.hmac_payload == Some(fresh),
        transition(pre, event, fresh).action == (ActionView::Reply {
            pieces: seq!["200 "@, fresh, "\n"@],
            rejected: None,
        }),
{
}

/// Once a challenge is set, no step changes it.
pub proof fn lemma_challenge_kept(start: DispatcherView, inputs: Seq<Input>)
    requires
        start.state.hmac_payload is Some,
    ensures
        run(start, inputs).state.hmac_payload == start.state.hmac_payload,
    decreases inputs.len(),
{
    if inputs.len() > 0 {
        lemma_challenge_kept(start, inputs.drop_last());
    }
}

/// A session draws at most one challenge, and none if it starts with one.
pub proof fn lemma_challenge_drawn_once(start: DispatcherView, inputs: Seq<Input>)
    ensures
        draw_count(start, inputs) <= 1,
        start.state.hmac_payload is Some ==> draw_count(start, inputs) == 0,
        draw_count(start, inputs) == 1 ==> run(start, inputs).state.hmac_payload is Some,
    decreases inputs.len(),
{
    if inputs.len() > 0 {
        lemma_challenge_drawn_once(start, inputs.drop_last());
        if start.state.hmac_payload is Some {
            lemma_challenge_kept(start, inputs.drop_last());
        }
    }
}

/// In a session that starts without a challenge and is handed challenges
/// only, whatever is stored as the challenge is one.
pub proof fn lemma_stored_challenge_is_one(start: DispatcherView, inputs: Seq<Input>)
    requires
        start.state.hmac_payload is None,
        forall|i: int| 0 <= i < inputs.len() ==> is_challenge(#[trigger] inputs[i].fresh),
    ensures
        run(start, inputs).state.hmac_payload matches Some(payload) ==> is_challenge(payload),
    decreases inputs.len(),
{
    if inputs.len() > 0 {
        let before = inputs.drop_last();
        assert forall|i: int| 0 <= i < before.len() implies is_challenge(
            #[trigger] before[i].fresh,
        ) by {
            assert(before[i] == inputs[i]);
        }
        lemma_stored_challenge_is_one(start, before);
        assert(is_challenge(inputs[inputs.len() - 1].fresh));
    }
}

/// Once a stream key is set, no step changes it.
pub proof fn lemma_stream_key_kept(start: DispatcherView, inputs: Seq<Input>)
    requires
        start.state.stream_key is Some,
    ensures
        run(start, inputs).state.stream_key == start.state.stream_key,
    decreases inputs.len(),
{
    if inputs.len() > 0 {
        lemma_stream_key_kept(start, inputs.drop_last());
    }
}

/// A session announces the start of a stream at most once, and not at all
/// if it starts with a stream key. Once it has announced one, it holds a
/// stream key.
pub proof fn lemma_start_announced_once(start: DispatcherView, inputs: Seq<Input>)
    ensures
        start_announcements(actions(start, inputs)) <= 1,
        start.state.stream_key is Some ==> start_announcements(actions(start, inputs)) == 0,
        start_announcements(actions(start, inputs)) == 1 ==> run(
            start,
            inputs,
        ).state.stream_key is Some,
    decreases inputs.len(),
{
    if inputs.len() > 0 {
        let before = inputs.drop_last();
        lemma_start_announced_once(start, before);
        if start.state.stream_key is Some {
            lemma_stream_key_kept(start, before);
        }
        assert(actions(start, inputs).drop_last() =~= actions(start, before));
    }
}

/// Once a media port is assigned, no step changes it: not another end of
/// negotiation, not another answer of the allocation service.
pub proof fn lemma_port_kept(start: DispatcherView, inputs: Seq<Input>)
    requires
        start.state.rtp_port is Some,
    ensures
        run(start, inputs).state.rtp_port == start.state.rtp_port,
    decreases inputs.len(),
{
    if inputs.len() > 0 {
        lemma_port_kept(start, inputs.drop_last());
    }
}

/// Ending the negotiation again names the port that was assigned, without
/// asking the allocation service.
pub proof fn lemma_port_named_again(pre: DispatcherView, fresh: Seq<char>)
    requires
        pre.phase == DispatchPhase::Receiving,
        pre.state.rtp_port is Some,
    ensures
        transition(pre, EventView::Command(CommandView::Dot), fresh).action == (ActionView::Reply {
            pieces: port_reply(pre.state.rtp_port->Some_0),
            rejected: None,
        }),
        transition(pre, EventView::Command(CommandView::Dot), fresh).next.state == pre.state,
{
}

/// The text that names the fallback port.
pub proof fn lemma_fallback_reply()
    ensures
        port_reply(FALLBACK_PORT) == seq!["200 hi. Use UDP port 65535\n"@],
{
    reveal_with_fuel(decimal_text, 5);
    reveal_strlit("200 hi. Use UDP port ");
    reveal_strlit("\n");
    reveal_strlit("200 hi. Use UDP port 65535\n");
    let digits = decimal_text(FALLBACK_PORT as nat);
    assert(digits =~= seq!['6', '5', '5', '3', '5']);
    assert("200 hi. Use UDP port "@ + digits + "\n"@ =~= "200 hi. Use UDP port 65535\n"@);
}

/// The pieces of the reply to an authentication request spell `200`, a
/// blank, the challenge and a line feed.
pub proof fn lemma_challenge_reply_text(payload: Seq<char>)
    ensures
        wire_text(challenge_reply(payload)) == "200 "@ + payload + "\n"@,
{
    let pieces = challenge_reply(payload);
    reveal_with_fuel(wire_text, 4);
    assert(pieces.drop_last() =~= seq!["200 "@, payload]);
    assert(pieces.drop_last().drop_last() =~= seq!["200 "@]);
    assert(pieces.drop_last().drop_last().drop_last() =~= Seq::<Seq<char>>::empty());
    assert(wire_text(pieces) =~= "200 "@ + payload + "\n"@);
}

/// Where the allocation service grants nothing, the peer is still answered,
/// with the fallback port, and no port is stored.
pub proof fn lemma_allocation_failure_is_answered(
    pre: DispatcherView,
    event: EventView,
    fresh: Seq<char>,
)
    requires
        pre.phase == DispatchPhase::Allocating,
        pre.state.rtp_port is None,
        !(event matches EventView::Allocated(Some(_))),
    ensures
        transition(pre, event, fresh).action == (ActionView::Reply {
            pieces: seq!["200 hi. Use UDP port 65535\n"@],
            rejected: None,
        }),
        transition(pre, event, fresh).next.state == pre.state,
{
    lemma_fallback_reply();
}

/// A command that is turned down changes nothing and is answered by an
/// instruction without pieces. Once that instruction is delivered, the next
/// command is waited for.
pub proof fn lemma_rejection_is_answered(
    pre: DispatcherView,
    command: CommandView,
    fresh: Seq<char>,
    next_fresh: Seq<char>,
)
    requires
        pre.phase == DispatchPhase::Receiving,
        transition(pre, EventView::Command(command), fresh).action matches ActionView::Reply {
            rejected: Some(_),
            ..
        },
    ensures
        ({
            let first = transition(pre, EventView::Command(command), fresh);
            let second = transition(first.next, EventView::Completed, next_fresh);
            &&& first.action->Reply_pieces == Seq::<Seq<char>>::empty()
            &&& first.next.state == pre.state
            &&& second.next == (DispatcherView { state: pre.state, phase: DispatchPhase::Receiving })
            &&& second.action == (ActionView::Receive { report: Seq::empty() })
        }),
{
}

/// What comes back when `action` is carried out without a failure, the
/// allocation service answering with `granted`.
pub open spec fn carried_out(action: ActionView, granted: Option<u16>) -> EventView {
    match action {
        ActionView::Allocate => EventView::Allocated(granted),
        _ => EventView::Completed,
    }
}

/// One exchange, where nothing fails: a command other than a disconnect is
/// answered by exactly one instruction, at once or after the one outside
/// call that the command needs, and when the instruction is delivered the
/// next command is waited for, in the state that the command left.
pub proof fn lemma_exchange(
    pre: DispatcherView,
    command: CommandView,
    fresh: Seq<char>,
    granted: Option<u16>,
)
    requires
        pre.phase == DispatchPhase::Receiving,
        !(command is Disconnect),
    ensures
        ({
            let first = transition(pre, EventView::Command(command), fresh);
            let answer = if first.action is Reply {
                first
            } else {
                transition(first.next, carried_out(first.action, granted), fresh)
            };
            let last = transition(answer.next, EventView::Completed, fresh);
            &&& first.action is Reply || first.action is AnnounceStart || first.action is Allocate
            &&& answer.action is Reply
            &&& last.action is Receive
            &&& last.next == (DispatcherView {
                state: answer.next.state,
                phase: DispatchPhase::Receiving,
            })
        }),
{
}

/// In a session that is run from its creation, every command but a
/// disconnect is answered by exactly one instruction, and a command is
/// waited for only after every earlier one was answered:
///
/// - there are never more instructions than commands taken, and at most one
///   command is still owed its instruction;
/// - whenever a command is waited for, every command taken has had its
///   instruction, and the dispatcher has waited once more often than it has
///   answered.
pub proof fn lemma_one_answer_per_command(start: DispatcherView, inputs: Seq<Input>)
    requires
        start.phase == DispatchPhase::Created,
    ensures
        ({
            let last = run(start, inputs);
            let asked = actions(start, inputs);
            let commands = taken(start, inputs);
            &&& answers(asked) <= commands <= answers(asked) + 1
            &&& receptions(asked) <= answers(asked) + 1
            &&& last.phase == DispatchPhase::Created ==> commands == 0 && receptions(asked) == 0
            &&& last.phase == DispatchPhase::Receiving ==> {
                &&& commands == answers(asked)
                &&& receptions(asked) == answers(asked) + 1
            }
            &&& last.phase == DispatchPhase::Announcing || last.phase == DispatchPhase::Allocating
                ==> {
                &&& commands == answers(asked) + 1
                &&& receptions(asked) == commands
            }
            &&& last.phase == DispatchPhase::Replying || last.phase == DispatchPhase::Naming ==> {
                &&& commands == answers(asked)
                &&& receptions(asked) == answers(asked)
            }
        }),
    decreases inputs.len(),
{
    if inputs.len() > 0 {
        let before = inputs.drop_last();
        lemma_one_answer_per_command(start, before);
        assert(actions(start, inputs).drop_last() =~= actions(start, before));
    }
}

/// The port that a session names to the peer: its own, or the fallback
/// where it has none.
pub open spec fn named_port(state: SessionView) -> u16 {
    match state.rtp_port {
        Some(port) => port,
        None => FALLBACK_PORT,
    }
}

/// That the peer is connected, and the snapshot of the session, are logged
/// when the reply that names the media port has reached the frame task, and
/// at no other time.
pub proof fn lemma_snapshot_follows_the_port(pre: DispatcherView, event: EventView, fresh: Seq<char>)
    ensures
        transition(pre, event, fresh).action is Receive ==> transition(
            pre,
            event,
            fresh,
        ).action->report == if pre.phase == DispatchPhase::Naming {
            connected_report(pre.state)
        } else {
            Seq::empty()
        },
        transition(pre, event, fresh).next.phase == DispatchPhase::Naming ==> transition(
            pre,
            event,
            fresh,
        ).action == (ActionView::Reply {
            pieces: port_reply(named_port(transition(pre, event, fresh).next.state)),
            rejected: None,
        }),
{
}

/// The cleanup never changes the session state, and once it has begun the
/// session is never served again.
pub proof fn lemma_cleanup_is_final(start: DispatcherView, inputs: Seq<Input>)
    requires
        !serving(start.phase),
    ensures
        run(start, inputs).state == start.state,
        !serving(run(start, inputs).phase),
        forall|i: int|
            0 <= i < inputs.len() ==> !(#[trigger] actions(start, inputs)[i] is Reply) && !(actions(
                start,
                inputs,
            )[i] is Receive),
    decreases inputs.len(),
{
    if inputs.len() > 0 {
        lemma_cleanup_is_final(start, inputs.drop_last());
        lemma_actions_len(start, inputs.drop_last());
    }
}

/// A run asks for one action per input.
pub proof fn lemma_actions_len(start: DispatcherView, inputs: Seq<Input>)
    ensures
        actions(start, inputs).len() == inputs.len(),
    decreases inputs.len(),
{
    if inputs.len() > 0 {
        lemma_actions_len(start, inputs.drop_last());
    }
}

/// Whatever happens to a session that is being served, the end of its stream
/// is announced at most once and its port is given back at most once, both
/// only once the cleanup has begun, and both speak of the stream key and the
/// port that the session holds. When the session is over, the end was
/// announced exactly if a stream was named and a port was given back exactly
/// if one was assigned.
pub proof fn lemma_cleanup_once(start: DispatcherView, inputs: Seq<Input>)
    requires
        serving(start.phase),
    ensures
        ({
            let last = run(start, inputs);
            let asked = actions(start, inputs);
            &&& end_announcements(asked) <= 1
            &&& releases(asked) <= 1
            &&& forall|i: int| 0 <= i < asked.len() ==> cleans_up(#[trigger] asked[i], last)
            &&& serving(last.phase) ==> end_announcements(asked) == 0 && releases(asked) == 0
            &&& last.phase == DispatchPhase::Closing ==> {
                &&& end_announcements(asked) == 1
                &&& releases(asked) == 0
            }
            &&& last.phase == DispatchPhase::Releasing ==> {
                &&& (end_announcements(asked) == 1 <==> last.state.stream_key is Some)
                &&& releases(asked) == 1
            }
            &&& last.phase == DispatchPhase::Terminated ==> {
                &&& (end_announcements(asked) == 1 <==> last.state.stream_key is Some)
                &&& (releases(asked) == 1 <==> last.state.rtp_port is Some)
            }
        }),
    decreases inputs.len(),
{
    if inputs.len() > 0 {
        let before = inputs.drop_last();
        lemma_cleanup_once(start, before);
        lemma_actions_len(start, before);
        let middle = run(start, before);
        let earlier = actions(start, before);
        let last = run(start, inputs);
        let asked = actions(start, inputs);
        assert(asked.drop_last() =~= earlier);
        assert(!serving(middle.phase) ==> last.state == middle.state && !serving(last.phase));
        assert forall|i: int| 0 <= i < asked.len() implies cleans_up(#[trigger] asked[i], last) by {
            if i < earlier.len() {
                assert(asked[i] == earlier[i]);
                assert(cleans_up(earlier[i], middle));
            }
        }
    }
}

/// A disconnect of a session with a named stream and an assigned port: the
/// end of that stream is announced, then that port is given back, then the
/// task stops. Nothing that arrives afterwards changes the state, is
/// answered, or causes another announcement or release.
pub proof fn lemma_disconnect(pre: DispatcherView, rest: Seq<Input>, fresh: Seq<char>)
    requires
        pre.phase == DispatchPhase::Receiving,
        pre.state.stream_key is Some,
        pre.state.rtp_port is Some,
    ensures
        ({
            let first = transition(pre, EventView::Command(CommandView::Disconnect), fresh);
            let asked = actions(first.next, rest);
            &&& first.action == ActionView::AnnounceEnd {
                message: end_message_text(pre.state.stream_key->Some_0),
            }
            &&& first.next.state == pre.state
            &&& run(first.next, rest).state == pre.state
            &&& asked.len() == rest.len()
            &&& rest.len() >= 1 ==> asked[0] == ActionView::Release {
                port: pre.state.rtp_port->Some_0,
            }
            &&& forall|i: int| 1 <= i < asked.len() ==> #[trigger] asked[i] == ActionView::Stop
            &&& end_announcements(asked) == 0
            &&& releases(asked) == if rest.len() >= 1 {
                1nat
            } else {
                0nat
            }
        }),
{
    let first = transition(pre, EventView::Command(CommandView::Disconnect), fresh);
    assert(first == teardown(pre.state));
    lemma_closing(first.next, rest);
}

/// Along the cleanup of a session with an assigned port: the port is given
/// back at the first step, and every later step only stops.
proof fn lemma_closing(start: DispatcherView, inputs: Seq<Input>)
    requires
        start.phase == DispatchPhase::Closing,
        start.state.rtp_port is Some,
    ensures
        ({
            let asked = actions(start, inputs);
            &&& run(start, inputs).state == start.state
            &&& run(start, inputs).phase == if inputs.len() == 0 {
                DispatchPhase::Closing
            } else if inputs.len() == 1 {
                DispatchPhase::Releasing
            } else {
                DispatchPhase::Terminated
            }
            &&& asked.len() == inputs.len()
            &&& inputs.len() >= 1 ==> asked[0] == ActionView::Release {
                port: start.state.rtp_port->Some_0,
            }
            &&& forall|i: int| 1 <= i < asked.len() ==> #[trigger] asked[i] == ActionView::Stop
            &&& end_announcements(asked) == 0
            &&& releases(asked) == if inputs.len() >= 1 {
                1nat
            } else {
                0nat
            }
        }),
    decreases inputs.len(),
{
    if inputs.len() > 0 {
        let before = inputs.drop_last();
        lemma_closing(start, before);
        assert(actions(start, inputs).drop_last() =~= actions(start, before));
    }
}

} // verus!
