//! The lockstep of the frame task: one command is in flight at a time, and
//! what the dispatcher says in answer to it is written out, in order and in
//! full, before the next command is decoded.

use crate::command::CommandView;
use crate::frame::frame_transition;
use crate::frame::FrameActionView;
use crate::frame::FrameEventView;
use crate::frame::FramePhase;
use crate::frame::FrameView;
use vstd::prelude::*;

verus! {

/// Where the frame task stands after `events`, starting from `start`.
pub open spec fn frame_run(start: FrameView, events: Seq<FrameEventView>) -> FrameView
    decreases events.len(),
{
    if events.len() == 0 {
        start
    } else {
        frame_transition(frame_run(start, events.drop_last()), events.last()).next
    }
}

/// The actions that the frame task asks for along `events`, one for each.
pub open spec fn frame_actions(start: FrameView, events: Seq<FrameEventView>) -> Seq<
    FrameActionView,
>
    decreases events.len(),
{
    if events.len() == 0 {
        Seq::empty()
    } else {
        frame_actions(start, events.drop_last()).push(
            frame_transition(frame_run(start, events.drop_last()), events.last()).action,
        )
    }
}

/// The commands that the codec handed over while one was waited for, in the
/// order of their arrival.
pub open spec fn decoded(start: FrameView, events: Seq<FrameEventView>) -> Seq<CommandView>
    decreases events.len(),
{
    if events.len() == 0 {
        Seq::empty()
    } else {
        let before = decoded(start, events.drop_last());
        match events.last() {
            FrameEventView::Decoded(command) => if frame_run(start, events.drop_last()).phase
                == FramePhase::Decoding {
                before.push(command)
            } else {
                before
            },
            _ => before,
        }
    }
}

/// The instructions that the dispatcher gave while one was awaited, in the
/// order of their arrival.
pub open spec fn instructions(start: FrameView, events: Seq<FrameEventView>) -> Seq<
    Seq<Seq<char>>,
>
    decreases events.len(),
{
    if events.len() == 0 {
        Seq::empty()
    } else {
        let before = instructions(start, events.drop_last());
        match events.last() {
            FrameEventView::Instruction(pieces) => if frame_run(start, events.drop_last()).phase
                == FramePhase::Awaiting {
                before.push(pieces)
            } else {
                before
            },
            _ => before,
        }
    }
}

/// The pieces of `instructions`, one instruction after the other.
pub open spec fn pieces_of(instructions: Seq<Seq<Seq<char>>>) -> Seq<Seq<char>>
    decreases instructions.len(),
{
    if instructions.len() == 0 {
        Seq::empty()
    } else {
        pieces_of(instructions.drop_last()) + instructions.last()
    }
}

/// How many of `actions` decode a command.
pub open spec fn reads(actions: Seq<FrameActionView>) -> nat
    decreases actions.len(),
{
    if actions.len() == 0 {
        0
    } else {
        reads(actions.drop_last()) + if actions.last() is Decode {
            1nat
        } else {
            0nat
        }
    }
}

/// The commands that `actions` forward to the dispatcher, in order.
pub open spec fn forwarded(actions: Seq<FrameActionView>) -> Seq<CommandView>
    decreases actions.len(),
{
    if actions.len() == 0 {
        Seq::empty()
    } else {
        match actions.last() {
            FrameActionView::Forward(command) => forwarded(actions.drop_last()).push(command),
            _ => forwarded(actions.drop_last()),
        }
    }
}

/// The pieces that `actions` write to the socket, in order.
pub open spec fn written(actions: Seq<FrameActionView>) -> Seq<Seq<char>>
    decreases actions.len(),
{
    if actions.len() == 0 {
        Seq::empty()
    } else {
        match actions.last() {
            FrameActionView::Write(piece) => written(actions.drop_last()).push(piece),
            _ => written(actions.drop_last()),
        }
    }
}

/// What the frame task is handed while it carries out the instruction
/// `pieces` without a failure: the instruction, then the completion of the
/// first `written` writes.
pub open spec fn carrying_out(pieces: Seq<Seq<char>>, written: nat) -> Seq<FrameEventView> {
    seq![FrameEventView::Instruction(pieces)] + Seq::new(
        written,
        |i: int| FrameEventView::Completed,
    )
}

/// A frame task that awaits an instruction and is given `pieces` writes
/// them one by one, first to last: after `done` completed writes it has
/// asked for the first `done + 1` pieces and holds the rest.
pub proof fn lemma_pieces_in_order(start: FrameView, pieces: Seq<Seq<char>>, done: nat)
    requires
        start.phase == FramePhase::Awaiting,
        done < pieces.len(),
    ensures
        ({
            let events = carrying_out(pieces, done);
            &&& frame_run(start, events).phase == FramePhase::Writing
            &&& frame_run(start, events).queued == pieces.skip(done as int + 1)
            &&& written(frame_actions(start, events)) == pieces.take(done as int + 1)
            &&& reads(frame_actions(start, events)) == 0
        }),
    decreases done,
{
    let events = carrying_out(pieces, done);
    let before = events.drop_last();
    assert(frame_actions(start, events).drop_last() =~= frame_actions(start, before));
    if done == 0 {
        assert(before =~= Seq::<FrameEventView>::empty());
        assert(frame_run(start, before) == start);
        assert(frame_actions(start, before) =~= Seq::<FrameActionView>::empty());
        assert(written(frame_actions(start, before)) =~= Seq::<Seq<char>>::empty());
        assert(reads(frame_actions(start, before)) == 0);
        assert(events.last() == FrameEventView::Instruction(pieces));
        assert(pieces.drop_first() =~= pieces.skip(1));
        assert(Seq::<Seq<char>>::empty().push(pieces.first()) =~= pieces.take(1));
    } else {
        let fewer = (done - 1) as nat;
        assert(before =~= carrying_out(pieces, fewer));
        lemma_pieces_in_order(start, pieces, fewer);
        assert(events.last() == FrameEventView::Completed);
        let queued = pieces.skip(done as int);
        assert(queued.len() > 0);
        assert(queued.first() == pieces[done as int]);
        assert(queued.drop_first() =~= pieces.skip(done as int + 1));
        assert(pieces.take(done as int).push(pieces[done as int]) =~= pieces.take(done as int + 1));
    }
}

/// A frame task that awaits an instruction, is given `pieces` and sees
/// every write succeed writes exactly `pieces`, in their order, and then
/// decodes the next command. An instruction without pieces writes nothing
/// and leads straight to the next command.
pub proof fn lemma_instruction_is_written(start: FrameView, pieces: Seq<Seq<char>>)
    requires
        start.phase == FramePhase::Awaiting,
    ensures
        ({
            let events = carrying_out(pieces, pieces.len());
            &&& frame_run(start, events).phase == FramePhase::Decoding
            &&& written(frame_actions(start, events)) == pieces
            &&& reads(frame_actions(start, events)) == 1
            &&& frame_actions(start, events).last() == FrameActionView::Decode
        }),
{
    let events = carrying_out(pieces, pieces.len());
    let before = events.drop_last();
    assert(frame_actions(start, events).drop_last() =~= frame_actions(start, before));
    if pieces.len() == 0 {
        assert(before =~= Seq::<FrameEventView>::empty());
        assert(frame_run(start, before) == start);
        assert(frame_actions(start, before) =~= Seq::<FrameActionView>::empty());
        assert(written(frame_actions(start, before)) =~= pieces);
        assert(reads(frame_actions(start, before)) == 0);
        assert(events.last() == FrameEventView::Instruction(pieces));
    } else {
        let fewer = (pieces.len() - 1) as nat;
        assert(before =~= carrying_out(pieces, fewer));
        lemma_pieces_in_order(start, pieces, fewer);
        assert(events.last() == FrameEventView::Completed);
        assert(pieces.skip(pieces.len() as int) =~= Seq::<Seq<char>>::empty());
        assert(pieces.take(pieces.len() as int) =~= pieces);
    }
}

/// What holds of a frame task that stands at `last` after it asked for
/// `asked`, was handed the commands `commands` and was given `given`.
pub open spec fn in_lockstep(
    last: FrameView,
    asked: Seq<FrameActionView>,
    commands: Seq<CommandView>,
    given: Seq<Seq<Seq<char>>>,
) -> bool {
    &&& forwarded(asked) == commands
    &&& given.len() <= commands.len() <= reads(asked) <= given.len() + 1
    &&& written(asked).is_prefix_of(pieces_of(given))
    &&& last.phase == FramePhase::Created ==> reads(asked) == 0
    &&& last.phase == FramePhase::Decoding ==> {
        &&& commands.len() == given.len()
        &&& reads(asked) == given.len() + 1
        &&& written(asked) == pieces_of(given)
    }
    &&& last.phase == FramePhase::Forwarding || last.phase == FramePhase::Awaiting ==> {
        &&& commands.len() == given.len() + 1
        &&& reads(asked) == commands.len()
        &&& written(asked) == pieces_of(given)
    }
    &&& last.phase == FramePhase::Writing ==> {
        &&& commands.len() == given.len()
        &&& reads(asked) == commands.len()
        &&& written(asked) + last.queued == pieces_of(given)
    }
}

/// Whatever happens to a frame task from its start:
///
/// - every command that was decoded is forwarded once, in the order of
///   arrival;
/// - the pieces are written in the order of the instructions, and of each
///   instruction in its own order;
/// - a command is decoded only after every earlier command was answered by
///   one instruction and all pieces of that instruction were written;
/// - so at no time more than one command is in flight.
pub proof fn lemma_lockstep(events: Seq<FrameEventView>)
    ensures
        in_lockstep(
            frame_run(FrameView::initial(), events),
            frame_actions(FrameView::initial(), events),
            decoded(FrameView::initial(), events),
            instructions(FrameView::initial(), events),
        ),
    decreases events.len(),
{
    let start = FrameView::initial();
    if events.len() == 0 {
        assert(written(frame_actions(start, events)) =~= pieces_of(instructions(start, events)));
    } else {
        let before = events.drop_last();
        lemma_lockstep(before);
        let middle = frame_run(start, before);
        let earlier = frame_actions(start, before);
        let asked = frame_actions(start, events);
        let given = instructions(start, events);
        assert(asked.drop_last() =~= earlier);
        let old_given = instructions(start, before);
        let old_pieces = pieces_of(old_given);
        let old_written = written(earlier);
        match middle.phase {
            FramePhase::Awaiting => {
                if let FrameEventView::Instruction(pieces) = events.last() {
                    assert(given.drop_last() =~= old_given);
                    assert(pieces_of(given) == old_pieces + pieces);
                    if pieces.len() > 0 {
                        assert(old_written.push(pieces.first()) + pieces.drop_first() =~= old_pieces
                            + pieces);
                        assert(written(asked) =~= (old_pieces + pieces).subrange(
                            0,
                            written(asked).len() as int,
                        ));
                    } else {
                        assert(old_pieces + pieces =~= old_pieces);
                    }
                }
            },
            FramePhase::Writing => {
                if events.last() is Completed {
                    if middle.queued.len() > 0 {
                        assert(old_written.push(middle.queued.first()) + middle.queued.drop_first()
                            =~= old_written + middle.queued);
                        assert(written(asked) =~= pieces_of(given).subrange(
                            0,
                            written(asked).len() as int,
                        ));
                    } else {
                        assert(old_written + middle.queued =~= old_written);
                    }
                } else {
                    assert(old_written =~= (old_written + middle.queued).subrange(
                        0,
                        old_written.len() as int,
                    ));
                }
            },
            _ => {},
        }
    }
}

} // verus!
