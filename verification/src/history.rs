//! What holds of every run of the orchestrator, whatever the driver answers.
//!
//! A run is followed through a sequence of events: [`state_after`] is the state that it
//! ends in, [`actions_of`] the actions that it handed out on the way. The lemmas here say
//! what such a history can and cannot hold.

use vstd::prelude::*;
use crate::error::ErrorKind;
use crate::orchestrator::{
    abort, assembly, first_state, next, ActionView, EventView, RunError, RunState, FIRST_BATCH,
    MAX_IMAGES,
};

verus! {

/// The state of a run that began in `s` and was answered with `events` in turn.
pub open spec fn state_after(s: RunState, events: Seq<EventView>) -> RunState
    decreases events.len(),
{
    if events.len() == 0 {
        s
    } else {
        next(state_after(s, events.drop_last()), events.last()).0
    }
}

/// The actions that a run handed out which began in `s` and was answered with `events`
/// in turn: one for each event.
pub open spec fn actions_of(s: RunState, events: Seq<EventView>) -> Seq<ActionView>
    decreases events.len(),
{
    if events.len() == 0 {
        Seq::empty()
    } else {
        actions_of(s, events.drop_last()).push(
            next(state_after(s, events.drop_last()), events.last()).1,
        )
    }
}

/// How many of the actions create a set.
pub open spec fn creations(actions: Seq<ActionView>) -> nat
    decreases actions.len(),
{
    if actions.len() == 0 {
        0
    } else {
        creations(actions.drop_last()) + if actions.last() is CreateSet {
            1nat
        } else {
            0nat
        }
    }
}

/// How many of the actions add a sticker to a set.
pub open spec fn additions(actions: Seq<ActionView>) -> nat
    decreases actions.len(),
{
    if actions.len() == 0 {
        0
    } else {
        additions(actions.drop_last()) + if actions.last() is AddSticker {
            1nat
        } else {
            0nat
        }
    }
}

/// Whether the run has not asked for the set to be created yet and still may.
pub open spec fn before_creation(s: RunState) -> bool {
    s.phase is Validating || (s.phase is InitialBatch && !(s.pending is Creation))
}

/// Every image is announced before it is made into a sticker, and made into a sticker
/// before it is added: an addition follows the image's processing, which follows its
/// progress notice.
pub open spec fn in_order(actions: Seq<ActionView>) -> bool {
    &&& forall|k: int|
        0 <= k < actions.len() && #[trigger] actions[k] is Process ==> k >= 1 && actions[k
            - 1] is Progress
    &&& forall|k: int|
        0 <= k < actions.len() && #[trigger] actions[k] is AddSticker ==> k >= 2 && actions[k
            - 1] is Process && actions[k - 2] is Progress
}

/// No set is created without a sticker or with more than the first batch holds.
pub open spec fn batches_bounded(actions: Seq<ActionView>) -> bool {
    forall|k: int|
        0 <= k < actions.len() && #[trigger] actions[k] is CreateSet ==> 1
            <= actions[k]->stickers.len() <= FIRST_BATCH
}

/// How the state of a run and the actions that it has handed out so far hang together.
pub open spec fn agrees(s: RunState, history: Seq<ActionView>) -> bool {
    &&& s.valid()
    &&& creations(history) <= 1
    &&& in_order(history)
    &&& batches_bounded(history)
    &&& before_creation(s) ==> creations(history) == 0 && additions(history) == 0
    &&& s.phase is InitialBatch && s.pending is Creation ==> creations(history) == 1
        && additions(history) == 0
    &&& s.phase is IncrementalBatch ==> creations(history) == 1 && additions(history)
        == s.processed - FIRST_BATCH
    &&& s.phase is Complete ==> creations(history) == 1 && additions(history) == s.paths.len()
        - s.first_batch()
    &&& s.pending is Progress ==> history.len() >= 1 && history.last() is Progress
    &&& s.pending is Sticker ==> history.len() >= 2 && history.last() is Process
        && history[history.len() - 2] is Progress
}

/// One more action in a history.
proof fn lemma_counts_push(history: Seq<ActionView>, action: ActionView)
    ensures
        creations(history.push(action)) == creations(history) + if action is CreateSet {
            1nat
        } else {
            0nat
        },
        additions(history.push(action)) == additions(history) + if action is AddSticker {
            1nat
        } else {
            0nat
        },
{
    assert(history.push(action).drop_last() =~= history);
}

/// A step keeps state and history together.
pub proof fn lemma_step_agrees(s: RunState, history: Seq<ActionView>, e: EventView)
    requires
        agrees(s, history),
    ensures
        agrees(next(s, e).0, history.push(next(s, e).1)),
{
    lemma_counts_push(history, next(s, e).1);
}

/// Whatever the driver answers, state and history stay together.
pub proof fn lemma_history_agrees(s: RunState, history: Seq<ActionView>, events: Seq<EventView>)
    requires
        agrees(s, history),
    ensures
        agrees(state_after(s, events), history + actions_of(s, events)),
    decreases events.len(),
{
    if events.len() > 0 {
        let head = events.drop_last();
        lemma_history_agrees(s, history, head);
        let before = state_after(s, head);
        lemma_step_agrees(before, history + actions_of(s, head), events.last());
        assert(history + actions_of(s, events) =~= (history + actions_of(s, head)).push(
            next(before, events.last()).1,
        ));
    }
}

/// Whatever the driver answers in a run for a board: the set is created at most once,
/// with at least one sticker and at most the first batch; every image is announced
/// before it is processed and processed before it is added. A run that completes has
/// created the set exactly once and has added one sticker for each image beyond the
/// first batch, so none at all for a board that fits the first batch.
pub proof fn lemma_one_creation(events: Seq<EventView>)
    ensures
        ({
            let end = state_after(first_state(), events);
            let history = actions_of(first_state(), events);
            &&& end.valid()
            &&& creations(history) <= 1
            &&& batches_bounded(history)
            &&& in_order(history)
            &&& end.phase is Complete ==> creations(history) == 1 && additions(history)
                == if end.paths.len() > FIRST_BATCH {
                end.paths.len() - FIRST_BATCH
            } else {
                0
            }
        }),
{
    let none = Seq::<ActionView>::empty();
    lemma_history_agrees(first_state(), none, events);
}

/// The same holds of the assembly of a set out of images that are staged already,
/// counted from its first action on: the set is created at most once, with at least one
/// sticker and at most the first batch, every image is announced, processed and added
/// in this order, and a run that completes has created the set exactly once and added
/// one sticker for each image beyond the first batch.
pub proof fn lemma_one_creation_in_assembly(
    set_name: Seq<char>,
    paths: Seq<Seq<char>>,
    events: Seq<EventView>,
)
    ensures
        ({
            let begun = assembly(set_name, paths);
            let end = state_after(begun.0, events);
            let history = seq![begun.1] + actions_of(begun.0, events);
            &&& end.valid()
            &&& creations(history) <= 1
            &&& batches_bounded(history)
            &&& in_order(history)
            &&& end.phase is Complete ==> creations(history) == 1 && additions(history)
                == if paths.len() > FIRST_BATCH {
                paths.len() - FIRST_BATCH
            } else {
                0
            }
        }),
{
    let begun = assembly(set_name, paths);
    let first = seq![begun.1];
    assert(creations(first.drop_last()) == 0);
    assert(additions(first.drop_last()) == 0);
    lemma_history_agrees(begun.0, first, events);
    lemma_paths_stay(begun.0, events);
}

/// Once the images of a board are listed, no step changes the list or the set's name.
pub proof fn lemma_paths_stay(s: RunState, events: Seq<EventView>)
    requires
        s.valid(),
        !(s.phase is Validating),
    ensures
        state_after(s, events).paths == s.paths,
        state_after(s, events).set_name == s.set_name,
        !(state_after(s, events).phase is Validating),
    decreases events.len(),
{
    if events.len() > 0 {
        lemma_paths_stay(s, events.drop_last());
        lemma_history_valid(s, events.drop_last());
    }
}

/// Every set that the actions create is created with `size` stickers.
pub open spec fn batches_of(actions: Seq<ActionView>, size: nat) -> bool {
    forall|k: int|
        0 <= k < actions.len() && #[trigger] actions[k] is CreateSet ==> actions[k]->stickers.len()
            == size
}

/// How state and history hang together as long as no image has failed.
pub open spec fn unfailing(s: RunState, history: Seq<ActionView>) -> bool {
    &&& s.valid()
    &&& batches_of(history, s.first_batch())
    &&& before_creation(s) ==> forall|k: int|
        0 <= k < history.len() ==> !(#[trigger] history[k] is CreateSet)
    &&& s.phase is InitialBatch && !(s.pending is Creation) ==> s.batch.len() == s.processed
}

/// A step on which no image fails keeps state and history together.
proof fn lemma_step_unfailing(s: RunState, history: Seq<ActionView>, e: EventView)
    requires
        unfailing(s, history),
        !(e is ImageFailed),
    ensures
        unfailing(next(s, e).0, history.push(next(s, e).1)),
{
}

/// In a run for a board in which no image fails, the set is created with the whole first
/// batch: every image of the board, up to fifty.
pub proof fn lemma_unfailing_batch_is_whole(events: Seq<EventView>)
    requires
        forall|i: int| 0 <= i < events.len() ==> !(#[trigger] events[i] is ImageFailed),
    ensures
        unfailing(state_after(first_state(), events), actions_of(first_state(), events)),
        batches_of(
            actions_of(first_state(), events),
            state_after(first_state(), events).first_batch(),
        ),
    decreases events.len(),
{
    if events.len() > 0 {
        let head = events.drop_last();
        lemma_unfailing_batch_is_whole(head);
        lemma_step_unfailing(
            state_after(first_state(), head),
            actions_of(first_state(), head),
            events.last(),
        );
    }
}

/// How many of the actions make an image into a sticker.
pub open spec fn processings(actions: Seq<ActionView>) -> nat
    decreases actions.len(),
{
    if actions.len() == 0 {
        0
    } else {
        processings(actions.drop_last()) + if actions.last() is Process {
            1nat
        } else {
            0nat
        }
    }
}

/// The images are taken in their order, none twice and none left out: the first image
/// that is processed is the first of the board, and each one after it is the next.
pub open spec fn images_in_turn(actions: Seq<ActionView>, paths: Seq<Seq<char>>) -> bool {
    forall|k: int|
        0 <= k < actions.len() && #[trigger] actions[k] is Process ==> {
            let index = actions[k]->index;
            &&& index == processings(actions.take(k))
            &&& index < paths.len()
            &&& actions[k]->path == paths[index as int]
        }
}

/// How the state of a run and the images that it has asked for so far hang together.
pub open spec fn in_turn(s: RunState, history: Seq<ActionView>) -> bool {
    &&& s.valid()
    &&& images_in_turn(history, s.paths)
    &&& s.phase is Validating ==> processings(history) == 0
    &&& !s.ended() ==> processings(history) == s.processed + if s.pending is Sticker {
        1nat
    } else {
        0nat
    }
    &&& s.phase is Complete ==> processings(history) == s.paths.len()
}

/// A step keeps the images in turn.
proof fn lemma_step_in_turn(s: RunState, history: Seq<ActionView>, e: EventView)
    requires
        in_turn(s, history),
    ensures
        in_turn(next(s, e).0, history.push(next(s, e).1)),
{
    let after = next(s, e).0;
    let longer = history.push(next(s, e).1);
    assert(longer.drop_last() =~= history);
    assert forall|k: int| 0 <= k < longer.len() && #[trigger] longer[k] is Process implies ({
        let index = longer[k]->index;
        &&& index == processings(longer.take(k))
        &&& index < after.paths.len()
        &&& longer[k]->path == after.paths[index as int]
    }) by {
        if k < history.len() {
            assert(longer.take(k) =~= history.take(k));
            assert(longer[k] == history[k]);
        } else {
            assert(longer.take(k) =~= history);
        }
    }
}

/// Whatever the driver answers in a run for a board, the images are made into stickers
/// in the order in which they were listed, each one once: the image that is processed
/// after `n` others is the one at position `n`. A run that completes has processed every
/// image of the board.
pub proof fn lemma_images_in_turn(events: Seq<EventView>)
    ensures
        in_turn(state_after(first_state(), events), actions_of(first_state(), events)),
        images_in_turn(
            actions_of(first_state(), events),
            state_after(first_state(), events).paths,
        ),
    decreases events.len(),
{
    if events.len() > 0 {
        let head = events.drop_last();
        lemma_images_in_turn(head);
        lemma_step_in_turn(
            state_after(first_state(), head),
            actions_of(first_state(), head),
            events.last(),
        );
    }
}

/// A run that is over hands out nothing but `Idle`, and stays as it is.
pub proof fn lemma_ended_run_is_idle(s: RunState, events: Seq<EventView>)
    requires
        s.ended(),
    ensures
        state_after(s, events) == s,
        actions_of(s, events).len() == events.len(),
        forall|k: int| 0 <= k < events.len() ==> #[trigger] actions_of(s, events)[k] is Idle,
    decreases events.len(),
{
    if events.len() > 0 {
        lemma_ended_run_is_idle(s, events.drop_last());
    }
}

/// Following a run through one event and then through more.
pub proof fn lemma_after_first(s: RunState, first: EventView, rest: Seq<EventView>)
    ensures
        state_after(s, seq![first] + rest) == state_after(next(s, first).0, rest),
        actions_of(s, seq![first] + rest) == seq![next(s, first).1] + actions_of(
            next(s, first).0,
            rest,
        ),
    decreases rest.len(),
{
    let all = seq![first] + rest;
    if rest.len() == 0 {
        let none = Seq::<EventView>::empty();
        assert(all.drop_last() =~= none);
        assert(state_after(s, none) == s);
        assert(actions_of(s, none) =~= Seq::<ActionView>::empty());
        assert(seq![next(s, first).1] + actions_of(next(s, first).0, rest) =~= seq![
            next(s, first).1,
        ]);
    } else {
        lemma_after_first(s, first, rest.drop_last());
        assert(all.drop_last() =~= seq![first] + rest.drop_last());
        assert(actions_of(s, all) =~= seq![next(s, first).1] + actions_of(
            next(s, first).0,
            rest,
        ));
    }
}

/// A board that reports more images than the ceiling allows is refused at once, and the
/// run asks for nothing after that: no download, no listing, no image, no call to the
/// platform, whatever the driver goes on to answer.
pub proof fn lemma_oversized_board_is_refused(count: nat, rest: Seq<EventView>)
    requires
        count > MAX_IMAGES,
    ensures
        ({
            let events = seq![EventView::Counted(count)] + rest;
            let history = actions_of(first_state(), events);
            &&& history.len() == events.len()
            &&& history[0] is Reject
            &&& forall|k: int| 1 <= k < history.len() ==> #[trigger] history[k] is Idle
            &&& state_after(first_state(), events).phase is Failed
            &&& state_after(first_state(), events).error == Some(RunError::TooManyImages)
            &&& !state_after(first_state(), events).staged
        }),
{
    let first = EventView::Counted(count);
    let refused = next(first_state(), first).0;
    lemma_after_first(first_state(), first, rest);
    lemma_ended_run_is_idle(refused, rest);
}

/// A run in which no image was ever made into a sticker creates no set, adds nothing and
/// does not complete, whatever else the driver answers.
pub proof fn lemma_no_sticker_no_set(s: RunState, events: Seq<EventView>)
    requires
        s.valid(),
        before_creation(s),
        s.batch.len() == 0,
        forall|i: int| 0 <= i < events.len() ==> !(#[trigger] events[i] is Sticker),
    ensures
        ({
            let end = state_after(s, events);
            &&& creations(actions_of(s, events)) == 0
            &&& additions(actions_of(s, events)) == 0
            &&& end.batch.len() == 0
            &&& (before_creation(end) || end.phase is Failed)
        }),
    decreases events.len(),
{
    if events.len() > 0 {
        let head = events.drop_last();
        lemma_no_sticker_no_set(s, head);
        lemma_history_valid(s, head);
        let before = state_after(s, head);
        lemma_counts_push(actions_of(s, head), next(before, events.last()).1);
    }
}

/// Every state that a run reaches is one that a run can be in.
pub proof fn lemma_history_valid(s: RunState, events: Seq<EventView>)
    requires
        s.valid(),
    ensures
        state_after(s, events).valid(),
    decreases events.len(),
{
    if events.len() > 0 {
        lemma_history_valid(s, events.drop_last());
    }
}

/// The answers of a driver for which every image fails: each progress notice is shown,
/// and each image then fails for the reason given.
pub open spec fn all_failing(reasons: Seq<ErrorKind>) -> Seq<EventView>
    decreases reasons.len(),
{
    if reasons.len() == 0 {
        Seq::empty()
    } else {
        all_failing(reasons.drop_last()).push(EventView::Done).push(
            EventView::ImageFailed(reasons.last()),
        )
    }
}

/// While the images of the first batch fail one after the other, the run moves on to the
/// next; when the last of them has failed too, the run is given up for want of a single
/// valid sticker, without a set having been asked for.
pub proof fn lemma_all_failing(s: RunState, reasons: Seq<ErrorKind>)
    requires
        s.valid(),
        s.phase is InitialBatch,
        s.pending is Progress,
        s.batch.len() == 0,
        s.processed + reasons.len() <= s.first_batch(),
    ensures
        ({
            let end = state_after(s, all_failing(reasons));
            let moved = RunState { processed: s.processed + reasons.len(), ..s };
            &&& creations(actions_of(s, all_failing(reasons))) == 0
            &&& if s.processed + reasons.len() < s.first_batch() {
                end == moved
            } else {
                end == abort(moved, RunError::NoValidStickers).0
            }
        }),
    decreases reasons.len(),
{
    let events = all_failing(reasons);
    if reasons.len() > 0 {
        let head = all_failing(reasons.drop_last());
        lemma_all_failing(s, reasons.drop_last());
        let shown = head.push(EventView::Done);
        assert(events.drop_last() =~= shown);
        assert(shown.drop_last() =~= head);
        let start = state_after(s, head);
        let working = next(start, EventView::Done).0;
        lemma_counts_push(actions_of(s, head), next(start, EventView::Done).1);
        lemma_counts_push(
            actions_of(s, shown),
            next(working, EventView::ImageFailed(reasons.last())).1,
        );
    }
}

} // verus!
