//! What holds of a session whatever the order in which its reads complete.
//!
//! The statements here are about the registry's model alone: the tasks as a
//! sequence of records, submissions that append to it and completions that
//! settle a task in place.

use crate::app::{
    knows, settle, spec_add, spec_add_action, spec_add_all, spec_complete, spec_new_task,
    unique_ids, Action, Completion, Event, TaskRecord,
};
use crate::error::Error;
use crate::pipeline::spec_classify;
use crate::task::TaskView;
use vstd::prelude::*;

verus! {

/// The tasks after the completions `events` were applied, first to last.
pub open spec fn spec_complete_all(tasks: Seq<TaskRecord>, events: Seq<Event>) -> Seq<TaskRecord>
    decreases events.len(),
{
    if events.len() == 0 {
        tasks
    } else {
        spec_complete(
            spec_complete_all(tasks, events.drop_last()),
            events.last().uuid,
            events.last().outcome,
        )
    }
}

/// Whether one of `events` is for the id `uuid`.
pub open spec fn reported(events: Seq<Event>, uuid: u128) -> bool {
    exists|k: int| 0 <= k < events.len() && events[k].uuid == uuid
}

/// Whether no two of `events` are for the same id.
pub open spec fn distinct_ids(events: Seq<Event>) -> bool {
    forall|a: int, b: int|
        0 <= a < events.len() && 0 <= b < events.len() && a != b ==> events[a].uuid
            != events[b].uuid
}

/// Completions never add, remove or move a task, and never change an id.
pub proof fn lemma_completions_keep_places(tasks: Seq<TaskRecord>, events: Seq<Event>)
    ensures
        spec_complete_all(tasks, events).len() == tasks.len(),
        forall|i: int|
            0 <= i < tasks.len() ==> (#[trigger] spec_complete_all(tasks, events)[i]).uuid
                == tasks[i].uuid,
    decreases events.len(),
{
    if events.len() > 0 {
        lemma_completions_keep_places(tasks, events.drop_last());
    }
}

/// A task that has reached its end is never changed again: it is settled at
/// most once.
pub proof fn lemma_terminal_is_final(tasks: Seq<TaskRecord>, events: Seq<Event>, i: int)
    requires
        0 <= i < tasks.len(),
        tasks[i].state.is_terminal(),
    ensures
        spec_complete_all(tasks, events)[i] == tasks[i],
    decreases events.len(),
{
    if events.len() > 0 {
        lemma_completions_keep_places(tasks, events.drop_last());
        lemma_terminal_is_final(tasks, events.drop_last(), i);
    }
}

/// A task that no completion is for stays as it is.
pub proof fn lemma_unreported_is_untouched(tasks: Seq<TaskRecord>, events: Seq<Event>, i: int)
    requires
        0 <= i < tasks.len(),
        !reported(events, tasks[i].uuid),
    ensures
        spec_complete_all(tasks, events)[i] == tasks[i],
    decreases events.len(),
{
    if events.len() > 0 {
        let earlier = events.drop_last();
        assert(events[events.len() - 1].uuid != tasks[i].uuid);
        assert(!reported(earlier, tasks[i].uuid)) by {
            if reported(earlier, tasks[i].uuid) {
                let k = choose|k: int| 0 <= k < earlier.len() && earlier[k].uuid == tasks[i].uuid;
                assert(events[k].uuid == tasks[i].uuid);
            }
        }
        lemma_completions_keep_places(tasks, earlier);
        lemma_unreported_is_untouched(tasks, earlier, i);
    }
}

/// A task that a completion is for has reached its end afterwards.
pub proof fn lemma_reported_is_terminal(tasks: Seq<TaskRecord>, events: Seq<Event>, i: int)
    requires
        0 <= i < tasks.len(),
        reported(events, tasks[i].uuid),
    ensures
        spec_complete_all(tasks, events)[i].state.is_terminal(),
    decreases events.len(),
{
    let earlier = events.drop_last();
    lemma_completions_keep_places(tasks, earlier);
    if events.last().uuid != tasks[i].uuid {
        let k = choose|k: int| 0 <= k < events.len() && events[k].uuid == tasks[i].uuid;
        assert(earlier[k].uuid == tasks[i].uuid);
        lemma_reported_is_terminal(tasks, earlier, i);
    }
}

/// Where every id has at most one completion, the task with the id of
/// `events[k]` ends as that completion settles it, wherever it stands among
/// the others.
pub proof fn lemma_reported_once(tasks: Seq<TaskRecord>, events: Seq<Event>, i: int, k: int)
    requires
        0 <= i < tasks.len(),
        0 <= k < events.len(),
        distinct_ids(events),
        events[k].uuid == tasks[i].uuid,
    ensures
        spec_complete_all(tasks, events)[i] == (TaskRecord {
            uuid: tasks[i].uuid,
            state: settle(tasks[i].state, events[k].outcome),
        }),
    decreases events.len(),
{
    let earlier = events.drop_last();
    lemma_completions_keep_places(tasks, earlier);
    if k == events.len() - 1 {
        assert(!reported(earlier, tasks[i].uuid)) by {
            if reported(earlier, tasks[i].uuid) {
                let j = choose|j: int| 0 <= j < earlier.len() && earlier[j].uuid == tasks[i].uuid;
                assert(events[j].uuid == events[k].uuid);
            }
        }
        lemma_unreported_is_untouched(tasks, earlier, i);
    } else {
        assert(earlier[k] == events[k]);
        assert(distinct_ids(earlier)) by {
            assert forall|a: int, b: int|
                0 <= a < earlier.len() && 0 <= b < earlier.len() && a != b implies earlier[a].uuid
                != earlier[b].uuid by {
                assert(earlier[a] == events[a] && earlier[b] == events[b]);
            }
        }
        lemma_reported_once(tasks, earlier, i, k);
        assert(events[events.len() - 1].uuid != events[k].uuid);
    }
}

/// An input whose name has no pipeline is turned away when it is submitted:
/// its task is in error from the start, with the message for an unknown
/// format, no read is asked for, and no later completion changes the task.
pub proof fn lemma_unsupported_starts_nothing(
    tasks: Seq<TaskRecord>,
    uuid: u128,
    name: Seq<char>,
    file: usize,
    events: Seq<Event>,
)
    requires
        spec_classify(name) is None,
        !knows(tasks, uuid),
    ensures
        spec_add_action(tasks, uuid, name, file) is None,
        spec_add(tasks, uuid, name).len() == tasks.len() + 1,
        spec_add(tasks, uuid, name)[tasks.len() as int] == (TaskRecord {
            uuid,
            state: TaskView::Error(name, Error::FormatError.spec_message()),
        }),
        spec_complete_all(spec_add(tasks, uuid, name), events)[tasks.len() as int] == (TaskRecord {
            uuid,
            state: TaskView::Error(name, Error::FormatError.spec_message()),
        }),
{
    lemma_terminal_is_final(spec_add(tasks, uuid, name), events, tasks.len() as int);
}

/// A submission under fresh ids appends one task for each input, in order:
/// decrypting where the name has a pipeline, in error where it has none.
pub proof fn lemma_fresh_submission(
    tasks: Seq<TaskRecord>,
    uuids: Seq<u128>,
    names: Seq<Seq<char>>,
)
    requires
        uuids.len() == names.len(),
        uuids.no_duplicates(),
        forall|k: int| 0 <= k < uuids.len() ==> !knows(tasks, #[trigger] uuids[k]),
    ensures
        spec_add_all(tasks, uuids, names) == tasks + Seq::new(
            uuids.len(),
            |k: int| spec_new_task(uuids[k], names[k]),
        ),
    decreases uuids.len(),
{
    if uuids.len() > 0 {
        let n = uuids.len() - 1;
        let before = spec_add_all(tasks, uuids.drop_last(), names.drop_last());
        assert forall|k: int| 0 <= k < uuids.drop_last().len() implies !knows(
            tasks,
            #[trigger] uuids.drop_last()[k],
        ) by {
            assert(uuids.drop_last()[k] == uuids[k]);
        }
        lemma_fresh_submission(tasks, uuids.drop_last(), names.drop_last());
        assert(!knows(before, uuids.last())) by {
            if knows(before, uuids.last()) {
                let i = choose|i: int| 0 <= i < before.len() && before[i].uuid == uuids.last();
                if i < tasks.len() {
                    assert(tasks[i].uuid == uuids[n]);
                    assert(knows(tasks, uuids[n]));
                } else {
                    assert(uuids[i - tasks.len()] == uuids[n]);
                }
            }
        }
        assert(spec_add_all(tasks, uuids, names) =~= tasks + Seq::new(
            uuids.len(),
            |k: int| spec_new_task(uuids[k], names[k]),
        ));
    } else {
        assert(spec_add_all(tasks, uuids, names) =~= tasks + Seq::new(
            uuids.len(),
            |k: int| spec_new_task(uuids[k], names[k]),
        ));
    }
}

/// After a submission of any number of inputs under fresh ids into a new
/// session, and once every read that was started has completed, in whatever
/// order and with whatever outcome, the registry holds one task for each
/// input, under the id drawn for it, no two ids are the same, and every task
/// has reached its end: none is left decrypting.
pub proof fn lemma_session_completes(
    names: Seq<Seq<char>>,
    uuids: Seq<u128>,
    events: Seq<Event>,
)
    requires
        uuids.len() == names.len(),
        uuids.no_duplicates(),
        forall|k: int|
            0 <= k < names.len() && spec_classify(#[trigger] names[k]) is Some ==> reported(
                events,
                uuids[k],
            ),
    ensures
        ({
            let end = spec_complete_all(
                spec_add_all(Seq::<TaskRecord>::empty(), uuids, names),
                events,
            );
            &&& end.len() == names.len()
            &&& unique_ids(end)
            &&& forall|k: int|
                0 <= k < names.len() ==> (#[trigger] end[k]).uuid == uuids[k]
                    && end[k].state.is_terminal()
        }),
{
    let none = Seq::<TaskRecord>::empty();
    let begun = spec_add_all(none, uuids, names);
    let end = spec_complete_all(begun, events);
    lemma_fresh_submission(none, uuids, names);
    assert(begun =~= Seq::new(uuids.len(), |k: int| spec_new_task(uuids[k], names[k])));
    lemma_completions_keep_places(begun, events);
    assert forall|k: int| 0 <= k < names.len() implies (#[trigger] end[k]).uuid == uuids[k]
        && end[k].state.is_terminal() by {
        assert(begun[k] == spec_new_task(uuids[k], names[k]));
        if spec_classify(names[k]) is Some {
            lemma_reported_is_terminal(begun, events, k);
        } else {
            lemma_terminal_is_final(begun, events, k);
        }
    }
}

/// Where no two of the outstanding completions are for the same id, the
/// order in which they arrive does not show in the registry: two orders of
/// the same completions leave the same tasks.
pub proof fn lemma_completion_order_is_immaterial(
    tasks: Seq<TaskRecord>,
    first: Seq<Event>,
    second: Seq<Event>,
)
    requires
        distinct_ids(first),
        first.to_multiset() == second.to_multiset(),
    ensures
        spec_complete_all(tasks, first) == spec_complete_all(tasks, second),
{
    broadcast use vstd::seq_lib::to_multiset_contains;

    lemma_same_events_distinct(first, second);
    lemma_completions_keep_places(tasks, first);
    lemma_completions_keep_places(tasks, second);
    assert forall|i: int| 0 <= i < tasks.len() implies spec_complete_all(tasks, first)[i]
        == spec_complete_all(tasks, second)[i] by {
        let uuid = tasks[i].uuid;
        if reported(first, uuid) {
            let a = choose|a: int| 0 <= a < first.len() && first[a].uuid == uuid;
            assert(first.contains(first[a]));
            assert(second.to_multiset().count(first[a]) > 0);
            assert(second.contains(first[a]));
            let b = choose|b: int| 0 <= b < second.len() && second[b] == first[a];
            lemma_reported_once(tasks, first, i, a);
            lemma_reported_once(tasks, second, i, b);
        } else {
            assert(!reported(second, uuid)) by {
                if reported(second, uuid) {
                    let b = choose|b: int| 0 <= b < second.len() && second[b].uuid == uuid;
                    assert(second.contains(second[b]));
                    assert(first.to_multiset().count(second[b]) > 0);
                    assert(first.contains(second[b]));
                    let a = choose|a: int| 0 <= a < first.len() && first[a] == second[b];
                    assert(first[a].uuid == uuid);
                }
            }
            lemma_unreported_is_untouched(tasks, first, i);
            lemma_unreported_is_untouched(tasks, second, i);
        }
    }
    assert(spec_complete_all(tasks, first) =~= spec_complete_all(tasks, second));
}

/// Another order of completions with distinct ids has distinct ids too.
proof fn lemma_same_events_distinct(first: Seq<Event>, second: Seq<Event>)
    requires
        distinct_ids(first),
        first.to_multiset() == second.to_multiset(),
    ensures
        distinct_ids(second),
{
    broadcast use vstd::seq_lib::to_multiset_contains;

    assert(first.no_duplicates());
    first.lemma_multiset_has_no_duplicates();
    second.lemma_multiset_has_no_duplicates_conv();
    assert forall|a: int, b: int|
        0 <= a < second.len() && 0 <= b < second.len() && a != b implies second[a].uuid
        != second[b].uuid by {
        if second[a].uuid == second[b].uuid {
            assert(second.contains(second[a]));
            assert(first.to_multiset().count(second[a]) > 0);
            assert(first.contains(second[a]));
            assert(second.contains(second[b]));
            assert(first.to_multiset().count(second[b]) > 0);
            assert(first.contains(second[b]));
            let p = choose|p: int| 0 <= p < first.len() && first[p] == second[a];
            let q = choose|q: int| 0 <= q < first.len() && first[q] == second[b];
            assert(p == q);
            assert(second[a] == second[b]);
        }
    }
}

/// Submitting the same name again gives the same classification, and where
/// both reads report the same outcome, the two tasks end in the same state:
/// neither the id nor the place of a task shows in its result.
pub proof fn lemma_resubmission_ends_alike(
    tasks: Seq<TaskRecord>,
    name: Seq<char>,
    once: u128,
    again: u128,
    outcome: Completion,
)
    requires
        unique_ids(tasks),
        !knows(tasks, once),
        !knows(tasks, again),
        once != again,
    ensures
        ({
            let first = spec_add(tasks, once, name);
            let both = spec_add(first, again, name);
            let end = spec_complete(spec_complete(both, once, outcome), again, outcome);
            let n = tasks.len() as int;
            &&& both.len() == n + 2
            &&& both[n].uuid == once
            &&& both[n + 1].uuid == again
            &&& both[n].state == both[n + 1].state
            &&& end[n].state == end[n + 1].state
            &&& spec_add_action(tasks, once, name, 0) matches Some(Action::Read { variant, .. })
                ==> spec_add_action(first, again, name, 0) == Some(
                Action::Read { uuid: again, file: 0, variant },
            )
            &&& spec_add_action(tasks, once, name, 0) is None ==> spec_add_action(
                first,
                again,
                name,
                0,
            ) is None
        }),
{
    let first = spec_add(tasks, once, name);
    assert(!knows(first, again)) by {
        if knows(first, again) {
            let i = choose|i: int| 0 <= i < first.len() && first[i].uuid == again;
            if i < tasks.len() {
                assert(tasks[i].uuid == again);
            }
        }
    }
}

} // verus!
