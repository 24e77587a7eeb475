//! The registry of an interactive session.
//!
//! Every submitted input becomes a task with an id of its own. Tasks stand in
//! the order of submission and are never moved or removed; a completion finds
//! its task by id and settles it in place, once. The registry decides and
//! records; the caller starts the reads it is told to start and reports what
//! came of them.

use crate::dump_api::{MediaFormat, NcmInfo};
use crate::error::Error;
use crate::foreign::{
    base64_len, base64_standard, guessed_image_kind, is_random_uuid, new_uuid,
};
use crate::pipeline::{
    classify, ncm_file, qmc_file, spec_classify, spec_ncm_file, spec_qmc_file, PipelineVariant,
};
use crate::task::{DecryptTask, DecryptedFile, DecryptedFileView, TaskView};
use std::collections::HashMap;
use vstd::prelude::*;

verus! {

broadcast use vstd::std_specs::hash::group_hash_axioms;

/// A task of the session: its id and what has become of it.
#[derive(Debug)]
pub struct Task {
    pub uuid: u128,
    pub state: DecryptTask,
}

/// The mathematical content of a [`Task`].
pub struct TaskRecord {
    pub uuid: u128,
    pub state: TaskView,
}

impl View for Task {
    type V = TaskRecord;

    open spec fn view(&self) -> TaskRecord {
        TaskRecord { uuid: self.uuid, state: self.state@ }
    }
}

/// What a completed read reports of its task.
pub enum Completion {
    /// The pipeline delivered this file.
    Finished(DecryptedFileView),
    /// The read or the pipeline failed with this message.
    Failed(Seq<char>),
}

/// A completion on its way to the registry: the id it is for and what it
/// reports.
pub struct Event {
    pub uuid: u128,
    pub outcome: Completion,
}

/// What happens to the session.
#[derive(Debug)]
pub enum Msg {
    /// Inputs were submitted, under these names and in this order.
    Add(Vec<String>),
    /// The task with this id has its output.
    Finish(u128, Box<DecryptedFile>),
    /// The task with this id failed, with this message.
    Error(u128, String),
}

/// What the caller is to do after a message was handled.
#[derive(Clone, Copy, PartialEq, Eq, Structural, Debug)]
pub enum Action {
    /// Start reading the input that stood at place `file` of the submission,
    /// run `variant` on its bytes and report the outcome under `uuid`.
    Read { uuid: u128, file: usize, variant: PipelineVariant },
    /// The input at place `file` was not registered: the id drawn for it is
    /// in use.
    Refused { file: usize },
    /// The task with this id has reached its end; its read can be let go.
    Settled(u128),
    /// The task with this id had reached its end before; nothing changed.
    Stale(u128),
    /// No task has this id; the completion was dropped.
    Unknown(u128),
}

/// Whether a task with the id `uuid` is among `tasks`.
pub open spec fn knows(tasks: Seq<TaskRecord>, uuid: u128) -> bool {
    exists|i: int| 0 <= i < tasks.len() && tasks[i].uuid == uuid
}

/// Whether a task with the id `uuid` is among `tasks` and still decrypting.
pub open spec fn is_pending(tasks: Seq<TaskRecord>, uuid: u128) -> bool {
    exists|i: int| 0 <= i < tasks.len() && tasks[i].uuid == uuid && tasks[i].state is Decrypting
}

/// Whether no two of `tasks` share an id.
pub open spec fn unique_ids(tasks: Seq<TaskRecord>) -> bool {
    forall|i: int, j: int|
        0 <= i < tasks.len() && 0 <= j < tasks.len() && i != j ==> tasks[i].uuid != tasks[j].uuid
}

/// The task that a submission under `name` creates: decrypting where the
/// name has a pipeline, and else in error from the start.
pub open spec fn spec_new_task(uuid: u128, name: Seq<char>) -> TaskRecord {
    match spec_classify(name) {
        Some(_) => TaskRecord { uuid, state: TaskView::Decrypting(name) },
        None => TaskRecord {
            uuid,
            state: TaskView::Error(name, Error::FormatError.spec_message()),
        },
    }
}

/// The tasks after one input was submitted under the id `uuid`: the new task
/// stands at the end, unless the id is in use, which leaves all as it was.
pub open spec fn spec_add(tasks: Seq<TaskRecord>, uuid: u128, name: Seq<char>) -> Seq<TaskRecord> {
    if knows(tasks, uuid) {
        tasks
    } else {
        tasks.push(spec_new_task(uuid, name))
    }
}

/// What the caller is told after one input was submitted: to read it where
/// it has a pipeline, nothing where it was rejected.
pub open spec fn spec_add_action(
    tasks: Seq<TaskRecord>,
    uuid: u128,
    name: Seq<char>,
    file: usize,
) -> Option<Action> {
    if knows(tasks, uuid) {
        Some(Action::Refused { file })
    } else {
        match spec_classify(name) {
            Some(variant) => Some(Action::Read { uuid, file, variant }),
            None => None,
        }
    }
}

/// The tasks after a whole submission, the input at place `k` under the id
/// `uuids[k]`.
pub open spec fn spec_add_all(
    tasks: Seq<TaskRecord>,
    uuids: Seq<u128>,
    names: Seq<Seq<char>>,
) -> Seq<TaskRecord>
    decreases uuids.len(),
{
    if uuids.len() == 0 {
        tasks
    } else {
        spec_add(
            spec_add_all(tasks, uuids.drop_last(), names.drop_last()),
            uuids.last(),
            names.last(),
        )
    }
}

/// What the caller is told after a whole submission, in the order of the
/// inputs.
pub open spec fn spec_add_actions(
    tasks: Seq<TaskRecord>,
    uuids: Seq<u128>,
    names: Seq<Seq<char>>,
) -> Seq<Action>
    decreases uuids.len(),
{
    if uuids.len() == 0 {
        Seq::empty()
    } else {
        let earlier = spec_add_actions(tasks, uuids.drop_last(), names.drop_last());
        let before = spec_add_all(tasks, uuids.drop_last(), names.drop_last());
        match spec_add_action(before, uuids.last(), names.last(), (uuids.len() - 1) as usize) {
            Some(action) => earlier.push(action),
            None => earlier,
        }
    }
}

/// Whether `after` and `actions` are what a submission of `names` under the
/// ids `uuids` makes of `before`.
pub open spec fn submitted(
    before: Seq<TaskRecord>,
    uuids: Seq<u128>,
    names: Seq<Seq<char>>,
    after: Seq<TaskRecord>,
    actions: Seq<Action>,
) -> bool {
    &&& uuids.len() == names.len()
    &&& forall|k: int| 0 <= k < uuids.len() ==> is_random_uuid(#[trigger] uuids[k])
    &&& after == spec_add_all(before, uuids, names)
    &&& actions == spec_add_actions(before, uuids, names)
}

/// The state of a task after a completion: a decrypting task takes the
/// outcome and keeps its name, a task at its end stays as it is.
pub open spec fn settle(state: TaskView, outcome: Completion) -> TaskView {
    match state {
        TaskView::Decrypting(name) => match outcome {
            Completion::Finished(file) => TaskView::Finished(file),
            Completion::Failed(message) => TaskView::Error(name, message),
        },
        _ => state,
    }
}

/// The tasks after a completion for the id `uuid`: the task with that id is
/// settled where it stands, every other task is untouched.
pub open spec fn spec_complete(tasks: Seq<TaskRecord>, uuid: u128, outcome: Completion) -> Seq<
    TaskRecord,
> {
    Seq::new(
        tasks.len(),
        |i: int|
            if tasks[i].uuid == uuid {
                TaskRecord { uuid, state: settle(tasks[i].state, outcome) }
            } else {
                tasks[i]
            },
    )
}

/// What the caller is told after a completion for the id `uuid`.
pub open spec fn spec_complete_action(tasks: Seq<TaskRecord>, uuid: u128) -> Action {
    if is_pending(tasks, uuid) {
        Action::Settled(uuid)
    } else if knows(tasks, uuid) {
        Action::Stale(uuid)
    } else {
        Action::Unknown(uuid)
    }
}

/// What an outcome reports, as a [`Completion`].
pub open spec fn completion_of(outcome: Result<Box<DecryptedFile>, String>) -> Completion {
    match outcome {
        Ok(file) => Completion::Finished(file@),
        Err(message) => Completion::Failed(message@),
    }
}

/// The names of a submission, as texts.
pub open spec fn names_of(names: Seq<String>) -> Seq<Seq<char>> {
    names.map_values(|name: String| name@)
}

/// What becomes of the task `uuid` when its pipeline ends with `outcome`: a
/// file finishes it, an error fails it with the error's message.
pub open spec fn spec_completion(uuid: u128, outcome: Result<DecryptedFileView, Error>) -> Event {
    match outcome {
        Ok(file) => Event { uuid, outcome: Completion::Finished(file) },
        Err(e) => Event { uuid, outcome: Completion::Failed(e.spec_message()) },
    }
}

impl Msg {
    /// The completion that the message reports; a submission reports none.
    pub open spec fn event(self) -> Option<Event> {
        match self {
            Msg::Add(_) => None,
            Msg::Finish(uuid, file) => Some(Event { uuid, outcome: Completion::Finished(file@) }),
            Msg::Error(uuid, message) => Some(
                Event { uuid, outcome: Completion::Failed(message@) },
            ),
        }
    }
}

/// Wraps the outcome of a pipeline into the message for the registry.
pub fn completion(uuid: u128, outcome: Result<DecryptedFile, Error>) -> (msg: Msg)
    ensures
        msg.event() == Some(
            spec_completion(
                uuid,
                match outcome {
                    Ok(file) => Ok(file@),
                    Err(e) => Err(e),
                },
            ),
        ),
{
    match outcome {
        Ok(file) => Msg::Finish(uuid, Box::new(file)),
        Err(e) => Msg::Error(uuid, e.message()),
    }
}

/// Ends the read of an NCM input: runs what follows the decoder on the
/// decoded parts, which are the metadata, the artwork and the audio, and
/// reports the outcome under `uuid`. A failure of the read or of the decoder
/// is reported as it came.
pub fn ncm_completion(
    uuid: u128,
    original_name: &str,
    decoded: Result<(NcmInfo, Vec<u8>, Vec<u8>), Error>,
) -> (msg: Msg)
    requires
        decoded matches Ok(parts) ==> base64_len(parts.1@.len()) <= usize::MAX,
    ensures
        msg.event() == Some(
            spec_completion(
                uuid,
                match decoded {
                    Ok(parts) => spec_ncm_file(
                        original_name@,
                        parts.0@,
                        guessed_image_kind(parts.1@),
                        base64_standard(parts.1@),
                        parts.2@,
                    ),
                    Err(e) => Err(e),
                },
            ),
        ),
{
    match decoded {
        Ok((info, image, data)) => completion(uuid, ncm_file(original_name, info, image, data)),
        Err(e) => completion(uuid, Err(e)),
    }
}

/// Ends the read of a QMC input: names the decoded audio after the input,
/// with the extension of the format that the input was classified as, and
/// reports the outcome under `uuid`. The format that the decoder found is
/// not consulted.
pub fn qmc_completion(
    uuid: u128,
    original_name: &str,
    format: MediaFormat,
    decoded: Result<(MediaFormat, Vec<u8>), Error>,
) -> (msg: Msg)
    ensures
        msg.event() == Some(
            spec_completion(
                uuid,
                match decoded {
                    Ok(parts) => spec_qmc_file(original_name@, format, parts.1@),
                    Err(e) => Err(e),
                },
            ),
        ),
{
    match decoded {
        Ok((_, data)) => completion(uuid, qmc_file(original_name, format, data)),
        Err(e) => completion(uuid, Err(e)),
    }
}

/// The registry: the tasks in the order of their submission, and the place
/// of each by its id.
pub struct App {
    tasks: Vec<Task>,
    uuid_table: HashMap<u128, usize>,
}

impl View for App {
    type V = Seq<TaskRecord>;

    closed spec fn view(&self) -> Seq<TaskRecord> {
        self.tasks@.map_values(|task: Task| task@)
    }
}

impl App {
    /// The invariant of the registry: the table holds exactly the ids of the
    /// tasks, each with the place of its task.
    #[verifier::type_invariant]
    closed spec fn wf(&self) -> bool {
        &&& forall|i: int|
            0 <= i < self.tasks@.len() ==> self.uuid_table@.contains_key(
                #[trigger] self.tasks@[i].uuid,
            ) && self.uuid_table@[self.tasks@[i].uuid] == i
        &&& forall|uuid: u128| #[trigger]
            self.uuid_table@.contains_key(uuid) ==> self.uuid_table@[uuid] < self.tasks@.len()
                && self.tasks@[self.uuid_table@[uuid] as int].uuid == uuid
    }

    /// In a registry no two tasks share an id.
    proof fn lemma_unique_ids(&self)
        requires
            self.wf(),
        ensures
            unique_ids(self@),
    {
        assert forall|i: int, j: int|
            0 <= i < self@.len() && 0 <= j < self@.len() && i != j implies self@[i].uuid
            != self@[j].uuid by {
            assert(self.uuid_table@[self.tasks@[i].uuid] == i);
            assert(self.uuid_table@[self.tasks@[j].uuid] == j);
        }
    }

    /// The registry of a new session, without a task.
    pub fn create() -> (app: App)
        ensures
            app@ == Seq::<TaskRecord>::empty(),
            unique_ids(app@),
    {
        App { tasks: Vec::new(), uuid_table: HashMap::new() }
    }

    /// The number of tasks.
    pub fn len(&self) -> (n: usize)
        ensures
            n == self@.len(),
    {
        self.tasks.len()
    }

    /// The task at place `i` in the order of submission.
    pub fn task(&self, i: usize) -> (task: &Task)
        requires
            i < self@.len(),
        ensures
            task@ == self@[i as int],
    {
        &self.tasks[i]
    }

    /// The place of the task with the id `uuid`.
    pub fn find(&self, uuid: u128) -> (place: Option<usize>)
        ensures
            match place {
                Some(i) => i < self@.len() && self@[i as int].uuid == uuid,
                None => !knows(self@, uuid),
            },
    {
        proof {
            use_type_invariant(self);
        }
        match self.uuid_table.get(&uuid) {
            Some(i) => Some(*i),
            None => None,
        }
    }

    /// Registers one input under the id `uuid`. Where the name has a
    /// pipeline, the new task is decrypting and the caller is told to read
    /// the input. Where it has none, the task is in error from the start and
    /// no read is asked for. Where the id is in use, nothing is registered.
    pub fn add_file(&mut self, uuid: u128, name: &str, file: usize) -> (action: Option<Action>)
        ensures
            final(self)@ == spec_add(old(self)@, uuid, name@),
            action == spec_add_action(old(self)@, uuid, name@, file),
            unique_ids(final(self)@),
    {
        proof {
            use_type_invariant(&*self);
            self.lemma_unique_ids();
        }
        if self.find(uuid).is_some() {
            return Some(Action::Refused { file });
        }
        let (state, action) = match classify(name) {
            Ok(variant) => (
                DecryptTask::Decrypting(name.to_owned()),
                Some(Action::Read { uuid, file, variant }),
            ),
            Err(e) => (DecryptTask::Error(name.to_owned(), e.message()), None),
        };
        let mut taken = App::create();
        std::mem::swap(self, &mut taken);
        let App { mut tasks, mut uuid_table } = taken;
        let place = tasks.len();
        tasks.push(Task { uuid, state });
        uuid_table.insert(uuid, place);
        proof {
            assert forall|i: int| 0 <= i < tasks@.len() implies uuid_table@.contains_key(
                #[trigger] tasks@[i].uuid,
            ) && uuid_table@[tasks@[i].uuid] == i by {
                if i < place {
                    assert(old(self).tasks@[i].uuid != uuid) by {
                        assert(old(self)@[i].uuid == old(self).tasks@[i].uuid);
                    }
                }
            }
        }
        *self = App { tasks, uuid_table };
        proof {
            assert(self@ =~= spec_add(old(self)@, uuid, name@));
            self.lemma_unique_ids();
        }
        action
    }

    /// Applies a completion to the task with the id `uuid`. A decrypting
    /// task takes the outcome, in place; a task at its end and an unknown id
    /// leave the registry as it was.
    pub fn resolve(&mut self, uuid: u128, outcome: Result<Box<DecryptedFile>, String>) -> (action:
        Action)
        ensures
            final(self)@ == spec_complete(old(self)@, uuid, completion_of(outcome)),
            action == spec_complete_action(old(self)@, uuid),
            unique_ids(final(self)@),
    {
        proof {
            use_type_invariant(&*self);
            self.lemma_unique_ids();
        }
        let place = match self.find(uuid) {
            Some(place) => place,
            None => {
                assert(self@ =~= spec_complete(self@, uuid, completion_of(outcome)));
                return Action::Unknown(uuid);
            },
        };
        let name = match &self.tasks[place].state {
            DecryptTask::Decrypting(name) => name.clone(),
            _ => {
                assert(self@ =~= spec_complete(self@, uuid, completion_of(outcome)));
                assert(!is_pending(self@, uuid));
                return Action::Stale(uuid);
            },
        };
        let state = match outcome {
            Ok(file) => DecryptTask::Finished(file),
            Err(message) => DecryptTask::Error(name, message),
        };
        let mut taken = App::create();
        std::mem::swap(self, &mut taken);
        let App { mut tasks, uuid_table } = taken;
        tasks.set(place, Task { uuid, state });
        proof {
            assert forall|i: int| 0 <= i < tasks@.len() implies uuid_table@.contains_key(
                #[trigger] tasks@[i].uuid,
            ) && uuid_table@[tasks@[i].uuid] == i by {
                assert(tasks@[i].uuid == old(self).tasks@[i].uuid);
            }
        }
        *self = App { tasks, uuid_table };
        proof {
            assert(old(self)@[place as int].state is Decrypting);
            assert(self@ =~= spec_complete(old(self)@, uuid, completion_of(outcome)));
            self.lemma_unique_ids();
        }
        Action::Settled(uuid)
    }

    /// Registers a submission: one fresh id is drawn for each input, in
    /// order. The ids are random, so the contract holds for the ids that
    /// were drawn, whatever they are.
    pub fn add_files(&mut self, names: Vec<String>) -> (actions: Vec<Action>)
        ensures
            unique_ids(final(self)@),
            exists|uuids: Seq<u128>| #[trigger]
                submitted(old(self)@, uuids, names_of(names@), final(self)@, actions@),
    {
        proof {
            use_type_invariant(&*self);
            self.lemma_unique_ids();
        }
        let ghost texts = names_of(names@);
        let ghost mut uuids: Seq<u128> = Seq::empty();
        let mut actions: Vec<Action> = Vec::new();
        let mut file: usize = 0;
        while file < names.len()
            invariant
                unique_ids(self@),
                texts == names_of(names@),
                file <= names.len(),
                uuids.len() == file,
                forall|k: int| 0 <= k < uuids.len() ==> is_random_uuid(#[trigger] uuids[k]),
                self@ == spec_add_all(old(self)@, uuids, texts.take(file as int)),
                actions@ == spec_add_actions(old(self)@, uuids, texts.take(file as int)),
            decreases names.len() - file,
        {
            let uuid = new_uuid();
            let action = self.add_file(uuid, names[file].as_str(), file);
            if let Some(action) = action {
                actions.push(action);
            }
            proof {
                let longer = uuids.push(uuid);
                assert(longer.drop_last() == uuids);
                assert(texts.take(file + 1).drop_last() == texts.take(file as int));
                assert(texts.take(file + 1).last() == names@[file as int]@);
                uuids = longer;
            }
            file = file + 1;
        }
        proof {
            assert(texts.take(file as int) == texts);
            assert(submitted(old(self)@, uuids, texts, self@, actions@));
        }
        actions
    }

    /// Handles one message and says what the caller is to do next.
    pub fn update(&mut self, msg: Msg) -> (actions: Vec<Action>)
        ensures
            unique_ids(final(self)@),
            match msg {
                Msg::Add(names) => exists|uuids: Seq<u128>| #[trigger]
                    submitted(old(self)@, uuids, names_of(names@), final(self)@, actions@),
                Msg::Finish(uuid, file) => {
                    &&& final(self)@ == spec_complete(
                        old(self)@,
                        uuid,
                        Completion::Finished(file@),
                    )
                    &&& actions@ == seq![spec_complete_action(old(self)@, uuid)]
                },
                Msg::Error(uuid, message) => {
                    &&& final(self)@ == spec_complete(
                        old(self)@,
                        uuid,
                        Completion::Failed(message@),
                    )
                    &&& actions@ == seq![spec_complete_action(old(self)@, uuid)]
                },
            },
    {
        match msg {
            Msg::Add(names) => self.add_files(names),
            Msg::Finish(uuid, file) => {
                let action = self.resolve(uuid, Ok(file));
                vec![action]
            },
            Msg::Error(uuid, message) => {
                let action = self.resolve(uuid, Err(message));
                vec![action]
            },
        }
    }
}

} // verus!
