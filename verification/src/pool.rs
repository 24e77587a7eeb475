//! The plan of a batch run: which worker is sent what, and in what order.
//!
//! Every worker has a channel of its own. Jobs go round the workers in turn,
//! and when all jobs are sent, each worker is sent one shutdown message. A
//! worker takes its messages first in, first out, and leaves at the shutdown
//! message, so it has attempted all its jobs by then.

use crate::app::names_of;
use crate::cli::{qmc_job, spec_qmc_job, CliError};
use crate::dump_api::MediaFormat;
use crate::pipeline::PipelineVariant;
use vstd::prelude::*;

verus! {

/// A unit of decode work: an input and the pipeline it is for.
#[derive(Debug)]
pub struct Job {
    /// The place of the input in the submission, counted from zero through
    /// the NCM inputs and on through the QMC inputs. No two jobs share it,
    /// and the caller finds by it whatever it keeps of the input.
    pub id: usize,
    /// The name of the input.
    pub source: String,
    pub variant: PipelineVariant,
}

/// The mathematical content of a [`Job`].
pub struct JobView {
    pub id: int,
    pub source: Seq<char>,
    pub variant: PipelineVariant,
}

impl View for Job {
    type V = JobView;

    open spec fn view(&self) -> JobView {
        JobView { id: self.id as int, source: self.source@, variant: self.variant }
    }
}

/// What travels on a worker's channel.
#[derive(Debug)]
pub enum Message {
    /// A job to attempt.
    Work(Job),
    /// The last message: the worker leaves its loop.
    Shutdown,
}

/// The mathematical content of a [`Message`].
pub enum MessageView {
    Work(JobView),
    Shutdown,
}

impl View for Message {
    type V = MessageView;

    open spec fn view(&self) -> MessageView {
        match self {
            Message::Work(job) => MessageView::Work(job@),
            Message::Shutdown => MessageView::Shutdown,
        }
    }
}

/// One send: a message and the worker whose channel it goes to.
#[derive(Debug)]
pub struct Dispatch {
    pub worker: usize,
    pub message: Message,
}

/// The mathematical content of a [`Dispatch`].
pub struct DispatchView {
    pub worker: int,
    pub message: MessageView,
}

impl View for Dispatch {
    type V = DispatchView;

    open spec fn view(&self) -> DispatchView {
        DispatchView { worker: self.worker as int, message: self.message@ }
    }
}

/// A QMC input that passed the check by name.
#[derive(Debug)]
pub struct Accepted {
    /// The place of the input among the QMC inputs.
    pub place: usize,
    pub source: String,
    /// The format that the extension stands for.
    pub format: MediaFormat,
}

/// The mathematical content of an [`Accepted`].
pub struct AcceptedView {
    pub place: int,
    pub source: Seq<char>,
    pub format: MediaFormat,
}

impl View for Accepted {
    type V = AcceptedView;

    open spec fn view(&self) -> AcceptedView {
        AcceptedView { place: self.place as int, source: self.source@, format: self.format }
    }
}

/// A QMC input that was turned away before any work was started for it.
#[derive(Debug)]
pub struct Rejected {
    /// The place of the input among the QMC inputs.
    pub place: usize,
    pub source: String,
    pub error: CliError,
}

/// The mathematical content of a [`Rejected`].
pub struct RejectedView {
    pub place: int,
    pub source: Seq<char>,
    pub error: CliError,
}

impl View for Rejected {
    type V = RejectedView;

    open spec fn view(&self) -> RejectedView {
        RejectedView { place: self.place as int, source: self.source@, error: self.error }
    }
}

/// The plan of a run: the sends in their order, and the inputs that were
/// turned away.
#[derive(Debug)]
pub struct Batch {
    pub sends: Vec<Dispatch>,
    pub rejected: Vec<Rejected>,
}

/// The accepted inputs of a plan, as mathematical values.
pub open spec fn accepted_of(inputs: Seq<Accepted>) -> Seq<AcceptedView> {
    inputs.map_values(|input: Accepted| input@)
}

/// The sends of a plan, as mathematical values.
pub open spec fn sends_of(sends: Seq<Dispatch>) -> Seq<DispatchView> {
    sends.map_values(|send: Dispatch| send@)
}

/// The rejections of a plan, as mathematical values.
pub open spec fn rejections_of(rejected: Seq<Rejected>) -> Seq<RejectedView> {
    rejected.map_values(|r: Rejected| r@)
}

/// The QMC inputs among `names` that pass the check by name, in order, each
/// with its place and its format.
pub open spec fn spec_accepted(names: Seq<Seq<char>>) -> Seq<AcceptedView>
    decreases names.len(),
{
    if names.len() == 0 {
        Seq::empty()
    } else {
        match spec_qmc_job(names.last()) {
            Ok(format) => spec_accepted(names.drop_last()).push(
                AcceptedView { place: names.len() - 1, source: names.last(), format },
            ),
            Err(_) => spec_accepted(names.drop_last()),
        }
    }
}

/// The QMC inputs among `names` that fail the check by name, in order, each
/// with its place and the reason.
pub open spec fn spec_rejected(names: Seq<Seq<char>>) -> Seq<RejectedView>
    decreases names.len(),
{
    if names.len() == 0 {
        Seq::empty()
    } else {
        match spec_qmc_job(names.last()) {
            Ok(_) => spec_rejected(names.drop_last()),
            Err(error) => spec_rejected(names.drop_last()).push(
                RejectedView { place: names.len() - 1, source: names.last(), error },
            ),
        }
    }
}

/// Whether the accepted inputs stand in the order of their places, none
/// twice.
pub open spec fn in_order(qmc: Seq<AcceptedView>) -> bool {
    &&& forall|a: int| 0 <= a < qmc.len() ==> 0 <= (#[trigger] qmc[a]).place
    &&& forall|a: int, b: int|
        0 <= a < b < qmc.len() ==> (#[trigger] qmc[a]).place < (#[trigger] qmc[b]).place
}

/// The send of the NCM job at place `i`: job `i`, to worker `i` modulo the
/// number of workers.
pub open spec fn spec_ncm_dispatch(ncm: Seq<Seq<char>>, workers: nat, i: int) -> DispatchView {
    DispatchView {
        worker: i % (workers as int),
        message: MessageView::Work(
            JobView { id: i, source: ncm[i], variant: PipelineVariant::Ncm },
        ),
    }
}

/// The send of the `j`-th accepted QMC input, which was submitted behind
/// `before` NCM inputs: its job, to worker `j` modulo the number of workers.
pub open spec fn spec_qmc_dispatch(
    qmc: Seq<AcceptedView>,
    before: nat,
    workers: nat,
    j: int,
) -> DispatchView {
    DispatchView {
        worker: j % (workers as int),
        message: MessageView::Work(
            JobView {
                id: before + qmc[j].place,
                source: qmc[j].source,
                variant: PipelineVariant::Qmc(qmc[j].format),
            },
        ),
    }
}

/// The shutdown message to worker `w`.
pub open spec fn spec_shutdown(w: int) -> DispatchView {
    DispatchView { worker: w, message: MessageView::Shutdown }
}

/// The sends of a run, in order: the NCM jobs round the workers, then the
/// QMC jobs round the workers from the first worker again, then one shutdown
/// message to each worker. Without a worker nothing is sent.
pub open spec fn spec_schedule(
    ncm: Seq<Seq<char>>,
    qmc: Seq<AcceptedView>,
    workers: nat,
) -> Seq<DispatchView> {
    if workers == 0 {
        Seq::empty()
    } else {
        Seq::new(ncm.len(), |i: int| spec_ncm_dispatch(ncm, workers, i)) + Seq::new(
            qmc.len(),
            |j: int| spec_qmc_dispatch(qmc, ncm.len(), workers, j),
        ) + Seq::new(workers, |w: int| spec_shutdown(w))
    }
}

/// Only inputs that pass the check by name become jobs. Every submitted
/// input is either accepted or rejected; an accepted input carries the name
/// at its place and the format that the check gave it, a rejected one the
/// name at its place and the reason; and the accepted stand in the order of
/// their places.
pub proof fn lemma_accepted_passed_check(names: Seq<Seq<char>>)
    ensures
        spec_accepted(names).len() + spec_rejected(names).len() == names.len(),
        in_order(spec_accepted(names)),
        forall|k: int|
            0 <= k < spec_accepted(names).len() ==> {
                let input = #[trigger] spec_accepted(names)[k];
                &&& 0 <= input.place < names.len()
                &&& names[input.place] == input.source
                &&& spec_qmc_job(input.source) == Ok::<MediaFormat, CliError>(input.format)
            },
        forall|k: int|
            0 <= k < spec_rejected(names).len() ==> {
                let input = #[trigger] spec_rejected(names)[k];
                &&& 0 <= input.place < names.len()
                &&& names[input.place] == input.source
                &&& spec_qmc_job(input.source) == Err::<MediaFormat, CliError>(input.error)
            },
    decreases names.len(),
{
    if names.len() > 0 {
        lemma_accepted_passed_check(names.drop_last());
    }
}

/// The number of the job that the send at place `p` of a schedule carries,
/// for `p` below the number of jobs.
pub open spec fn spec_job_id(ncm: Seq<Seq<char>>, qmc: Seq<AcceptedView>, p: int) -> int {
    if p < ncm.len() {
        p
    } else {
        ncm.len() + qmc[p - ncm.len()].place
    }
}

/// Whether `send` carries the job with the number `id`.
pub open spec fn carries(send: DispatchView, id: int) -> bool {
    send.message matches MessageView::Work(job) && job.id == id
}

/// With at least one worker, every job is sent exactly once: the send at
/// place `p`, below the number of jobs, carries a job, and no other send
/// carries a job with the same number. It goes to one of the workers, and
/// the shutdown message for that worker is sent later, so the worker
/// attempts the job before it leaves.
pub proof fn lemma_every_job_sent_once(
    ncm: Seq<Seq<char>>,
    qmc: Seq<AcceptedView>,
    workers: nat,
    p: int,
)
    requires
        workers >= 1,
        in_order(qmc),
        0 <= p < ncm.len() + qmc.len(),
    ensures
        ({
            let sends = spec_schedule(ncm, qmc, workers);
            let jobs = ncm.len() + qmc.len();
            let id = spec_job_id(ncm, qmc, p);
            &&& carries(sends[p], id)
            &&& 0 <= sends[p].worker < workers
            &&& forall|q: int| 0 <= q < sends.len() && carries(#[trigger] sends[q], id) ==> q == p
            &&& sends[jobs + sends[p].worker] == spec_shutdown(sends[p].worker)
        }),
{
    let sends = spec_schedule(ncm, qmc, workers);
    let w = workers as int;
    let id = spec_job_id(ncm, qmc, p);
    assert(0 <= p % w < w) by (nonlinear_arith)
        requires
            w >= 1,
            p >= 0,
    ;
    assert(0 <= (p - ncm.len()) % w < w) by (nonlinear_arith)
        requires
            w >= 1,
    ;
    assert forall|q: int| 0 <= q < sends.len() && carries(#[trigger] sends[q], id) implies q
        == p by {
        if ncm.len() <= q < ncm.len() + qmc.len() {
            let b = q - ncm.len();
            assert(qmc[b].place >= 0);
            if p >= ncm.len() {
                let a = p - ncm.len();
                if a < b {
                    assert(qmc[a].place < qmc[b].place);
                } else if b < a {
                    assert(qmc[b].place < qmc[a].place);
                }
            }
        }
    }
}

/// With at least one worker, every worker is sent exactly one shutdown
/// message, every job of the worker is sent before it, and nothing is sent
/// after the shutdown messages.
pub proof fn lemma_one_shutdown_each(
    ncm: Seq<Seq<char>>,
    qmc: Seq<AcceptedView>,
    workers: nat,
    w: int,
)
    requires
        0 <= w < workers,
    ensures
        ({
            let sends = spec_schedule(ncm, qmc, workers);
            let jobs = ncm.len() + qmc.len();
            &&& sends.len() == jobs + workers
            &&& sends[jobs + w] == spec_shutdown(w)
            &&& forall|p: int|
                0 <= p < sends.len() && #[trigger] sends[p] == spec_shutdown(w) ==> p == jobs + w
            &&& forall|p: int|
                0 <= p < sends.len() && (#[trigger] sends[p]).worker == w && sends[p].message is Work
                    ==> p < jobs
        }),
{
}

/// Parts the QMC inputs into those that pass the check by name and those
/// that are turned away.
pub fn sort_out(names: &Vec<String>) -> (sorted: (Vec<Accepted>, Vec<Rejected>))
    ensures
        accepted_of(sorted.0@) == spec_accepted(names_of(names@)),
        rejections_of(sorted.1@) == spec_rejected(names_of(names@)),
{
    let ghost texts = names_of(names@);
    let mut accepted: Vec<Accepted> = Vec::new();
    let mut rejected: Vec<Rejected> = Vec::new();
    let mut place: usize = 0;
    while place < names.len()
        invariant
            texts == names_of(names@),
            place <= names.len(),
            accepted_of(accepted@) == spec_accepted(texts.take(place as int)),
            rejections_of(rejected@) == spec_rejected(texts.take(place as int)),
        decreases names.len() - place,
    {
        let source = names[place].clone();
        proof {
            assert(texts.take(place + 1).drop_last() == texts.take(place as int));
            assert(texts.take(place + 1).last() == names@[place as int]@);
        }
        match qmc_job(source.as_str()) {
            Ok(format) => {
                accepted.push(Accepted { place, source, format });
                assert(accepted_of(accepted@) =~= spec_accepted(texts.take(place + 1)));
            },
            Err(error) => {
                rejected.push(Rejected { place, source, error });
                assert(rejections_of(rejected@) =~= spec_rejected(texts.take(place + 1)));
            },
        }
        place = place + 1;
    }
    assert(texts.take(place as int) == texts);
    (accepted, rejected)
}

/// Lays out the sends of a run over `workers` workers. The number of each
/// job must fit the machine's word.
pub fn schedule(ncm: &Vec<String>, qmc: &Vec<Accepted>, workers: usize) -> (sends: Vec<Dispatch>)
    requires
        forall|j: int| 0 <= j < qmc@.len() ==> ncm@.len() + (#[trigger] qmc@[j]).place <= usize::MAX,
    ensures
        sends_of(sends@) == spec_schedule(names_of(ncm@), accepted_of(qmc@), workers as nat),
{
    let ghost first = names_of(ncm@);
    let ghost second = accepted_of(qmc@);
    let ghost count = workers as nat;
    let mut sends: Vec<Dispatch> = Vec::new();
    if workers == 0 {
        assert(sends_of(sends@) =~= spec_schedule(first, second, count));
        return sends;
    }
    let mut i: usize = 0;
    while i < ncm.len()
        invariant
            workers > 0,
            count == workers,
            first == names_of(ncm@),
            i <= ncm.len(),
            sends_of(sends@) == Seq::new(i as nat, |i: int| spec_ncm_dispatch(first, count, i)),
        decreases ncm.len() - i,
    {
        let ghost sent = sends@;
        let job = Job { id: i, source: ncm[i].clone(), variant: PipelineVariant::Ncm };
        sends.push(Dispatch { worker: i % workers, message: Message::Work(job) });
        proof {
            assert(first[i as int] == ncm@[i as int]@);
            assert(sends@.last()@ == spec_ncm_dispatch(first, count, i as int));
            assert(sends_of(sends@) =~= sends_of(sent).push(sends@.last()@));
        }
        i = i + 1;
        assert(sends_of(sends@) =~= Seq::new(
            i as nat,
            |i: int| spec_ncm_dispatch(first, count, i),
        ));
    }
    let ghost jobs = Seq::new(ncm@.len(), |i: int| spec_ncm_dispatch(first, count, i));
    let mut j: usize = 0;
    while j < qmc.len()
        invariant
            workers > 0,
            count == workers,
            second == accepted_of(qmc@),
            first.len() == ncm@.len(),
            forall|j: int|
                0 <= j < qmc@.len() ==> ncm@.len() + (#[trigger] qmc@[j]).place <= usize::MAX,
            j <= qmc.len(),
            sends_of(sends@) == jobs + Seq::new(
                j as nat,
                |j: int| spec_qmc_dispatch(second, first.len(), count, j),
            ),
        decreases qmc.len() - j,
    {
        let ghost sent = sends@;
        let job = Job {
            id: ncm.len() + qmc[j].place,
            source: qmc[j].source.clone(),
            variant: PipelineVariant::Qmc(qmc[j].format),
        };
        sends.push(Dispatch { worker: j % workers, message: Message::Work(job) });
        proof {
            assert(second[j as int] == qmc@[j as int]@);
            assert(sends@.last()@ == spec_qmc_dispatch(second, first.len(), count, j as int));
            assert(sends_of(sends@) =~= sends_of(sent).push(sends@.last()@));
        }
        j = j + 1;
        assert(sends_of(sends@) =~= jobs + Seq::new(
            j as nat,
            |j: int| spec_qmc_dispatch(second, first.len(), count, j),
        ));
    }
    let ghost all_jobs = jobs + Seq::new(
        qmc@.len(),
        |j: int| spec_qmc_dispatch(second, first.len(), count, j),
    );
    let mut w: usize = 0;
    while w < workers
        invariant
            w <= workers,
            sends_of(sends@) == all_jobs + Seq::new(w as nat, |w: int| spec_shutdown(w)),
        decreases workers - w,
    {
        let ghost sent = sends@;
        sends.push(Dispatch { worker: w, message: Message::Shutdown });
        proof {
            assert(sends@.last()@ == spec_shutdown(w as int));
            assert(sends_of(sends@) =~= sends_of(sent).push(sends@.last()@));
        }
        w = w + 1;
        assert(sends_of(sends@) =~= all_jobs + Seq::new(w as nat, |w: int| spec_shutdown(w)));
    }
    sends
}

/// Plans a run: every NCM input becomes a job, every QMC input is checked by
/// its name first and becomes a job only if it passes, and the jobs are laid
/// out over the workers. The inputs must be few enough to be counted in the
/// machine's word.
pub fn plan(ncm: &Vec<String>, qmc: &Vec<String>, workers: usize) -> (batch: Batch)
    requires
        ncm@.len() + qmc@.len() <= usize::MAX,
    ensures
        sends_of(batch.sends@) == spec_schedule(
            names_of(ncm@),
            spec_accepted(names_of(qmc@)),
            workers as nat,
        ),
        rejections_of(batch.rejected@) == spec_rejected(names_of(qmc@)),
{
    let (accepted, rejected) = sort_out(qmc);
    proof {
        lemma_accepted_passed_check(names_of(qmc@));
        assert forall|j: int| 0 <= j < accepted@.len() implies ncm@.len() + (
        #[trigger] accepted@[j]).place <= usize::MAX by {
            assert(accepted_of(accepted@)[j].place == accepted@[j].place);
        }
    }
    let sends = schedule(ncm, &accepted, workers);
    Batch { sends, rejected }
}

} // verus!
