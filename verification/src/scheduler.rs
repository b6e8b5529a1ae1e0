//! Admission control. A `Queue` holds the jobs of one priority class and
//! lets at most `limit` of them run at once; the `Scheduler` steps the two
//! queues in turn and hands the cpu-intensive queue's capacity to the
//! regular queue once the former has drained.

use crate::cli_report::{complaint, CliReport, CliReportView};
use crate::config::{Configuration, ConfigurationView};
use crate::effect::{Action, ActionView, Reply, ReplyView};
use crate::runner::{
    Ended, EndedView, Finished, FinishedView, Finishing, FinishingView, New, NewView, Runner,
    RunnerView, Running, RunningView, Started, StartedView, Starting, StartingView,
};
use crate::util::Arch;
use vstd::multiset::*;
use vstd::prelude::*;
use vstd::seq_lib::*;
use vstd::string::*;

verus! {

/// The pause between two rounds of polling, in milliseconds.
pub const POLL_INTERVAL: u64 = 100;

/// What a queue is doing within a step.
#[derive(Debug)]
pub enum Stage {
    /// Nothing: the queue is between two steps.
    Idle,
    /// Announcing the start of an admitted job.
    Announce(Runner<New>),
    /// Starting an admitted job.
    Start(Runner<Starting>),
    /// Polling the running job at this position.
    Poll(usize),
    /// Ending a job.
    Finish(Runner<Finishing>),
    /// Telling the sidecar how a job went.
    Report(Runner<Finished>),
    /// Warning that the sidecar could not be told.
    Complain(Runner<Finished>, String),
    /// Printing how a job went.
    Conclude(Runner<Finished>),
}

/// What a `Stage` holds, as contracts speak of it.
pub enum StageView {
    Idle,
    Announce(RunnerView<NewView>),
    Start(RunnerView<StartingView>),
    Poll(usize),
    Finish(RunnerView<FinishingView>),
    Report(RunnerView<FinishedView>),
    Complain(RunnerView<FinishedView>, Seq<char>),
    Conclude(RunnerView<FinishedView>),
}

impl View for Stage {
    type V = StageView;

    open spec fn view(&self) -> StageView {
        match self {
            Stage::Idle => StageView::Idle,
            Stage::Announce(r) => StageView::Announce(r@),
            Stage::Start(r) => StageView::Start(r@),
            Stage::Poll(i) => StageView::Poll(*i),
            Stage::Finish(r) => StageView::Finish(r@),
            Stage::Report(r) => StageView::Report(r@),
            Stage::Complain(r, line) => StageView::Complain(r@, line@),
            Stage::Conclude(r) => StageView::Conclude(r@),
        }
    }
}

impl StageView {
    /// How many jobs the stage holds: a job that is being started or ended
    /// is in none of the queue's three sets.
    pub open spec fn jobs(self) -> nat {
        match self {
            StageView::Idle => 0,
            StageView::Poll(_) => 0,
            _ => 1,
        }
    }
}

/// The jobs of one priority class.
#[derive(Debug)]
pub struct Queue {
    limit: usize,
    waiting: Vec<Runner<New>>,
    running: Vec<Runner<Running>>,
    finished: Vec<Runner<Finished>>,
    reporting: Option<CliReport>,
    stage: Stage,
    collecting: bool,
    ready: Vec<usize>,
}

/// What a `Queue` holds, as contracts speak of it.
pub struct QueueView {
    /// How many jobs may run at once.
    pub limit: usize,
    /// The jobs not yet started; the last is started first.
    pub waiting: Seq<RunnerView<NewView>>,
    pub running: Seq<RunnerView<RunningView>>,
    pub finished: Seq<RunnerView<FinishedView>>,
    pub reporting: Option<CliReportView>,
    pub stage: StageView,
    /// Within a step: whether admission is over and the running jobs are
    /// being polled and collected.
    pub collecting: bool,
    /// While collecting: the positions in `running` of the jobs found ready
    /// and not yet ended, in ascending order.
    pub ready: Seq<usize>,
}

impl View for Queue {
    type V = QueueView;

    closed spec fn view(&self) -> QueueView {
        QueueView {
            limit: self.limit,
            waiting: self.waiting.deep_view(),
            running: self.running.deep_view(),
            finished: self.finished.deep_view(),
            reporting: self.reporting.deep_view(),
            stage: self.stage@,
            collecting: self.collecting,
            ready: self.ready@,
        }
    }
}

/// Whether `s` is strictly ascending and stays below `bound`.
pub open spec fn ascending_below(s: Seq<usize>, bound: int) -> bool {
    &&& forall|a: int, b: int| 0 <= a < b < s.len() ==> s[a] < s[b]
    &&& forall|a: int| 0 <= a < s.len() ==> s[a] < bound
}

impl QueueView {
    /// A queue of jobs that wait, with nothing running or finished.
    pub open spec fn new(
        runners: Seq<RunnerView<NewView>>,
        limit: usize,
        reporting: Option<CliReportView>,
    ) -> QueueView {
        QueueView {
            limit,
            waiting: runners,
            running: Seq::empty(),
            finished: Seq::empty(),
            reporting,
            stage: StageView::Idle,
            collecting: false,
            ready: Seq::empty(),
        }
    }

    /// The queue's invariant: never more jobs running than the limit
    /// allows, room for the job that is being started, and the positions
    /// of the ready jobs in order and in range.
    pub open spec fn wf(self) -> bool {
        &&& self.running.len() <= self.limit
        &&& match self.stage {
            StageView::Idle => !self.collecting && self.ready.len() == 0,
            StageView::Announce(_) => !self.collecting && self.running.len() < self.limit,
            StageView::Start(_) => !self.collecting && self.running.len() < self.limit,
            StageView::Poll(i) => self.collecting && i < self.running.len() && ascending_below(
                self.ready,
                i as int,
            ),
            StageView::Report(_) => self.reporting is Some,
            _ => true,
        }
        &&& !self.collecting ==> self.ready.len() == 0
        &&& ascending_below(self.ready, self.running.len() as int)
    }

    /// The number of the queue's jobs, wherever they are.
    pub open spec fn jobs(self) -> nat {
        self.waiting.len() + self.running.len() + self.finished.len() + self.stage.jobs()
    }

    /// Whether no job waits and none runs.
    pub open spec fn is_finished(self) -> bool {
        self.waiting.len() == 0 && self.running.len() == 0
    }

    /// Whether the queue has capacity that it no longer needs.
    pub open spec fn can_yield(self) -> bool {
        self.is_finished() && self.limit > 0
    }

    /// Whether a waiting job may be started now.
    pub open spec fn admits(self) -> bool {
        self.waiting.len() > 0 && self.running.len() < self.limit
    }

    /// The queue brought to the next point of its step at which something
    /// is to be done: while it admits, the last waiting job is taken to be
    /// started; then the running jobs are polled from the first on; then
    /// the ready ones are taken out to be ended, the one at the highest
    /// position first, its place filled by the last; then the step is over.
    pub open spec fn settle(self) -> QueueView {
        if !self.collecting && self.admits() {
            QueueView {
                waiting: self.waiting.drop_last(),
                stage: StageView::Announce(self.waiting.last()),
                ..self
            }
        } else if !self.collecting && self.running.len() > 0 {
            QueueView { collecting: true, ready: Seq::empty(), stage: StageView::Poll(0), ..self }
        } else if self.collecting && self.ready.len() > 0 && self.ready.last()
            < self.running.len() {
            let i = self.ready.last() as int;
            QueueView {
                ready: self.ready.drop_last(),
                running: self.running.update(i, self.running.last()).drop_last(),
                stage: StageView::Finish(self.running[i].finish()),
                ..self
            }
        } else {
            QueueView {
                collecting: false,
                ready: Seq::empty(),
                stage: StageView::Idle,
                ..self
            }
        }
    }

    /// The queue as its step begins.
    pub open spec fn begin(self) -> QueueView {
        QueueView {
            collecting: false,
            ready: Seq::empty(),
            stage: StageView::Idle,
            ..self
        }.settle()
    }

    /// What is to be done next; nothing between two steps.
    pub open spec fn action(self, template: Seq<char>) -> Option<ActionView> {
        match self.stage {
            StageView::Idle => None,
            StageView::Announce(r) => Some(ActionView::Print { line: r.report_console() }),
            StageView::Start(r) => Some(r.action(template)),
            StageView::Poll(i) => Some(ActionView::Poll { job: self.running[i as int].index }),
            StageView::Finish(r) => Some(r.action()),
            StageView::Report(r) => Some(
                ActionView::Run {
                    command: self.reporting->0.test_result(r.name, r.success()),
                },
            ),
            StageView::Complain(_, line) => Some(ActionView::Warn { line }),
            StageView::Conclude(r) => Some(ActionView::Print { line: r.report_console() }),
        }
    }

    /// The queue after a finished job was handed over to be reported.
    pub open spec fn add_finished(self, r: RunnerView<FinishedView>) -> QueueView {
        QueueView {
            stage: if self.reporting is Some {
                StageView::Report(r)
            } else {
                StageView::Conclude(r)
            },
            ..self
        }
    }

    /// The queue after its pending action was answered by `reply` at time
    /// `now`.
    pub open spec fn step(self, now: u64, reply: ReplyView) -> QueueView {
        match self.stage {
            StageView::Idle => self,
            StageView::Announce(r) => QueueView { stage: StageView::Start(r.run(now)), ..self },
            StageView::Start(r) => match r.advance(now, reply) {
                StartedView::Pending(next) => QueueView { stage: StageView::Start(next), ..self },
                StartedView::Running(next) => QueueView {
                    running: self.running.push(next),
                    stage: StageView::Idle,
                    ..self
                }.settle(),
                StartedView::Failed(next) => QueueView { stage: StageView::Finish(next), ..self },
                StartedView::Finished(next) => self.add_finished(next),
            },
            StageView::Poll(i) => {
                let ready = if reply is Pending {
                    self.ready
                } else {
                    self.ready.push(i)
                };
                if i + 1 < self.running.len() {
                    QueueView { ready, stage: StageView::Poll((i + 1) as usize), ..self }
                } else {
                    QueueView { ready, stage: StageView::Idle, ..self }.settle()
                }
            },
            StageView::Finish(r) => match r.advance(now, reply) {
                EndedView::Pending(next) => QueueView { stage: StageView::Finish(next), ..self },
                EndedView::Finished(next) => self.add_finished(next),
            },
            StageView::Report(r) => match complaint("test-result"@, reply) {
                Some(line) => QueueView { stage: StageView::Complain(r, line), ..self },
                None => QueueView { stage: StageView::Conclude(r), ..self },
            },
            StageView::Complain(r, _) => QueueView { stage: StageView::Conclude(r), ..self },
            StageView::Conclude(r) => QueueView {
                finished: self.finished.push(r),
                stage: StageView::Idle,
                ..self
            }.settle(),
        }
    }
}

/// Settling keeps the invariant, the limit and the number of jobs.
pub proof fn lemma_settle(q: QueueView)
    requires
        q.running.len() <= q.limit,
        q.stage is Idle,
        !q.collecting ==> q.ready.len() == 0,
        ascending_below(q.ready, q.running.len() as int),
    ensures
        q.settle().wf(),
        q.settle().limit == q.limit,
        q.settle().jobs() == q.jobs(),
        q.settle().reporting == q.reporting,
        q.settle().finished == q.finished,
        q.settle().waiting.is_prefix_of(q.waiting),
{
    if !q.collecting && q.admits() {
        assert(q.waiting.drop_last() =~= q.waiting.subrange(0, q.waiting.len() - 1));
    } else {
        assert(q.waiting =~= q.waiting.subrange(0, q.waiting.len() as int));
    }
}

/// A queue without capacity starts no job: it admits none, and when its
/// step begins nothing is announced.
pub proof fn lemma_no_start_without_capacity(q: QueueView)
    requires
        q.limit == 0,
        q.wf(),
    ensures
        !q.admits(),
        !(q.begin().stage is Announce),
        q.running.len() == 0,
{
}

/// Whatever the reply, a step of a queue keeps its invariant, so that
/// after it no more jobs run than the limit allows; it leaves the limit
/// alone; and it neither loses nor gains a job. No job goes back: the
/// waiting ones only lose their last, the finished ones only gain one at
/// their end.
pub proof fn lemma_queue_step(q: QueueView, now: u64, reply: ReplyView)
    requires
        q.wf(),
    ensures
        q.step(now, reply).wf(),
        q.step(now, reply).running.len() <= q.step(now, reply).limit,
        q.step(now, reply).limit == q.limit,
        q.step(now, reply).jobs() == q.jobs(),
        q.step(now, reply).reporting == q.reporting,
        q.step(now, reply).waiting.is_prefix_of(q.waiting),
        q.finished.is_prefix_of(q.step(now, reply).finished),
{
    assert(q.waiting =~= q.waiting.subrange(0, q.waiting.len() as int));
    assert(q.finished =~= q.finished.subrange(0, q.finished.len() as int));
    match q.stage {
        StageView::Conclude(r) => {
            assert(q.finished =~= q.finished.push(r).subrange(0, q.finished.len() as int));
        },
        _ => {},
    }
    match q.stage {
        StageView::Start(r) => {
            match r.advance(now, reply) {
                StartedView::Running(next) => {
                    lemma_settle(
                        QueueView {
                            running: q.running.push(next),
                            stage: StageView::Idle,
                            ..q
                        },
                    );
                },
                _ => {},
            }
        },
        StageView::Poll(i) => {
            let ready = if reply is Pending {
                q.ready
            } else {
                q.ready.push(i)
            };
            if i + 1 < q.running.len() {
            } else {
                lemma_settle(QueueView { ready, stage: StageView::Idle, ..q });
            }
        },
        StageView::Conclude(r) => {
            lemma_settle(
                QueueView { finished: q.finished.push(r), stage: StageView::Idle, ..q },
            );
        },
        _ => {},
    }
}

/// The identities of the jobs in `runners`, index and name, each as often
/// as it occurs.
pub open spec fn identities<S>(runners: Seq<RunnerView<S>>) -> Multiset<(usize, Seq<char>)> {
    runners.map_values(|r: RunnerView<S>| r.identity()).to_multiset()
}

impl StageView {
    /// The identity of the job that the stage holds, if it holds one.
    pub open spec fn held(self) -> Multiset<(usize, Seq<char>)> {
        match self {
            StageView::Idle => Multiset::empty(),
            StageView::Poll(_) => Multiset::empty(),
            StageView::Announce(r) => Multiset::singleton(r.identity()),
            StageView::Start(r) => Multiset::singleton(r.identity()),
            StageView::Finish(r) => Multiset::singleton(r.identity()),
            StageView::Report(r) => Multiset::singleton(r.identity()),
            StageView::Complain(r, _) => Multiset::singleton(r.identity()),
            StageView::Conclude(r) => Multiset::singleton(r.identity()),
        }
    }
}

impl QueueView {
    /// The identities of all the queue's jobs: of those that wait, run or
    /// are finished, and of the one that is being started or ended.
    pub open spec fn held(self) -> Multiset<(usize, Seq<char>)> {
        identities(self.waiting).add(identities(self.running)).add(identities(self.finished)).add(
            self.stage.held(),
        )
    }
}

proof fn lemma_identities_push<S>(runners: Seq<RunnerView<S>>, r: RunnerView<S>)
    ensures
        identities(runners.push(r)) == identities(runners).insert(r.identity()),
{
    broadcast use group_to_multiset_ensures;

    let f = |r: RunnerView<S>| r.identity();
    assert(runners.push(r).map_values(f) =~= runners.map_values(f).push(r.identity()));
}

proof fn lemma_identities_drop_last<S>(runners: Seq<RunnerView<S>>)
    requires
        runners.len() > 0,
    ensures
        identities(runners) == identities(runners.drop_last()).insert(runners.last().identity()),
{
    assert(runners =~= runners.drop_last().push(runners.last()));
    lemma_identities_push(runners.drop_last(), runners.last());
}

proof fn lemma_identities_swap_remove<S>(runners: Seq<RunnerView<S>>, i: int)
    requires
        0 <= i < runners.len(),
    ensures
        identities(runners) == identities(runners.update(i, runners.last()).drop_last()).insert(
            runners[i].identity(),
        ),
{
    broadcast use group_to_multiset_ensures;

    let f = |r: RunnerView<S>| r.identity();
    let rest = runners.drop_last();
    lemma_identities_drop_last(runners);
    if i == runners.len() - 1 {
        assert(runners.update(i, runners.last()).drop_last() =~= rest);
    } else {
        let moved = rest.update(i, runners.last());
        assert(runners.update(i, runners.last()).drop_last() =~= moved);
        assert(moved.map_values(f) =~= rest.map_values(f).update(i, runners.last().identity()));
        assert(rest.map_values(f)[i] == runners[i].identity());
        assert(identities(moved) == identities(rest).insert(runners.last().identity()).remove(
            runners[i].identity(),
        ));
        assert(rest.map_values(f).contains(runners[i].identity()));
        assert(identities(rest).count(runners[i].identity()) > 0);
        assert(identities(moved).insert(runners[i].identity()) =~= identities(rest).insert(
            runners.last().identity(),
        ));
    }
}

proof fn lemma_settle_holds_the_same(q: QueueView)
    requires
        q.stage is Idle,
    ensures
        q.settle().held() == q.held(),
{
    if !q.collecting && q.admits() {
        lemma_identities_drop_last(q.waiting);
        assert(q.settle().held() =~= q.held());
    } else if !q.collecting && q.running.len() > 0 {
    } else if q.collecting && q.ready.len() > 0 && q.ready.last() < q.running.len() {
        lemma_identities_swap_remove(q.running, q.ready.last() as int);
        assert(q.settle().held() =~= q.held());
    } else {
    }
}

/// Whatever the reply, a step of a queue holds the same jobs after it as
/// before it, by index and by name: every job is at every time in exactly
/// one of the waiting, the running and the finished ones, or is the one
/// being started or ended.
pub proof fn lemma_queue_step_holds_the_same(q: QueueView, now: u64, reply: ReplyView)
    ensures
        q.step(now, reply).held() == q.held(),
{
    match q.stage {
        StageView::Start(r) => {
            crate::runner::lemma_start_moves_forward(r, now, reply);
            match r.advance(now, reply) {
                StartedView::Running(next) => {
                    let pushed = QueueView {
                        running: q.running.push(next),
                        stage: StageView::Idle,
                        ..q
                    };
                    lemma_identities_push(q.running, next);
                    lemma_settle_holds_the_same(pushed);
                    assert(pushed.held() =~= q.held());
                },
                _ => {},
            }
        },
        StageView::Poll(i) => {
            let ready = if reply is Pending {
                q.ready
            } else {
                q.ready.push(i)
            };
            if i + 1 < q.running.len() {
            } else {
                lemma_settle_holds_the_same(QueueView { ready, stage: StageView::Idle, ..q });
            }
        },
        StageView::Finish(r) => {
            crate::runner::lemma_end_moves_forward(r, now, reply);
        },
        StageView::Conclude(r) => {
            let pushed = QueueView {
                finished: q.finished.push(r),
                stage: StageView::Idle,
                ..q
            };
            lemma_identities_push(q.finished, r);
            lemma_settle_holds_the_same(pushed);
            assert(pushed.held() =~= q.held());
        },
        _ => {},
    }
}

impl Queue {
    /// A queue of `runners`, all waiting, of which at most `limit` may run
    /// at once.
    pub fn new(runners: Vec<Runner<New>>, limit: usize, reporting: Option<CliReport>) -> (q: Queue)
        ensures
            q@ == QueueView::new(runners.deep_view(), limit, reporting.deep_view()),
            q@.wf(),
    {
        let q = Queue {
            limit,
            reporting,
            waiting: runners,
            running: Vec::new(),
            finished: Vec::new(),
            stage: Stage::Idle,
            collecting: false,
            ready: Vec::new(),
        };
        assert(q.running.deep_view() =~= Seq::empty());
        assert(q.finished.deep_view() =~= Seq::empty());
        q
    }

    /// How many jobs may run at once.
    pub fn limit(&self) -> (r: usize)
        ensures
            r == self@.limit,
    {
        self.limit
    }

    /// How many jobs wait.
    pub fn waiting(&self) -> (r: usize)
        ensures
            r == self@.waiting.len(),
    {
        self.waiting.len()
    }

    /// How many jobs run.
    pub fn running(&self) -> (r: usize)
        ensures
            r == self@.running.len(),
            self@.wf() ==> r <= self@.limit,
    {
        self.running.len()
    }

    /// Whether no job waits and none runs.
    pub fn is_finished(&self) -> (r: bool)
        ensures
            r == self@.is_finished(),
    {
        self.waiting.is_empty() && self.running.is_empty()
    }

    /// Whether the queue has capacity that it no longer needs.
    pub fn can_yield(&self) -> (r: bool)
        ensures
            r == self@.can_yield(),
    {
        self.is_finished() && self.limit > 0
    }

    /// Whether the queue is between two steps.
    pub fn is_idle(&self) -> (r: bool)
        ensures
            r == (self@.stage is Idle),
    {
        match self.stage {
            Stage::Idle => true,
            _ => false,
        }
    }

    /// The finished jobs, in the order in which they finished.
    pub fn finished(&self) -> (r: &Vec<Runner<Finished>>)
        ensures
            r.deep_view() == self@.finished,
    {
        &self.finished
    }

    /// Takes the last waiting job to be started.
    fn schedule(self) -> (q: Queue)
        requires
            !self@.collecting,
            self@.admits(),
        ensures
            q@ == self@.settle(),
    {
        let mut waiting = self.waiting;
        let ghost before = waiting.deep_view();
        let runner = waiting.pop().unwrap();
        assert(waiting.deep_view() =~= before.drop_last());
        assert(runner@ == before.last());
        Queue {
            limit: self.limit,
            waiting,
            running: self.running,
            finished: self.finished,
            reporting: self.reporting,
            stage: Stage::Announce(runner),
            collecting: self.collecting,
            ready: self.ready,
        }
    }

    /// Takes the ready job at the highest position out of the running set
    /// to be ended; when none is left, the step is over.
    fn collect_finished(self) -> (q: Queue)
        requires
            self@.collecting || !self@.admits() && self@.running.len() == 0,
        ensures
            q@ == self@.settle(),
    {
        let mut ready = self.ready;
        let mut running = self.running;
        if self.collecting && ready.len() > 0 && ready[ready.len() - 1] < running.len() {
            let ghost positions = ready@;
            let ghost before = running.deep_view();
            let index = ready.pop().unwrap();
            let runner = running.swap_remove(index);
            assert(ready@ =~= positions.drop_last());
            assert(running.deep_view() =~= before.update(index as int, before.last()).drop_last());
            assert(runner@ == before[index as int]);
            Queue {
                limit: self.limit,
                waiting: self.waiting,
                running,
                finished: self.finished,
                reporting: self.reporting,
                stage: Stage::Finish(runner.finish()),
                collecting: self.collecting,
                ready,
            }
        } else {
            Queue {
                limit: self.limit,
                waiting: self.waiting,
                running,
                finished: self.finished,
                reporting: self.reporting,
                stage: Stage::Idle,
                collecting: false,
                ready: Vec::new(),
            }
        }
    }

    fn settle(self) -> (q: Queue)
        ensures
            q@ == self@.settle(),
    {
        if !self.collecting {
            if self.waiting.len() > 0 && self.running.len() < self.limit {
                return self.schedule();
            }
            if self.running.len() > 0 {
                return Queue {
                    limit: self.limit,
                    waiting: self.waiting,
                    running: self.running,
                    finished: self.finished,
                    reporting: self.reporting,
                    stage: Stage::Poll(0),
                    collecting: true,
                    ready: Vec::new(),
                };
            }
        }
        self.collect_finished()
    }

    /// Begins a step of the queue.
    pub fn begin(self) -> (q: Queue)
        requires
            self@.wf(),
            self@.stage is Idle,
        ensures
            q@ == self@.begin(),
            q@.wf(),
            q@.limit == self@.limit,
            q@.jobs() == self@.jobs(),
    {
        proof {
            lemma_settle(
                QueueView {
                    collecting: false,
                    ready: Seq::empty(),
                    stage: StageView::Idle,
                    ..self@
                },
            );
        }
        let q = Queue {
            limit: self.limit,
            waiting: self.waiting,
            running: self.running,
            finished: self.finished,
            reporting: self.reporting,
            stage: Stage::Idle,
            collecting: false,
            ready: Vec::new(),
        };
        q.settle()
    }

    /// What is to be done next; nothing between two steps. `template` is
    /// the text of the machine description with its markers.
    pub fn action(&self, template: &str) -> (action: Option<Action>)
        requires
            self@.wf(),
        ensures
            action.deep_view() == self@.action(template@),
    {
        match &self.stage {
            Stage::Idle => None,
            Stage::Announce(r) => Some(Action::Print { line: r.report_console() }),
            Stage::Start(r) => Some(r.action(template)),
            Stage::Poll(i) => {
                assert(self.running.deep_view()[*i as int] == self.running[*i as int]@);
                Some(self.running[*i].poll())
            },
            Stage::Finish(r) => Some(r.action()),
            Stage::Report(r) => match &self.reporting {
                Some(reporting) => Some(reporting.test_result(r.name(), r.success())),
                None => None,
            },
            Stage::Complain(_, line) => Some(Action::Warn { line: line.clone() }),
            Stage::Conclude(r) => Some(Action::Print { line: r.report_console() }),
        }
    }

    /// Hands a finished job over to be reported.
    fn add_finished(self, runner: Runner<Finished>) -> (q: Queue)
        ensures
            q@ == self@.add_finished(runner@),
    {
        let stage = if self.reporting.is_some() {
            Stage::Report(runner)
        } else {
            Stage::Conclude(runner)
        };
        Queue {
            limit: self.limit,
            waiting: self.waiting,
            running: self.running,
            finished: self.finished,
            reporting: self.reporting,
            stage,
            collecting: self.collecting,
            ready: self.ready,
        }
    }

    fn at(self, stage: Stage) -> (q: Queue)
        ensures
            q@ == (QueueView { stage: stage@, ..self@ }),
    {
        Queue {
            limit: self.limit,
            waiting: self.waiting,
            running: self.running,
            finished: self.finished,
            reporting: self.reporting,
            stage,
            collecting: self.collecting,
            ready: self.ready,
        }
    }

    /// Takes the reply to the pending action, given at time `now`, and
    /// brings the queue to its next action or to the end of its step.
    pub fn step(self, now: u64, reply: Reply) -> (q: Queue)
        requires
            self@.wf(),
        ensures
            q@ == self@.step(now, reply@),
            q@.wf(),
            q@.running.len() <= q@.limit,
            q@.limit == self@.limit,
            q@.jobs() == self@.jobs(),
    {
        proof {
            lemma_queue_step(self@, now, reply@);
        }
        let Queue { limit, waiting, running, finished, reporting, stage, collecting, ready } = self;
        let rest = Queue {
            limit,
            waiting,
            running,
            finished,
            reporting,
            stage: Stage::Idle,
            collecting,
            ready,
        };
        match stage {
            Stage::Idle => rest,
            Stage::Announce(r) => rest.at(Stage::Start(r.run(now))),
            Stage::Start(r) => match r.advance(now, reply) {
                Started::Pending(next) => rest.at(Stage::Start(next)),
                Started::Running(next) => {
                    let mut q = rest;
                    let ghost before = q.running.deep_view();
                    q.running.push(next);
                    assert(q.running.deep_view() =~= before.push(next@));
                    q.settle()
                },
                Started::Failed(next) => rest.at(Stage::Finish(next)),
                Started::Finished(next) => rest.add_finished(next),
            },
            Stage::Poll(i) => {
                let mut q = rest;
                let is_ready = match reply {
                    Reply::Pending => false,
                    _ => true,
                };
                if is_ready {
                    q.ready.push(i);
                }
                if i + 1 < q.running.len() {
                    q.at(Stage::Poll(i + 1))
                } else {
                    q.settle()
                }
            },
            Stage::Finish(r) => match r.advance(now, reply) {
                Ended::Pending(next) => rest.at(Stage::Finish(next)),
                Ended::Finished(next) => rest.add_finished(next),
            },
            Stage::Report(r) => match CliReport::complain("test-result", reply) {
                Some(line) => rest.at(Stage::Complain(r, line)),
                None => rest.at(Stage::Conclude(r)),
            },
            Stage::Complain(r, _) => rest.at(Stage::Conclude(r)),
            Stage::Conclude(r) => {
                let mut q = rest;
                let ghost before = q.finished.deep_view();
                q.finished.push(r);
                assert(q.finished.deep_view() =~= before.push(r@));
                q.settle()
            },
        }
    }
}

/// Whose turn it is in a round of the schedule.
#[derive(Clone, Copy, Debug, PartialEq, Eq, Structural)]
pub enum Turn {
    /// Nothing has begun: every job waits.
    Start,
    /// The cpu-intensive queue is being stepped.
    CpuIntensive,
    /// The regular queue is being stepped.
    Regular,
    /// Both queues were stepped; a pause follows.
    Sleep,
    /// Every job is finished.
    Done,
}

/// The two queues and the round they are in.
#[derive(Debug)]
pub struct Scheduler {
    cpu_itensive: Queue,
    regular: Queue,
    turn: Turn,
    template: String,
}

/// What a `Scheduler` holds, as contracts speak of it.
pub struct SchedulerView {
    pub cpu_intensive: QueueView,
    pub regular: QueueView,
    pub turn: Turn,
    /// The text of the machine description with its markers.
    pub template: Seq<char>,
}

impl View for Scheduler {
    type V = SchedulerView;

    closed spec fn view(&self) -> SchedulerView {
        SchedulerView {
            cpu_intensive: self.cpu_itensive@,
            regular: self.regular@,
            turn: self.turn,
            template: self.template@,
        }
    }
}

/// The overall limit of a configuration: one job at a time unless it says
/// otherwise.
pub open spec fn overall_limit(config: ConfigurationView) -> usize {
    match config.concurrent_limit {
        Some(limit) => limit,
        None => 1,
    }
}

/// The cpu-intensive queue's share of an overall limit: a quarter and one
/// when more than one job may run at once, else nothing.
pub open spec fn cpu_share(limit: usize) -> usize {
    if limit > 1 {
        (limit / 4 + 1) as usize
    } else {
        0
    }
}

/// Whether the suite at position `i` goes to the cpu-intensive queue: it
/// must be cpu-intensive, and that queue must have a share at all.
pub open spec fn in_cpu_class(config: ConfigurationView, i: int) -> bool {
    cpu_share(overall_limit(config)) > 0 && config.suites[i].is_cpu_intensive()
}

/// The job of the suite at position `i`; the position is its index.
pub open spec fn job(config: ConfigurationView, log_path: Seq<char>, arch: Arch, i: int) -> RunnerView<
    NewView,
> {
    RunnerView::<NewView>::new(
        i as usize,
        config.vm.memory,
        config.jobs,
        config.timeout(),
        config.suites[i],
        log_path,
        arch,
    )
}

/// The jobs of the first `n` suites that belong to one class, in the
/// suites' order.
pub open spec fn class_jobs(
    config: ConfigurationView,
    log_path: Seq<char>,
    arch: Arch,
    cpu: bool,
    n: nat,
) -> Seq<RunnerView<NewView>>
    decreases n,
{
    if n == 0 {
        Seq::empty()
    } else {
        let rest = class_jobs(config, log_path, arch, cpu, (n - 1) as nat);
        if in_cpu_class(config, n - 1) == cpu {
            rest.push(job(config, log_path, arch, n - 1))
        } else {
            rest
        }
    }
}

impl SchedulerView {
    /// Whether both queues are between two steps.
    pub open spec fn idle(self) -> bool {
        self.cpu_intensive.stage is Idle && self.regular.stage is Idle
    }

    /// The scheduler's invariant: both queues keep theirs, the two limits
    /// together are what the configuration allowed, and exactly the queue
    /// whose turn it is is within a step. Before the start nothing runs or
    /// is finished. A round ends with no capacity left to hand over. The
    /// schedule is done only when nothing waits or runs, and then, unless
    /// there was no job at all, the cpu-intensive queue has handed over its
    /// capacity.
    pub open spec fn wf(self) -> bool {
        &&& self.cpu_intensive.wf()
        &&& self.regular.wf()
        &&& self.cpu_intensive.limit + self.regular.limit <= usize::MAX
        &&& match self.turn {
            Turn::Start => {
                &&& self.idle()
                &&& self.cpu_intensive.running.len() == 0
                &&& self.cpu_intensive.finished.len() == 0
                &&& self.regular.running.len() == 0
                &&& self.regular.finished.len() == 0
            },
            Turn::CpuIntensive => !(self.cpu_intensive.stage is Idle) && self.regular.stage is Idle,
            Turn::Regular => self.cpu_intensive.stage is Idle && !(self.regular.stage is Idle),
            Turn::Sleep => self.idle() && !self.cpu_intensive.can_yield(),
            Turn::Done => {
                &&& self.idle()
                &&& self.cpu_intensive.is_finished()
                &&& self.regular.is_finished()
                &&& self.cpu_intensive.limit == 0 || self.cpu_intensive.jobs()
                    + self.regular.jobs() == 0
            },
        }
    }

    /// Whether `next` has the capacity of `self` in both queues, or is at
    /// the end of a round in which the drained cpu-intensive queue handed
    /// its whole capacity to the regular queue.
    pub open spec fn capacity_kept_or_yielded(self, next: SchedulerView) -> bool {
        ||| next.cpu_intensive.limit == self.cpu_intensive.limit && next.regular.limit
            == self.regular.limit
        ||| {
            &&& self.cpu_intensive.limit > 0
            &&& next.cpu_intensive.limit == 0
            &&& next.regular.limit == self.regular.limit + self.cpu_intensive.limit
            &&& next.cpu_intensive.is_finished()
            &&& next.turn == Turn::Sleep
        }
    }

    /// The scheduler for a configuration: the suites' jobs are divided
    /// between the two queues, where all of them wait, and the overall limit
    /// is split. Nothing has begun.
    pub open spec fn new(
        config: ConfigurationView,
        log_path: Seq<char>,
        reporting: Option<CliReportView>,
        arch: Arch,
        template: Seq<char>,
    ) -> SchedulerView {
        let limit = overall_limit(config);
        SchedulerView {
            cpu_intensive: QueueView::new(
                class_jobs(config, log_path, arch, true, config.suites.len()),
                cpu_share(limit),
                reporting,
            ),
            regular: QueueView::new(
                class_jobs(config, log_path, arch, false, config.suites.len()),
                (limit - cpu_share(limit)) as usize,
                reporting,
            ),
            turn: Turn::Start,
            template,
        }
    }

    /// The scheduler with its first round begun, if it was not yet.
    pub open spec fn begin(self) -> SchedulerView {
        if self.turn == Turn::Start {
            self.round()
        } else {
            self
        }
    }

    /// The capacity transfer: a cpu-intensive queue that can yield gives
    /// its whole limit to the regular queue and keeps none.
    pub open spec fn yielded(self) -> SchedulerView {
        if self.cpu_intensive.can_yield() {
            SchedulerView {
                regular: QueueView {
                    limit: (self.regular.limit + self.cpu_intensive.limit) as usize,
                    ..self.regular
                },
                cpu_intensive: QueueView { limit: 0, ..self.cpu_intensive },
                ..self
            }
        } else {
            self
        }
    }

    /// After the regular queue's step: the capacity transfer, then the
    /// pause.
    pub open spec fn after_regular(self) -> SchedulerView {
        if self.regular.stage is Idle {
            SchedulerView { turn: Turn::Sleep, ..self.yielded() }
        } else {
            self
        }
    }

    /// Moves on from a queue whose step is over: after the cpu-intensive
    /// queue the regular queue is stepped, after that comes the pause.
    pub open spec fn proceed(self) -> SchedulerView {
        match self.turn {
            Turn::CpuIntensive => if self.cpu_intensive.stage is Idle {
                SchedulerView {
                    regular: self.regular.begin(),
                    turn: Turn::Regular,
                    ..self
                }.after_regular()
            } else {
                self
            },
            Turn::Regular => self.after_regular(),
            _ => self,
        }
    }

    /// The beginning of a round: the schedule is done when no job waits or
    /// runs in either queue; else the cpu-intensive queue is stepped first.
    pub open spec fn round(self) -> SchedulerView {
        if self.cpu_intensive.is_finished() && self.regular.is_finished() {
            SchedulerView { turn: Turn::Done, ..self }
        } else {
            SchedulerView {
                cpu_intensive: self.cpu_intensive.begin(),
                turn: Turn::CpuIntensive,
                ..self
            }.proceed()
        }
    }

    /// What is to be done next; nothing before the start and when the
    /// schedule is done.
    pub open spec fn action(self) -> Option<ActionView> {
        match self.turn {
            Turn::Start => None,
            Turn::CpuIntensive => self.cpu_intensive.action(self.template),
            Turn::Regular => self.regular.action(self.template),
            Turn::Sleep => Some(ActionView::Sleep { millis: POLL_INTERVAL }),
            Turn::Done => None,
        }
    }

    /// The scheduler after its pending action was answered by `reply` at
    /// time `now`. Before the start there is no action to answer: the step
    /// begins the first round, with no pause before it.
    pub open spec fn run(self, now: u64, reply: ReplyView) -> SchedulerView {
        match self.turn {
            Turn::Start => self.round(),
            Turn::CpuIntensive => SchedulerView {
                cpu_intensive: self.cpu_intensive.step(now, reply),
                ..self
            }.proceed(),
            Turn::Regular => SchedulerView {
                regular: self.regular.step(now, reply),
                ..self
            }.proceed(),
            Turn::Sleep => self.round(),
            Turn::Done => self,
        }
    }

    /// The finished jobs: those of the regular queue, then those of the
    /// cpu-intensive queue.
    pub open spec fn finished(self) -> Seq<RunnerView<FinishedView>> {
        self.regular.finished + self.cpu_intensive.finished
    }
}

proof fn lemma_after_regular(s: SchedulerView)
    requires
        s.cpu_intensive.wf(),
        s.regular.wf(),
        s.cpu_intensive.limit + s.regular.limit <= usize::MAX,
        s.cpu_intensive.stage is Idle,
        s.turn == Turn::Regular,
    ensures
        s.after_regular().wf(),
        s.capacity_kept_or_yielded(s.after_regular()),
        s.after_regular().cpu_intensive.limit <= s.cpu_intensive.limit,
        s.after_regular().cpu_intensive.limit + s.after_regular().regular.limit
            == s.cpu_intensive.limit + s.regular.limit,
        s.after_regular().cpu_intensive.jobs() == s.cpu_intensive.jobs(),
        s.after_regular().regular.jobs() == s.regular.jobs(),
        s.after_regular().template == s.template,
{
}

proof fn lemma_proceed(s: SchedulerView)
    requires
        s.cpu_intensive.wf(),
        s.regular.wf(),
        s.cpu_intensive.limit + s.regular.limit <= usize::MAX,
        s.turn == Turn::CpuIntensive && s.regular.stage is Idle || s.turn == Turn::Regular
            && s.cpu_intensive.stage is Idle,
    ensures
        s.proceed().wf(),
        s.capacity_kept_or_yielded(s.proceed()),
        s.proceed().cpu_intensive.limit <= s.cpu_intensive.limit,
        s.proceed().cpu_intensive.limit + s.proceed().regular.limit == s.cpu_intensive.limit
            + s.regular.limit,
        s.proceed().cpu_intensive.jobs() == s.cpu_intensive.jobs(),
        s.proceed().regular.jobs() == s.regular.jobs(),
        s.proceed().template == s.template,
{
    if s.turn == Turn::CpuIntensive {
        if s.cpu_intensive.stage is Idle {
            lemma_settle(
                QueueView {
                    collecting: false,
                    ready: Seq::empty(),
                    stage: StageView::Idle,
                    ..s.regular
                },
            );
            lemma_after_regular(
                SchedulerView { regular: s.regular.begin(), turn: Turn::Regular, ..s },
            );
        }
    } else {
        lemma_after_regular(s);
    }
}

proof fn lemma_round(s: SchedulerView)
    requires
        s.wf(),
        s.turn == Turn::Sleep || s.turn == Turn::Start,
    ensures
        s.round().wf(),
        s.capacity_kept_or_yielded(s.round()),
        s.round().cpu_intensive.limit <= s.cpu_intensive.limit,
        s.round().cpu_intensive.limit + s.round().regular.limit == s.cpu_intensive.limit
            + s.regular.limit,
        s.round().cpu_intensive.jobs() == s.cpu_intensive.jobs(),
        s.round().regular.jobs() == s.regular.jobs(),
        s.round().template == s.template,
{
    if !(s.cpu_intensive.is_finished() && s.regular.is_finished()) {
        lemma_settle(
            QueueView {
                collecting: false,
                ready: Seq::empty(),
                stage: StageView::Idle,
                ..s.cpu_intensive
            },
        );
        lemma_proceed(
            SchedulerView {
                cpu_intensive: s.cpu_intensive.begin(),
                turn: Turn::CpuIntensive,
                ..s
            },
        );
    }
}

/// Whatever the reply, a step of the schedule keeps the invariant: in each
/// queue no more jobs run than its limit allows. The cpu-intensive queue's
/// limit is never raised, so once it has yielded its capacity it has none
/// for the rest of the run; what it gives up the regular queue gains, and
/// it gives it up only at the end of a round in which it has drained. No
/// job is lost, gained or moved between the queues.
pub proof fn lemma_scheduler_run(s: SchedulerView, now: u64, reply: ReplyView)
    requires
        s.wf(),
    ensures
        s.run(now, reply).wf(),
        s.capacity_kept_or_yielded(s.run(now, reply)),
        s.run(now, reply).cpu_intensive.running.len() <= s.run(now, reply).cpu_intensive.limit,
        s.run(now, reply).regular.running.len() <= s.run(now, reply).regular.limit,
        s.run(now, reply).cpu_intensive.limit <= s.cpu_intensive.limit,
        s.cpu_intensive.limit == 0 ==> s.run(now, reply).cpu_intensive.limit == 0,
        s.run(now, reply).regular.limit >= s.regular.limit,
        s.run(now, reply).cpu_intensive.limit + s.run(now, reply).regular.limit
            == s.cpu_intensive.limit + s.regular.limit,
        s.run(now, reply).cpu_intensive.jobs() == s.cpu_intensive.jobs(),
        s.run(now, reply).regular.jobs() == s.regular.jobs(),
        s.run(now, reply).template == s.template,
{
    match s.turn {
        Turn::CpuIntensive => {
            lemma_queue_step(s.cpu_intensive, now, reply);
            lemma_proceed(SchedulerView { cpu_intensive: s.cpu_intensive.step(now, reply), ..s });
        },
        Turn::Regular => {
            lemma_queue_step(s.regular, now, reply);
            lemma_proceed(SchedulerView { regular: s.regular.step(now, reply), ..s });
        },
        Turn::Sleep => {
            lemma_round(s);
        },
        Turn::Start => {
            lemma_round(s);
        },
        Turn::Done => {},
    }
}

/// Beginning the schedule keeps the invariant and the jobs, and leaves the
/// start behind.
pub proof fn lemma_scheduler_begin(s: SchedulerView)
    requires
        s.wf(),
    ensures
        s.begin().wf(),
        s.begin().turn != Turn::Start,
        s.capacity_kept_or_yielded(s.begin()),
        s.begin().cpu_intensive.jobs() == s.cpu_intensive.jobs(),
        s.begin().regular.jobs() == s.regular.jobs(),
        s.begin().template == s.template,
{
    if s.turn == Turn::Start {
        lemma_round(s);
    }
}

/// When the schedule of at least one job is done, the cpu-intensive queue
/// has no capacity left: all of it has gone to the regular queue.
pub proof fn lemma_done_means_capacity_transferred(s: SchedulerView)
    requires
        s.wf(),
        s.turn == Turn::Done,
        s.cpu_intensive.jobs() + s.regular.jobs() > 0,
    ensures
        s.cpu_intensive.limit == 0,
{
}

/// A well-formed queue has something to do exactly while it is within a
/// step, and a well-formed schedule from its start until it is done.
pub proof fn lemma_action_until_done(s: SchedulerView)
    requires
        s.wf(),
    ensures
        s.cpu_intensive.action(s.template) is None <==> s.cpu_intensive.stage is Idle,
        s.regular.action(s.template) is None <==> s.regular.stage is Idle,
        s.action() is None <==> s.turn == Turn::Done || s.turn == Turn::Start,
{
}

proof fn lemma_begin_holds_the_same(q: QueueView)
    requires
        q.stage is Idle,
    ensures
        q.begin().held() == q.held(),
{
    let fresh = QueueView { collecting: false, ready: Seq::empty(), stage: StageView::Idle, ..q };
    lemma_settle_holds_the_same(fresh);
}

proof fn lemma_proceed_holds_the_same(s: SchedulerView)
    requires
        s.regular.stage is Idle || s.turn == Turn::Regular,
    ensures
        s.proceed().cpu_intensive.held() == s.cpu_intensive.held(),
        s.proceed().regular.held() == s.regular.held(),
{
    if s.turn == Turn::CpuIntensive && s.cpu_intensive.stage is Idle {
        lemma_begin_holds_the_same(s.regular);
    }
}

proof fn lemma_round_holds_the_same(s: SchedulerView)
    requires
        s.cpu_intensive.stage is Idle,
        s.regular.stage is Idle,
    ensures
        s.round().cpu_intensive.held() == s.cpu_intensive.held(),
        s.round().regular.held() == s.regular.held(),
{
    if !(s.cpu_intensive.is_finished() && s.regular.is_finished()) {
        lemma_begin_holds_the_same(s.cpu_intensive);
        lemma_proceed_holds_the_same(
            SchedulerView {
                cpu_intensive: s.cpu_intensive.begin(),
                turn: Turn::CpuIntensive,
                ..s
            },
        );
    }
}

/// Whatever the reply, a step of the schedule leaves each queue holding
/// the jobs that it held: no job is ever in both queues, or in two places
/// within one.
pub proof fn lemma_scheduler_run_holds_the_same(s: SchedulerView, now: u64, reply: ReplyView)
    requires
        s.wf(),
    ensures
        s.run(now, reply).cpu_intensive.held() == s.cpu_intensive.held(),
        s.run(now, reply).regular.held() == s.regular.held(),
{
    match s.turn {
        Turn::CpuIntensive => {
            lemma_queue_step_holds_the_same(s.cpu_intensive, now, reply);
            lemma_proceed_holds_the_same(
                SchedulerView { cpu_intensive: s.cpu_intensive.step(now, reply), ..s },
            );
        },
        Turn::Regular => {
            lemma_queue_step_holds_the_same(s.regular, now, reply);
            lemma_proceed_holds_the_same(
                SchedulerView { regular: s.regular.step(now, reply), ..s },
            );
        },
        Turn::Sleep => {
            lemma_round_holds_the_same(s);
        },
        Turn::Start => {
            lemma_round_holds_the_same(s);
        },
        Turn::Done => {},
    }
}

/// The identity of the job of the suite at position `i`.
pub open spec fn job_identity(config: ConfigurationView, i: int) -> (usize, Seq<char>) {
    (i as usize, config.suites[i].name())
}

/// Whether `id` is the identity of the job of one of the first `n` suites.
pub open spec fn is_job_of(config: ConfigurationView, id: (usize, Seq<char>), n: nat) -> bool {
    id.0 < n && id == job_identity(config, id.0 as int)
}

proof fn lemma_class_jobs_hold_each_job_once(
    config: ConfigurationView,
    log_path: Seq<char>,
    arch: Arch,
    n: nat,
)
    requires
        n <= config.suites.len(),
        n <= usize::MAX,
    ensures
        forall|id: (usize, Seq<char>)|
            #![trigger identities(class_jobs(config, log_path, arch, true, n)).count(id)]
            identities(class_jobs(config, log_path, arch, true, n)).count(id) + identities(
                class_jobs(config, log_path, arch, false, n),
            ).count(id) == if is_job_of(config, id, n) {
                1nat
            } else {
                0nat
            },
    decreases n,
{
    broadcast use group_to_multiset_ensures;

    if n == 0 {
        let f = |r: RunnerView<NewView>| r.identity();
        assert(Seq::<RunnerView<NewView>>::empty().map_values(f) =~= Seq::<
            (usize, Seq<char>),
        >::empty());
    } else {
        let m = (n - 1) as nat;
        lemma_class_jobs_hold_each_job_once(config, log_path, arch, m);
        let cpu = class_jobs(config, log_path, arch, true, m);
        let regular = class_jobs(config, log_path, arch, false, m);
        let added = job(config, log_path, arch, n - 1);
        assert(added.identity() == job_identity(config, n - 1));
        if in_cpu_class(config, n - 1) {
            lemma_identities_push(cpu, added);
        } else {
            lemma_identities_push(regular, added);
        }
        assert forall|id: (usize, Seq<char>)|
            #![trigger identities(class_jobs(config, log_path, arch, true, n)).count(id)]
            identities(class_jobs(config, log_path, arch, true, n)).count(id) + identities(
                class_jobs(config, log_path, arch, false, n),
            ).count(id) == if is_job_of(config, id, n) {
                1nat
            } else {
                0nat
            } by {
            assert(identities(cpu).count(id) + identities(regular).count(id) == if is_job_of(
                config,
                id,
                m,
            ) {
                1nat
            } else {
                0nat
            });
        }
    }
}

/// A new scheduler holds the job of every suite exactly once, and holds it
/// among the waiting ones: the job with the suite's position as its index
/// and the suite's display name as its name waits in one of the two
/// queues, and nothing else does.
pub proof fn lemma_new_scheduler_holds_each_job_once(
    config: ConfigurationView,
    log_path: Seq<char>,
    reporting: Option<CliReportView>,
    arch: Arch,
    template: Seq<char>,
)
    requires
        config.suites.len() <= usize::MAX,
    ensures
        ({
            let s = SchedulerView::new(config, log_path, reporting, arch, template);
            &&& s.cpu_intensive.held() == identities(s.cpu_intensive.waiting)
            &&& s.regular.held() == identities(s.regular.waiting)
            &&& s.cpu_intensive.waiting.len() + s.regular.waiting.len() == config.suites.len()
            &&& forall|id: (usize, Seq<char>)|
                #![trigger s.cpu_intensive.held().count(id)]
                s.cpu_intensive.held().count(id) + s.regular.held().count(id) == if is_job_of(
                    config,
                    id,
                    config.suites.len(),
                ) {
                    1nat
                } else {
                    0nat
                }
        }),
{
    broadcast use group_to_multiset_ensures;

    let n = config.suites.len();
    let s = SchedulerView::new(config, log_path, reporting, arch, template);
    lemma_class_jobs_hold_each_job_once(config, log_path, arch, n);
    lemma_class_jobs_divide_the_suites(config, log_path, arch, n);
    let empty_running = Seq::<RunnerView<RunningView>>::empty();
    let empty_finished = Seq::<RunnerView<FinishedView>>::empty();
    assert(empty_running.map_values(|r: RunnerView<RunningView>| r.identity()) =~= Seq::<
        (usize, Seq<char>),
    >::empty());
    assert(empty_finished.map_values(|r: RunnerView<FinishedView>| r.identity()) =~= Seq::<
        (usize, Seq<char>),
    >::empty());
    assert(s.cpu_intensive.held() =~= identities(s.cpu_intensive.waiting));
    assert(s.regular.held() =~= identities(s.regular.waiting));
}

proof fn lemma_class_jobs_divide_the_suites(
    config: ConfigurationView,
    log_path: Seq<char>,
    arch: Arch,
    n: nat,
)
    requires
        n <= config.suites.len(),
    ensures
        class_jobs(config, log_path, arch, true, n).len() + class_jobs(
            config,
            log_path,
            arch,
            false,
            n,
        ).len() == n,
        cpu_share(overall_limit(config)) == 0 ==> class_jobs(config, log_path, arch, true, n).len()
            == 0,
    decreases n,
{
    if n > 0 {
        lemma_class_jobs_divide_the_suites(config, log_path, arch, (n - 1) as nat);
    }
}

/// Each queue keeps the suites' order: the jobs of a class stand in the
/// order of their indexes, which are the positions of their suites.
pub proof fn lemma_class_jobs_keep_the_order(
    config: ConfigurationView,
    log_path: Seq<char>,
    arch: Arch,
    cpu: bool,
    n: nat,
)
    requires
        n <= config.suites.len(),
        n <= usize::MAX,
    ensures
        forall|a: int|
            0 <= a < class_jobs(config, log_path, arch, cpu, n).len() ==> (#[trigger] class_jobs(
                config,
                log_path,
                arch,
                cpu,
                n,
            )[a]).index < n,
        forall|a: int, b: int|
            0 <= a < b < class_jobs(config, log_path, arch, cpu, n).len() ==> (#[trigger] class_jobs(
                config,
                log_path,
                arch,
                cpu,
                n,
            )[a]).index < (#[trigger] class_jobs(config, log_path, arch, cpu, n)[b]).index,
    decreases n,
{
    if n > 0 {
        let m = (n - 1) as nat;
        lemma_class_jobs_keep_the_order(config, log_path, arch, cpu, m);
        let before = class_jobs(config, log_path, arch, cpu, m);
        let now = class_jobs(config, log_path, arch, cpu, n);
        let added = job(config, log_path, arch, n - 1);
        assert(added.index == n - 1);
        assert forall|a: int| 0 <= a < now.len() implies (#[trigger] now[a]).index < n by {
            if a < before.len() {
                assert(now[a] == before[a]);
            }
        }
        assert forall|a: int, b: int| 0 <= a < b < now.len() implies (#[trigger] now[a]).index < (
        #[trigger] now[b]).index by {
            assert(now[a] == before[a]);
            if b < before.len() {
                assert(now[b] == before[b]);
            }
        }
    }
}

/// In a new scheduler no job waits in a queue that can never run it: when
/// at least one job may run at once, a queue in which a job waits has
/// capacity.
pub proof fn lemma_no_job_waits_without_capacity(
    config: ConfigurationView,
    log_path: Seq<char>,
    reporting: Option<CliReportView>,
    arch: Arch,
    template: Seq<char>,
)
    requires
        overall_limit(config) >= 1,
    ensures
        ({
            let s = SchedulerView::new(config, log_path, reporting, arch, template);
            &&& s.cpu_intensive.waiting.len() > 0 ==> s.cpu_intensive.limit > 0
            &&& s.regular.limit > 0
        }),
{
    lemma_class_jobs_divide_the_suites(config, log_path, arch, config.suites.len());
}

/// Between two steps a queue has no job in hand: each of its jobs is in
/// exactly one of the waiting, the running and the finished ones.
pub proof fn lemma_idle_queue_holds_all_in_its_sets(q: QueueView)
    requires
        q.stage is Idle,
    ensures
        q.held() == identities(q.waiting).add(identities(q.running)).add(
            identities(q.finished),
        ),
{
    assert(q.held() =~= identities(q.waiting).add(identities(q.running)).add(
        identities(q.finished),
    ));
}

/// When the schedule is done every job is among the finished ones.
pub proof fn lemma_done_means_all_finished(s: SchedulerView)
    requires
        s.wf(),
        s.turn == Turn::Done,
    ensures
        s.finished().len() == s.cpu_intensive.jobs() + s.regular.jobs(),
{
}

/// The split of the overall limit: the two shares add up to it, and with
/// an overall limit of four each queue may run two jobs at once.
pub proof fn lemma_cpu_share(limit: usize)
    ensures
        cpu_share(limit) <= limit,
        limit > 1 ==> 1 <= cpu_share(limit) < limit,
        limit == 4 ==> cpu_share(limit) == 2 && limit - cpu_share(limit) == 2,
{
}

impl Scheduler {
    /// The scheduler for the suites of `config`. Each suite's job gets the
    /// suite's position as its index before the jobs are divided between
    /// the queues. The jobs' log directories lie below `log_path`. Every
    /// job waits: nothing runs, nothing is finished, nothing has begun.
    pub fn new(
        config: &Configuration,
        log_path: &str,
        reporting: Option<CliReport>,
        arch: Arch,
        template: String,
    ) -> (s: Scheduler)
        requires
            config@.suites.len() + crate::vm::runner::NET_SUFFIX_OFFSET <= usize::MAX,
        ensures
            s@ == SchedulerView::new(config@, log_path@, reporting.deep_view(), arch, template@),
            s@.cpu_intensive == QueueView::new(
                class_jobs(config@, log_path@, arch, true, config@.suites.len()),
                cpu_share(overall_limit(config@)),
                reporting.deep_view(),
            ),
            s@.regular == QueueView::new(
                class_jobs(config@, log_path@, arch, false, config@.suites.len()),
                (overall_limit(config@) - cpu_share(overall_limit(config@))) as usize,
                reporting.deep_view(),
            ),
            s@.turn == Turn::Start,
            s@.wf(),
            s@.cpu_intensive.limit + s@.regular.limit == overall_limit(config@),
            s@.cpu_intensive.waiting.len() + s@.regular.waiting.len() == config@.suites.len(),
    {
        let limit = match config.concurrent_limit() {
            Some(limit) => limit,
            None => 1,
        };
        let cpu_intensive_limit = if limit > 1 {
            (limit / 4) + 1
        } else {
            0
        };
        let regular_limit = limit - cpu_intensive_limit;

        let mut regular: Vec<Runner<New>> = Vec::new();
        let mut cpu_intensive: Vec<Runner<New>> = Vec::new();
        let suites = config.suites();
        let mut i: usize = 0;
        assert(cpu_intensive.deep_view() =~= class_jobs(config@, log_path@, arch, true, 0));
        assert(regular.deep_view() =~= class_jobs(config@, log_path@, arch, false, 0));
        while i < suites.len()
            invariant
                i <= suites.len(),
                suites.deep_view() == config@.suites,
                suites.len() + crate::vm::runner::NET_SUFFIX_OFFSET <= usize::MAX,
                cpu_intensive_limit == cpu_share(overall_limit(config@)),
                cpu_intensive.deep_view() == class_jobs(config@, log_path@, arch, true, i as nat),
                regular.deep_view() == class_jobs(config@, log_path@, arch, false, i as nat),
                cpu_intensive.len() + regular.len() == i,
            decreases suites.len() - i,
        {
            let suite = &suites[i];
            assert(suites.deep_view()[i as int] == suite@);
            let runner = Runner::new(
                i,
                config.vm().memory(),
                config.jobs(),
                config.timeout(),
                suite,
                log_path,
                arch,
            );
            assert(runner@ == job(config@, log_path@, arch, i as int));
            let ghost cpu_before = cpu_intensive.deep_view();
            let ghost regular_before = regular.deep_view();
            if cpu_intensive_limit > 0 && suite.is_cpu_intensive() {
                cpu_intensive.push(runner);
                assert(cpu_intensive.deep_view() =~= cpu_before.push(runner@));
            } else {
                regular.push(runner);
                assert(regular.deep_view() =~= regular_before.push(runner@));
            }
            i += 1;
        }
        let second = match &reporting {
            Some(r) => Some(r.duplicate()),
            None => None,
        };
        Scheduler {
            cpu_itensive: Queue::new(cpu_intensive, cpu_intensive_limit, second),
            regular: Queue::new(regular, regular_limit, reporting),
            turn: Turn::Start,
            template,
        }
    }

    /// Begins the first round, if it has not begun: the first action of the
    /// schedule becomes pending, or the schedule is done at once when there
    /// is no job.
    pub fn begin(self) -> (s: Scheduler)
        requires
            self@.wf(),
        ensures
            s@ == self@.begin(),
            s@.wf(),
            s@.turn != Turn::Start,
            self@.capacity_kept_or_yielded(s@),
            s@.cpu_intensive.jobs() == self@.cpu_intensive.jobs(),
            s@.regular.jobs() == self@.regular.jobs(),
    {
        match self.turn {
            Turn::Start => {
                proof {
                    lemma_round(self@);
                }
                self.round()
            },
            _ => self,
        }
    }

    fn after_regular(self) -> (s: Scheduler)
        requires
            self@.cpu_intensive.wf(),
            self@.regular.wf(),
            self@.cpu_intensive.limit + self@.regular.limit <= usize::MAX,
        ensures
            s@ == self@.after_regular(),
    {
        if self.regular.is_idle() {
            let mut cpu = self.cpu_itensive;
            let mut regular = self.regular;
            if cpu.can_yield() {
                regular.limit += cpu.limit;
                cpu.limit = 0;
            }
            Scheduler {
                cpu_itensive: cpu,
                regular,
                turn: Turn::Sleep,
                template: self.template,
            }
        } else {
            self
        }
    }

    fn proceed(self) -> (s: Scheduler)
        requires
            self@.cpu_intensive.wf(),
            self@.regular.wf(),
            self@.cpu_intensive.limit + self@.regular.limit <= usize::MAX,
            self@.turn == Turn::CpuIntensive && self@.regular.stage is Idle || self@.turn
                == Turn::Regular && self@.cpu_intensive.stage is Idle,
        ensures
            s@ == self@.proceed(),
    {
        match self.turn {
            Turn::CpuIntensive => {
                if self.cpu_itensive.is_idle() {
                    let s = Scheduler {
                        cpu_itensive: self.cpu_itensive,
                        regular: self.regular.begin(),
                        turn: Turn::Regular,
                        template: self.template,
                    };
                    s.after_regular()
                } else {
                    self
                }
            },
            Turn::Regular => self.after_regular(),
            _ => self,
        }
    }

    fn round(self) -> (s: Scheduler)
        requires
            self@.wf(),
            self@.turn == Turn::Sleep || self@.turn == Turn::Start,
        ensures
            s@ == self@.round(),
    {
        if self.cpu_itensive.is_finished() && self.regular.is_finished() {
            Scheduler {
                cpu_itensive: self.cpu_itensive,
                regular: self.regular,
                turn: Turn::Done,
                template: self.template,
            }
        } else {
            let s = Scheduler {
                cpu_itensive: self.cpu_itensive.begin(),
                regular: self.regular,
                turn: Turn::CpuIntensive,
                template: self.template,
            };
            s.proceed()
        }
    }

    /// What is to be done next; nothing when every job is finished.
    pub fn action(&self) -> (action: Option<Action>)
        requires
            self@.wf(),
        ensures
            action.deep_view() == self@.action(),
            action is None <==> self@.turn == Turn::Done || self@.turn == Turn::Start,
    {
        match self.turn {
            Turn::Start => None,
            Turn::CpuIntensive => self.cpu_itensive.action(self.template.as_str()),
            Turn::Regular => self.regular.action(self.template.as_str()),
            Turn::Sleep => Some(Action::Sleep { millis: POLL_INTERVAL }),
            Turn::Done => None,
        }
    }

    /// Takes the reply to the pending action, given at time `now`, and
    /// runs the schedule up to its next action: the cpu-intensive queue is
    /// stepped, then the regular queue, then capacity is handed over if the
    /// cpu-intensive queue can yield, then comes a pause, until every job
    /// is finished. On a scheduler that has not begun the step begins the
    /// first round, whatever the reply.
    pub fn run(self, now: u64, reply: Reply) -> (s: Scheduler)
        requires
            self@.wf(),
        ensures
            s@ == self@.run(now, reply@),
            s@.wf(),
            self@.capacity_kept_or_yielded(s@),
            s@.cpu_intensive.running.len() <= s@.cpu_intensive.limit,
            s@.regular.running.len() <= s@.regular.limit,
            s@.cpu_intensive.limit <= self@.cpu_intensive.limit,
            s@.regular.limit >= self@.regular.limit,
            s@.cpu_intensive.limit + s@.regular.limit == self@.cpu_intensive.limit
                + self@.regular.limit,
            s@.cpu_intensive.jobs() == self@.cpu_intensive.jobs(),
            s@.regular.jobs() == self@.regular.jobs(),
    {
        proof {
            lemma_scheduler_run(self@, now, reply@);
        }
        match self.turn {
            Turn::CpuIntensive => {
                let s = Scheduler {
                    cpu_itensive: self.cpu_itensive.step(now, reply),
                    regular: self.regular,
                    turn: self.turn,
                    template: self.template,
                };
                s.proceed()
            },
            Turn::Regular => {
                let s = Scheduler {
                    cpu_itensive: self.cpu_itensive,
                    regular: self.regular.step(now, reply),
                    turn: self.turn,
                    template: self.template,
                };
                s.proceed()
            },
            Turn::Sleep => self.round(),
            Turn::Start => self.round(),
            Turn::Done => self,
        }
    }

    /// Whether every job is finished.
    pub fn is_done(&self) -> (r: bool)
        ensures
            r == (self@.turn == Turn::Done),
    {
        match self.turn {
            Turn::Done => true,
            _ => false,
        }
    }

    /// The cpu-intensive queue.
    pub fn cpu_intensive(&self) -> (q: &Queue)
        ensures
            q@ == self@.cpu_intensive,
    {
        &self.cpu_itensive
    }

    /// The regular queue.
    pub fn regular(&self) -> (q: &Queue)
        ensures
            q@ == self@.regular,
    {
        &self.regular
    }

    /// The finished jobs of both queues, the regular queue's first.
    pub fn finished(&self) -> (all: Vec<&Runner<Finished>>)
        ensures
            all.deep_view() == self@.finished(),
    {
        let mut all: Vec<&Runner<Finished>> = Vec::new();
        let first = self.regular.finished();
        let second = self.cpu_itensive.finished();
        let mut i: usize = 0;
        assert(all.deep_view() =~= first.deep_view().take(0));
        while i < first.len()
            invariant
                i <= first.len(),
                all.deep_view() == first.deep_view().take(i as int),
            decreases first.len() - i,
        {
            let ghost before = all.deep_view();
            all.push(&first[i]);
            i += 1;
            assert(all.deep_view() =~= before.push(first[i - 1]@));
            assert(all.deep_view() =~= first.deep_view().take(i as int));
        }
        assert(first.deep_view().take(i as int) =~= first.deep_view());
        let mut j: usize = 0;
        assert(all.deep_view() =~= first.deep_view() + second.deep_view().take(0));
        while j < second.len()
            invariant
                j <= second.len(),
                all.deep_view() == first.deep_view() + second.deep_view().take(j as int),
            decreases second.len() - j,
        {
            let ghost before = all.deep_view();
            all.push(&second[j]);
            j += 1;
            assert(all.deep_view() =~= before.push(second[j - 1]@));
            assert(all.deep_view() =~= first.deep_view() + second.deep_view().take(j as int));
        }
        assert(second.deep_view().take(j as int) =~= second.deep_view());
        all
    }
}

} // verus!
