use ovn_ci::cli_report::CliReport;
use ovn_ci::command::{Command, ExitStatus, Output};
use ovn_ci::config::{Compiler, Configuration, Git, Suite, SuiteType, Vm};
use ovn_ci::effect::{Action, IoError, IoErrorKind, Reply};
use ovn_ci::runner::{Error, New, Runner};
use ovn_ci::scheduler::{Queue, Scheduler, POLL_INTERVAL};
use ovn_ci::util::Arch;
use std::collections::HashMap;

fn suite(name: &str, kind: Option<SuiteType>) -> Suite {
    Suite::new(name.to_string(), Compiler::Gcc, None, kind, false, None, None, false, false)
}

fn config(limit: Option<usize>, suites: Vec<Suite>) -> Configuration {
    Configuration::new(
        2,
        "/logs".to_string(),
        "host".to_string(),
        None,
        limit,
        None,
        None,
        Git::new("/ovn".to_string(), "/ovs".to_string(), false),
        None,
        Vm::new(2048, "40".to_string()),
        suites,
    )
}

fn scheduler(limit: Option<usize>, suites: Vec<Suite>, reporting: Option<CliReport>) -> Scheduler {
    Scheduler::new(&config(limit, suites), "/logs/run", reporting, Arch::X86_64, "xml".to_string())
}

fn five() -> Vec<Suite> {
    vec![
        suite("unit", Some(SuiteType::Unit)),
        suite("system", Some(SuiteType::System)),
        suite("plain", None),
        suite("userspace", Some(SuiteType::SystemUserspace)),
        suite("dpdk", Some(SuiteType::SystemDpdk)),
    ]
}

fn ok(stdout: &str) -> Reply {
    Reply::Output(Output {
        status: ExitStatus { code: Some(0) },
        stdout: stdout.as_bytes().to_vec(),
        stderr: Vec::new(),
    })
}

fn words(c: &Command) -> Vec<String> {
    let mut all = vec![c.get_program().to_string()];
    all.extend(c.get_args().iter().cloned());
    all
}

/// A world in which every job's process ends after it was polled
/// `polls[job]` times (never polled more often than that: it then counts
/// as ended), with exit code `codes[job]` (zero when none is given).
struct World {
    polls: HashMap<usize, usize>,
    codes: HashMap<usize, i32>,
    trace: Vec<Action>,
    now: u64,
}

impl World {
    fn new() -> World {
        World { polls: HashMap::new(), codes: HashMap::new(), trace: Vec::new(), now: 0 }
    }

    fn reply(&mut self, action: &Action) -> Reply {
        match action {
            Action::Run { command } => {
                if command.get_args().last().map(|a| a.as_str()) == Some("Ready!") {
                    ok("Ready!\n")
                } else {
                    ok("")
                }
            },
            Action::Poll { job } => {
                let left = self.polls.entry(*job).or_insert(0);
                if *left == 0 {
                    Reply::Exited(ExitStatus { code: Some(0) })
                } else {
                    *left -= 1;
                    Reply::Pending
                }
            },
            Action::Wait { job } => {
                Reply::Exited(ExitStatus { code: Some(*self.codes.get(job).unwrap_or(&0)) })
            },
            Action::Sleep { millis } => {
                self.now += millis;
                Reply::Done
            },
            _ => Reply::Done,
        }
    }

    /// Runs the schedule to its end; `watch` sees the scheduler after every
    /// step.
    fn drive(&mut self, s: Scheduler, watch: &mut dyn FnMut(&Scheduler)) -> Scheduler {
        watch(&s);
        // A new scheduler has nothing to do until it is begun.
        assert!(s.action().is_none());
        assert!(!s.is_done());
        let mut s = s.begin();
        watch(&s);
        for _ in 0..100_000 {
            let action = match s.action() {
                Some(action) => action,
                None => return s,
            };
            let reply = self.reply(&action);
            self.trace.push(action);
            self.now += 1;
            s = s.run(self.now, reply);
            watch(&s);
        }
        panic!("the schedule did not end");
    }

    fn printed(&self) -> Vec<String> {
        self.trace
            .iter()
            .filter_map(|a| match a {
                Action::Print { line } => Some(line.clone()),
                _ => None,
            })
            .collect()
    }

    fn spawned(&self) -> Vec<usize> {
        self.trace
            .iter()
            .filter_map(|a| match a {
                Action::Spawn { job, .. } => Some(*job),
                _ => None,
            })
            .collect()
    }
}

fn names(s: &Scheduler) -> Vec<String> {
    s.finished().iter().map(|r| r.name().to_string()).collect()
}

#[test]
fn the_limit_is_split_at_construction() {
    let s = scheduler(Some(4), five(), None);
    assert_eq!(s.cpu_intensive().limit(), 2);
    assert_eq!(s.regular().limit(), 2);
}

#[test]
fn shares_of_other_limits() {
    let cases: [(Option<usize>, usize, usize); 8] = [
        (None, 0, 1),
        (Some(0), 0, 0),
        (Some(1), 0, 1),
        (Some(2), 1, 1),
        (Some(3), 1, 2),
        (Some(4), 2, 2),
        (Some(8), 3, 5),
        (Some(100), 26, 74),
    ];
    for (limit, cpu, regular) in cases {
        let s = scheduler(limit, vec![], None);
        assert_eq!(s.cpu_intensive().limit(), cpu);
        assert_eq!(s.regular().limit(), regular);
    }
}

#[test]
fn five_suites_with_limit_four() {
    let s = scheduler(Some(4), five(), None);
    // Two suites are cpu-intensive, three are regular, and all of them
    // wait.
    assert!(s.cpu_intensive().is_idle());
    assert!(s.regular().is_idle());
    assert_eq!(s.cpu_intensive().waiting(), 2);
    assert_eq!(s.regular().waiting(), 3);
    assert_eq!(s.cpu_intensive().running(), 0);
    assert_eq!(s.regular().running(), 0);
    assert!(s.cpu_intensive().finished().is_empty());
    assert!(s.regular().finished().is_empty());
    assert_eq!(s.cpu_intensive().limit(), 2);
    assert_eq!(s.regular().limit(), 2);
    let mut world = World::new();
    let s = world.drive(s, &mut |_| {});
    assert!(s.is_done());
    assert_eq!(s.cpu_intensive().limit(), 0);
    assert_eq!(s.regular().limit(), 4);
    assert_eq!(s.finished().len(), 5);
    assert!(s.finished().iter().all(|r| r.success()));
}

#[test]
fn the_regular_queue_gains_the_capacity_as_soon_as_the_other_has_drained() {
    let mut world = World::new();
    // The regular jobs run long, the cpu-intensive ones end at once.
    for job in [1, 3, 4] {
        world.polls.insert(job, 5);
    }
    let mut seen_transfer_while_running = false;
    let s = world.drive(scheduler(Some(4), five(), None), &mut |s| {
        if s.cpu_intensive().limit() == 0 && s.regular().running() == 3 {
            seen_transfer_while_running = true;
        }
    });
    assert!(seen_transfer_while_running);
    assert_eq!(s.regular().limit(), 4);
}

#[test]
fn no_more_jobs_run_than_the_limit_allows() {
    for limit in [None, Some(1), Some(2), Some(3), Some(4), Some(7)] {
        let mut world = World::new();
        for job in 0..5 {
            world.polls.insert(job, job + 1);
        }
        let total = limit.unwrap_or(1);
        let s = world.drive(scheduler(limit, five(), None), &mut |s| {
            assert!(s.cpu_intensive().running() <= s.cpu_intensive().limit());
            assert!(s.regular().running() <= s.regular().limit());
            assert_eq!(s.cpu_intensive().limit() + s.regular().limit(), total);
        });
        assert_eq!(s.finished().len(), 5);
    }
}

#[test]
fn the_capacity_transfer_is_one_way_and_happens_once() {
    let mut world = World::new();
    for job in 0..5 {
        world.polls.insert(job, 3 * job);
    }
    let mut cpu_limits = Vec::new();
    let mut regular_limits = Vec::new();
    world.drive(scheduler(Some(4), five(), None), &mut |s| {
        cpu_limits.push(s.cpu_intensive().limit());
        regular_limits.push(s.regular().limit());
    });
    assert!(cpu_limits.windows(2).all(|w| w[1] <= w[0]));
    assert!(regular_limits.windows(2).all(|w| w[1] >= w[0]));
    let changes = cpu_limits.windows(2).filter(|w| w[0] != w[1]).count();
    assert_eq!(changes, 1);
    assert_eq!(cpu_limits.first(), Some(&2));
    assert_eq!(cpu_limits.last(), Some(&0));
}

#[test]
fn every_job_is_in_exactly_one_place() {
    let mut world = World::new();
    for job in 0..5 {
        world.polls.insert(job, 2);
    }
    world.drive(scheduler(Some(2), five(), None), &mut |s| {
        let placed = s.cpu_intensive().waiting()
            + s.cpu_intensive().running()
            + s.cpu_intensive().finished().len()
            + s.regular().waiting()
            + s.regular().running()
            + s.regular().finished().len();
        // A job that is being started or ended is in transit.
        assert!(placed == 5 || placed == 4);
        if s.is_done() {
            assert_eq!(placed, 5);
        }
    });
    let mut spawned = world.spawned();
    spawned.sort();
    assert_eq!(spawned, vec![0, 1, 2, 3, 4]);
}

#[test]
fn without_a_share_every_suite_is_regular() {
    let s = scheduler(Some(1), five(), None);
    assert_eq!(s.cpu_intensive().waiting(), 0);
    assert_eq!(s.cpu_intensive().limit(), 0);
    assert_eq!(s.regular().waiting(), 5);
    assert_eq!(s.regular().limit(), 1);
    assert!(s.cpu_intensive().is_idle());
    assert!(s.regular().is_idle());
    assert!(s.cpu_intensive().is_finished());
    assert!(!s.cpu_intensive().can_yield());
    let none = scheduler(None, five(), None);
    assert_eq!(none.cpu_intensive().waiting(), 0);
    assert_eq!(none.regular().waiting(), 5);
    assert_eq!(none.regular().limit(), 1);
}

#[test]
fn the_job_added_last_is_started_first() {
    let mut world = World::new();
    let s = world.drive(scheduler(None, five(), None), &mut |_| {});
    assert_eq!(world.spawned(), vec![4, 3, 2, 1, 0]);
    assert_eq!(
        names(&s),
        vec!["dpdk GCC - system-dpdk", "userspace GCC - system-userspace", "plain GCC",
             "system GCC - system", "unit GCC - unit"]
    );
}

#[test]
fn finished_lists_the_regular_jobs_first() {
    let mut world = World::new();
    let s = world.drive(scheduler(Some(4), five(), None), &mut |_| {});
    let all = names(&s);
    assert_eq!(all.len(), 5);
    let regular: Vec<String> =
        s.regular().finished().iter().map(|r| r.name().to_string()).collect();
    let cpu: Vec<String> =
        s.cpu_intensive().finished().iter().map(|r| r.name().to_string()).collect();
    assert_eq!(all[..3], regular[..]);
    assert_eq!(all[3..], cpu[..]);
    assert!(cpu.contains(&"unit GCC - unit".to_string()));
    assert!(cpu.contains(&"plain GCC".to_string()));
}

#[test]
fn each_job_is_announced_and_concluded_on_the_console() {
    let mut world = World::new();
    world.codes.insert(0, 3);
    world.drive(scheduler(None, vec![suite("only", Some(SuiteType::Unit))], None), &mut |_| {});
    let printed = world.printed();
    assert_eq!(printed.len(), 2);
    assert_eq!(
        printed[0],
        "The job \"only GCC - unit\" is starting, log file: /logs/run/only_gcc_-_unit/ovn-ci.log"
    );
    assert!(printed[1].starts_with("The job \"only GCC - unit\" is done. Duration: "));
    assert!(printed[1].ends_with("Status: Fail, Non-zero return code: 3"));
}

#[test]
fn a_failed_job_does_not_stop_the_others() {
    let mut world = World::new();
    world.codes.insert(1, 3);
    let s = world.drive(scheduler(Some(4), five(), None), &mut |_| {});
    assert_eq!(s.finished().len(), 5);
    assert_eq!(
        s.finished().iter().filter(|r| !r.success()).map(|r| r.name().to_string()).collect::<Vec<_>>(),
        vec!["system GCC - system"]
    );
    let one = s.finished().into_iter().find(|r| !r.success()).unwrap();
    assert!(matches!(one.error(), Some(Error::ReturnCode(3))));
}

#[test]
fn a_job_that_cannot_start_goes_straight_to_the_finished_ones() {
    let mut s = scheduler(None, vec![suite("only", None)], None).begin();
    let mut running_seen = 0;
    let mut trace = Vec::new();
    while let Some(action) = s.action() {
        let reply = match &action {
            Action::CreateDir { .. } => Reply::Failed(IoError {
                kind: IoErrorKind::PermissionDenied,
                message: "denied".to_string(),
            }),
            Action::Run { .. } => ok(""),
            _ => Reply::Done,
        };
        trace.push(action);
        s = s.run(0, reply);
        running_seen += s.regular().running();
    }
    assert_eq!(running_seen, 0);
    assert!(trace.iter().all(|a| !matches!(a, Action::Spawn { .. } | Action::Poll { .. })));
    assert_eq!(s.finished().len(), 1);
    assert!(matches!(s.finished()[0].error(), Some(Error::LogDirectory(_))));
}

#[test]
fn rounds_are_separated_by_a_pause() {
    let mut world = World::new();
    world.polls.insert(0, 3);
    world.drive(scheduler(None, vec![suite("only", None)], None), &mut |_| {});
    let pauses = world
        .trace
        .iter()
        .filter(|a| matches!(a, Action::Sleep { millis } if *millis == POLL_INTERVAL))
        .count();
    // Three polls find the job running, the fourth finds it ended; each
    // round ends with a pause.
    assert_eq!(pauses, 4);
    assert_eq!(POLL_INTERVAL, 100);
    assert!(matches!(world.trace.last(), Some(Action::Sleep { .. })));
}

#[test]
fn nothing_to_do_without_suites() {
    let s = scheduler(Some(4), vec![], None);
    assert!(!s.is_done());
    assert!(s.action().is_none());
    let s = s.begin();
    assert!(s.is_done());
    assert!(s.action().is_none());
    assert!(s.finished().is_empty());
    // The limits stay as they were split: nothing ever ran.
    assert_eq!(s.cpu_intensive().limit(), 2);
    assert_eq!(s.regular().limit(), 2);
    let s = s.run(0, Reply::Done);
    assert!(s.is_done());
}

#[test]
fn the_sidecar_is_told_of_every_job() {
    let reporting = CliReport::new("/bin/report".to_string(), "http://h:8080/run".to_string());
    let mut world = World::new();
    world.codes.insert(0, 1);
    let suites = vec![suite("a", Some(SuiteType::System)), suite("b", Some(SuiteType::System))];
    world.drive(scheduler(None, suites, Some(reporting)), &mut |_| {});
    let told: Vec<Vec<String>> = world
        .trace
        .iter()
        .filter_map(|a| match a {
            Action::Run { command } if command.get_program() == "/bin/report" => {
                assert!(command.inherits_output());
                Some(words(command))
            },
            _ => None,
        })
        .collect();
    assert_eq!(
        told,
        vec![
            vec!["/bin/report", "pipeline-result", "http://h:8080/run", "b GCC - system"],
            vec!["/bin/report", "pipeline-result", "--failed", "http://h:8080/run", "a GCC - system"],
        ]
    );
}

#[test]
fn a_sidecar_that_cannot_be_run_is_only_warned_about() {
    let reporting = CliReport::new("/bin/report".to_string(), "u".to_string());
    let mut s = scheduler(None, vec![suite("a", None)], Some(reporting)).begin();
    let mut warned = Vec::new();
    while let Some(action) = s.action() {
        let reply = match &action {
            Action::Run { command } if command.get_program() == "/bin/report" => {
                Reply::Failed(IoError { kind: IoErrorKind::NotFound, message: "missing".to_string() })
            },
            Action::Run { command }
                if command.get_args().last().map(|a| a.as_str()) == Some("Ready!") => ok("Ready!"),
            Action::Run { .. } => ok(""),
            Action::Poll { .. } | Action::Wait { .. } => Reply::Exited(ExitStatus { code: Some(0) }),
            Action::Warn { line } => {
                warned.push(line.clone());
                Reply::Done
            },
            _ => Reply::Done,
        };
        s = s.run(0, reply);
    }
    assert_eq!(warned, vec!["Couldn't run cli report (test-result): missing"]);
    assert_eq!(s.finished().len(), 1);
    assert!(s.finished()[0].success());
}

#[test]
fn a_queue_alone() {
    let runners: Vec<Runner<New>> = (0..3)
        .map(|i| Runner::new(i, 1, 1, "0", &suite("s", None), "/l", Arch::X86_64))
        .collect();
    let q = Queue::new(runners, 2, None);
    assert_eq!(q.limit(), 2);
    assert_eq!(q.waiting(), 3);
    assert_eq!(q.running(), 0);
    assert!(q.finished().is_empty());
    assert!(q.is_idle());
    assert!(!q.is_finished());
    assert!(!q.can_yield());
    assert!(q.action("t").is_none());
    let q = q.begin();
    assert!(!q.is_idle());
    assert_eq!(q.waiting(), 2);
    assert!(matches!(q.action("t"), Some(Action::Print { .. })));
    let empty = Queue::new(Vec::new(), 2, None);
    assert!(empty.is_finished());
    assert!(empty.can_yield());
    let empty = empty.begin();
    assert!(empty.is_idle());
    let none = Queue::new(Vec::new(), 0, None);
    assert!(none.is_finished());
    assert!(!none.can_yield());
}

#[test]
fn a_queue_admits_up_to_its_limit_in_one_step() {
    let runners: Vec<Runner<New>> = (0..3)
        .map(|i| Runner::new(i, 1, 1, "0", &suite("s", None), "/l", Arch::X86_64))
        .collect();
    let mut q = Queue::new(runners, 2, None).begin();
    let mut spawned = Vec::new();
    let mut polled = Vec::new();
    while let Some(action) = q.action("t") {
        let reply = match &action {
            Action::Run { command }
                if command.get_args().last().map(|a| a.as_str()) == Some("Ready!") => ok("Ready!"),
            Action::Run { .. } => ok(""),
            Action::Spawn { job, .. } => {
                spawned.push(*job);
                Reply::Done
            },
            Action::Poll { job } => {
                polled.push(*job);
                Reply::Pending
            },
            _ => Reply::Done,
        };
        q = q.step(0, reply);
        assert!(q.running() <= q.limit());
    }
    // One step: two jobs admitted, both polled once, the third still waits.
    assert_eq!(spawned, vec![2, 1]);
    assert_eq!(polled, vec![2, 1]);
    assert_eq!(q.running(), 2);
    assert_eq!(q.waiting(), 1);
    assert!(q.is_idle());
}

#[test]
fn a_queue_of_local_jobs() {
    let git = Git::new("/src/ovn".to_string(), "/src/ovs".to_string(), false);
    let runners: Vec<Runner<New>> =
        (0..3).map(|i| Runner::local(i, 1, None, &git, &suite("s", None), "/l")).collect();
    let mut q = Queue::new(runners, 3, None).begin();
    let mut kinds = Vec::new();
    let mut rounds = 0;
    loop {
        while let Some(action) = q.action("unused") {
            let reply = match &action {
                Action::Spawn { job: 1, .. } => Reply::Failed(IoError {
                    kind: IoErrorKind::NotFound,
                    message: "missing".to_string(),
                }),
                Action::Poll { .. } => Reply::Exited(ExitStatus { code: Some(0) }),
                Action::Wait { job } => Reply::Exited(ExitStatus { code: Some(*job as i32) }),
                Action::Run { .. } => panic!("a local job runs no other command"),
                _ => Reply::Done,
            };
            kinds.push(action);
            q = q.step(0, reply);
            assert!(q.running() <= q.limit());
        }
        rounds += 1;
        if q.is_finished() {
            break;
        }
        q = q.begin();
    }
    assert_eq!(rounds, 1);
    let finished = q.finished();
    assert_eq!(finished.len(), 3);
    // The job that could not be spawned finished first; the others were
    // collected from the highest position down.
    assert!(matches!(finished[0].error(), Some(Error::RunnerStart(_))));
    assert!(finished[1].success());
    assert!(matches!(finished[2].error(), Some(Error::ReturnCode(2))));
}

#[test]
fn the_first_step_begins_the_first_round_without_a_pause() {
    let s = scheduler(None, vec![suite("only", None)], None);
    assert_eq!(s.regular().waiting(), 1);
    // Whatever the reply, the first step only begins the round.
    let s = s.run(0, Reply::Pending);
    assert_eq!(s.regular().waiting(), 0);
    match s.action() {
        Some(Action::Print { line }) => assert!(line.starts_with("The job \"only GCC\" is starting")),
        other => panic!("unexpected: {:?}", other),
    }
    // Beginning a schedule that has begun changes nothing.
    let s = s.begin();
    assert!(matches!(s.action(), Some(Action::Print { .. })));
}

#[test]
fn every_suite_has_its_job_in_one_of_the_two_queues() {
    let s = scheduler(Some(4), five(), None);
    // The cpu-intensive queue holds the jobs of the suites at 0 and 2, the
    // regular queue those at 1, 3 and 4, each in the suites' order.
    let mut world = World::new();
    let s = world.drive(s, &mut |_| {});
    let mut all: Vec<(usize, String)> =
        s.finished().iter().map(|r| (r.index(), r.name().to_string())).collect();
    all.sort();
    assert_eq!(
        all,
        vec![
            (0, "unit GCC - unit".to_string()),
            (1, "system GCC - system".to_string()),
            (2, "plain GCC".to_string()),
            (3, "userspace GCC - system-userspace".to_string()),
            (4, "dpdk GCC - system-dpdk".to_string()),
        ]
    );
    // Started last-in first-out within each queue, the cpu-intensive first.
    assert_eq!(world.spawned(), vec![2, 0, 4, 3, 1]);
}
