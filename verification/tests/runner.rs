use ovn_ci::command::{Command, ExitStatus, Output};
use ovn_ci::config::{Compiler, Git, Suite, SuiteType};
use ovn_ci::effect::{Action, IoError, IoErrorKind, Reply};
use ovn_ci::runner::{directory_of, Ended, Error, Finished, New, Runner, Running, Started};
use ovn_ci::util::Arch;
use ovn_ci::vm::RunnerVmError;

const TEMPLATE: &str = "<domain>@VM_NAME@</domain>";

fn suite() -> Suite {
    Suite::new(
        "OVN Tests".to_string(),
        Compiler::Gcc,
        Some("--opt".to_string()),
        Some(SuiteType::System),
        false,
        Some("-100".to_string()),
        None,
        false,
        false,
    )
}

fn runner() -> Runner<New> {
    Runner::new(2, 4096, 4, "3600", &suite(), "/logs/run", Arch::X86_64)
}

fn ok(stdout: &str) -> Reply {
    Reply::Output(Output {
        status: ExitStatus { code: Some(0) },
        stdout: stdout.as_bytes().to_vec(),
        stderr: Vec::new(),
    })
}

fn io(message: &str) -> IoError {
    IoError { kind: IoErrorKind::PermissionDenied, message: message.to_string() }
}

fn exited(code: Option<i32>) -> Reply {
    Reply::Exited(ExitStatus { code })
}

fn words(c: &Command) -> Vec<String> {
    let mut all = vec![c.get_program().to_string()];
    all.extend(c.get_args().iter().cloned());
    all
}

/// The reply of a world in which everything goes well.
fn fine(action: &Action) -> Reply {
    match action {
        Action::Run { command } => {
            if command.get_args().last().map(|a| a.as_str()) == Some("Ready!") {
                ok("Ready!\n")
            } else {
                ok("")
            }
        },
        Action::Poll { .. } => exited(Some(0)),
        Action::Wait { .. } => exited(Some(0)),
        _ => Reply::Done,
    }
}

/// Starts the job, answering each action with `world`; the actions are
/// recorded.
fn start(
    runner: Runner<New>,
    mut now: u64,
    world: &mut dyn FnMut(&Action) -> Reply,
    trace: &mut Vec<Action>,
) -> Started {
    let mut starting = runner.run(now);
    for _ in 0..100 {
        let action = starting.action(TEMPLATE);
        let reply = world(&action);
        trace.push(action);
        now += 10;
        match starting.advance(now, reply) {
            Started::Pending(next) => starting = next,
            other => return other,
        }
    }
    panic!("the start did not end");
}

fn running() -> Runner<Running> {
    let mut trace = Vec::new();
    match start(runner(), 1000, &mut fine, &mut trace) {
        Started::Running(r) => r,
        other => panic!("unexpected: {:?}", other),
    }
}

/// Ends the job, answering each action with `world`.
fn end(
    runner: Runner<Running>,
    mut now: u64,
    world: &mut dyn FnMut(&Action) -> Reply,
    trace: &mut Vec<Action>,
) -> Runner<Finished> {
    let mut finishing = runner.finish();
    for _ in 0..100 {
        let action = finishing.action();
        let reply = world(&action);
        trace.push(action);
        now += 100;
        match finishing.advance(now, reply) {
            Ended::Pending(next) => finishing = next,
            Ended::Finished(done) => return done,
        }
    }
    panic!("the end did not end");
}

fn wind_up(failed: Started, trace: &mut Vec<Action>) -> Runner<Finished> {
    let mut finishing = match failed {
        Started::Failed(f) => f,
        other => panic!("unexpected: {:?}", other),
    };
    for _ in 0..100 {
        let action = finishing.action();
        let reply = fine(&action);
        trace.push(action);
        match finishing.advance(0, reply) {
            Ended::Pending(next) => finishing = next,
            Ended::Finished(done) => return done,
        }
    }
    panic!("the end did not end");
}

fn spawns(trace: &[Action]) -> usize {
    trace.iter().filter(|a| matches!(a, Action::Spawn { .. })).count()
}

#[test]
fn a_new_runner_announces_its_log_file() {
    assert_eq!(runner().index(), 2);
    assert_eq!(
        runner().report_console(),
        "The job \"OVN Tests GCC - system (-100) (--opt)\" is starting, \
         log file: /logs/run/ovn_tests_gcc_-_system_-100_--opt/ovn-ci.log"
    );
}

#[test]
fn the_start_takes_its_steps_in_order() {
    let mut trace = Vec::new();
    let started = start(runner(), 0, &mut fine, &mut trace);
    assert!(matches!(started, Started::Running(_)));
    let kinds: Vec<&str> = trace
        .iter()
        .map(|a| match a {
            Action::CreateDir { .. } => "dir",
            Action::OpenLog { .. } => "open",
            Action::WriteLog { .. } => "write",
            Action::Run { .. } => "run",
            Action::RemoveFile { .. } => "remove",
            Action::WriteFile { .. } => "file",
            Action::Spawn { .. } => "spawn",
            _ => "other",
        })
        .collect();
    assert_eq!(
        kinds,
        vec![
            "dir", "open", "write", "run", "remove", "remove", "remove", "file", "run", "run",
            "run", "spawn"
        ]
    );
}

#[test]
fn the_log_directory_is_named_after_the_suite() {
    let starting = runner().run(0);
    match starting.action(TEMPLATE) {
        Action::CreateDir { path, recursive } => {
            assert_eq!(path, "/logs/run/ovn_tests_gcc_-_system_-100_--opt");
            assert!(!recursive);
        },
        other => panic!("unexpected: {:?}", other),
    }
}

#[test]
fn the_log_begins_with_the_name_and_the_command() {
    let mut trace = Vec::new();
    start(runner(), 0, &mut fine, &mut trace);
    match &trace[1] {
        Action::OpenLog { job, path } => {
            assert_eq!(*job, 2);
            assert_eq!(path, "/logs/run/ovn_tests_gcc_-_system_-100_--opt/ovn-ci.log");
        },
        other => panic!("unexpected: {:?}", other),
    }
    match &trace[2] {
        Action::WriteLog { job, text } => {
            assert_eq!(*job, 2);
            assert_eq!(
                text,
                "Name: OVN Tests GCC - system (-100) (--opt)\n\
                 Command: CC=gcc OPTS=--opt TESTSUITE=system-test TEST_RANGE=-100 \
                 /workspace/ovn/.ci/ci.sh --ovn-path=/workspace/ovn --ovs-path=/workspace/ovs \
                 --jobs=4 --archive-logs --timeout=3600\n"
            );
        },
        other => panic!("unexpected: {:?}", other),
    }
}

#[test]
fn the_job_is_spawned_inside_its_machine() {
    let mut trace = Vec::new();
    start(runner(), 0, &mut fine, &mut trace);
    match trace.last().unwrap() {
        Action::Spawn { job, command } => {
            assert_eq!(*job, 2);
            let all = words(command);
            assert_eq!(all[0], "ssh");
            assert_eq!(
                &all[12..],
                &[
                    "root@192.168.100.12",
                    "export CC=gcc;",
                    "export OPTS=--opt;",
                    "export TESTSUITE=system-test;",
                    "export TEST_RANGE=-100;",
                    "/workspace/ovn/.ci/ci.sh",
                    "--ovn-path=/workspace/ovn",
                    "--ovs-path=/workspace/ovs",
                    "--jobs=4",
                    "--archive-logs",
                    "--timeout=3600",
                ]
            );
        },
        other => panic!("unexpected: {:?}", other),
    }
}

#[test]
fn a_log_directory_that_cannot_be_made_ends_the_job_without_a_process() {
    let mut trace = Vec::new();
    let mut world = |a: &Action| match a {
        Action::CreateDir { .. } => Reply::Failed(io("permission denied")),
        other => fine(other),
    };
    let started = start(runner(), 500, &mut world, &mut trace);
    assert_eq!(trace.len(), 1);
    let finished = wind_up(started, &mut trace);
    assert_eq!(spawns(&trace), 0);
    assert!(!finished.success());
    assert!(matches!(finished.error(), Some(Error::LogDirectory(_))));
    assert_eq!(finished.duration(), 10);
    // All that follows the failure is the teardown of the machine.
    assert_eq!(trace.len(), 2);
    match &trace[1] {
        Action::Run { command } => assert_eq!(words(command), vec!["virsh", "destroy", "ovn-ci-vm2"]),
        other => panic!("unexpected: {:?}", other),
    }
}

#[test]
fn a_log_file_that_cannot_be_made_ends_the_job() {
    let mut trace = Vec::new();
    let mut world = |a: &Action| match a {
        Action::OpenLog { .. } => Reply::Failed(io("ro")),
        other => fine(other),
    };
    let finished = wind_up(start(runner(), 0, &mut world, &mut trace), &mut trace);
    assert!(matches!(finished.error(), Some(Error::LogFile(_))));
    assert_eq!(spawns(&trace), 0);
}

#[test]
fn a_log_that_cannot_be_written_ends_the_job() {
    let mut trace = Vec::new();
    let mut world = |a: &Action| match a {
        Action::WriteLog { .. } => Reply::Failed(io("full")),
        other => fine(other),
    };
    let finished = wind_up(start(runner(), 0, &mut world, &mut trace), &mut trace);
    assert!(matches!(finished.error(), Some(Error::LogWrite(_))));
    assert_eq!(spawns(&trace), 0);
}

#[test]
fn a_machine_that_cannot_be_started_ends_the_job() {
    let mut trace = Vec::new();
    let mut world = |a: &Action| match a {
        Action::Run { command } if command.get_program() == "virsh"
            && command.get_args()[0] == "list" => ok("ovn-ci-vm2\n"),
        other => fine(other),
    };
    let finished = wind_up(start(runner(), 0, &mut world, &mut trace), &mut trace);
    assert!(matches!(
        finished.error(),
        Some(Error::Vm(RunnerVmError::AlreadyRunning(_)))
    ));
    assert_eq!(spawns(&trace), 0);
    assert_eq!(
        finished.report_console(),
        "The job \"OVN Tests GCC - system (-100) (--opt)\" is done. Duration: 00m00s040ms, \
         Status: Fail, VM error: VM \"ovn-ci-vm2\" is already running"
    );
}

#[test]
fn a_process_that_cannot_be_spawned_ends_the_job() {
    let mut trace = Vec::new();
    let mut world = |a: &Action| match a {
        Action::Spawn { .. } => Reply::Failed(io("no ssh")),
        other => fine(other),
    };
    let finished = wind_up(start(runner(), 0, &mut world, &mut trace), &mut trace);
    match finished.error() {
        Some(Error::RunnerStart(e)) => assert_eq!(e.message, "no ssh"),
        other => panic!("unexpected: {:?}", other),
    }
}

#[test]
fn a_log_that_cannot_be_shared_ends_the_job() {
    let mut trace = Vec::new();
    let mut world = |a: &Action| match a {
        Action::Spawn { .. } => Reply::Unopened(io("dup")),
        other => fine(other),
    };
    let finished = wind_up(start(runner(), 0, &mut world, &mut trace), &mut trace);
    assert!(matches!(
        finished.error(),
        Some(Error::Vm(RunnerVmError::LogFileDescriptor(_)))
    ));
}

#[test]
fn a_running_job_is_ready_unless_it_is_known_to_run() {
    let r = running();
    assert!(matches!(r.poll(), Action::Poll { job: 2 }));
    assert!(!r.try_ready(&Reply::Pending));
    assert!(r.try_ready(&exited(Some(0))));
    assert!(r.try_ready(&exited(Some(1))));
    assert!(r.try_ready(&Reply::Failed(io("poll failed"))));
    assert!(r.try_ready(&Reply::Done));
}

#[test]
fn the_end_fetches_waits_and_tears_down() {
    let mut trace = Vec::new();
    let finished = end(running(), 5000, &mut fine, &mut trace);
    assert!(finished.success());
    assert!(finished.error().is_none());
    assert_eq!(finished.name(), "OVN Tests GCC - system (-100) (--opt)");
    assert_eq!(trace.len(), 3);
    match &trace[0] {
        Action::Run { command } => assert_eq!(command.get_program(), "scp"),
        other => panic!("unexpected: {:?}", other),
    }
    assert!(matches!(trace[1], Action::Wait { job: 2 }));
    match &trace[2] {
        Action::Run { command } => assert_eq!(words(command), vec!["virsh", "destroy", "ovn-ci-vm2"]),
        other => panic!("unexpected: {:?}", other),
    }
}

#[test]
fn the_duration_runs_from_the_start_to_the_end_of_the_wait() {
    let mut trace = Vec::new();
    // Started at 1000; the wait is answered at 5000 + 100 + 100.
    let finished = end(running(), 5000, &mut fine, &mut trace);
    assert_eq!(finished.duration(), 4200);
    assert_eq!(finished.format_duration(), "00m04s200ms");
}

#[test]
fn a_clock_that_went_backwards_gives_no_duration() {
    let mut trace = Vec::new();
    let finished = end(running(), 0, &mut fine, &mut trace);
    assert_eq!(finished.duration(), 0);
}

#[test]
fn exit_code_three_is_recorded() {
    let mut trace = Vec::new();
    let mut world = |a: &Action| match a {
        Action::Wait { .. } => exited(Some(3)),
        other => fine(other),
    };
    let finished = end(running(), 1000, &mut world, &mut trace);
    assert!(!finished.success());
    assert!(matches!(finished.error(), Some(Error::ReturnCode(3))));
    assert_eq!(
        finished.report_console(),
        "The job \"OVN Tests GCC - system (-100) (--opt)\" is done. Duration: 00m00s200ms, \
         Status: Fail, Non-zero return code: 3"
    );
}

#[test]
fn success_means_exit_code_zero() {
    for code in [Some(0), Some(1), Some(-2), Some(255), None] {
        let mut trace = Vec::new();
        let mut world = |a: &Action| match a {
            Action::Wait { .. } => exited(code),
            other => fine(other),
        };
        let finished = end(running(), 1000, &mut world, &mut trace);
        assert_eq!(finished.success(), code == Some(0));
        assert_eq!(finished.success(), finished.error().is_none());
    }
}

#[test]
fn a_signal_is_recorded_as_minus_one() {
    let mut trace = Vec::new();
    let mut world = |a: &Action| match a {
        Action::Wait { .. } => exited(None),
        other => fine(other),
    };
    let finished = end(running(), 1000, &mut world, &mut trace);
    assert!(matches!(finished.error(), Some(Error::ReturnCode(-1))));
}

#[test]
fn a_wait_that_failed_is_recorded() {
    let mut trace = Vec::new();
    let mut world = |a: &Action| match a {
        Action::Wait { .. } => Reply::Failed(io("no child")),
        other => fine(other),
    };
    let finished = end(running(), 1000, &mut world, &mut trace);
    match finished.error() {
        Some(Error::RunnerFinnish(e)) => assert_eq!(e.message, "no child"),
        other => panic!("unexpected: {:?}", other),
    }
}

#[test]
fn artifacts_that_cannot_be_fetched_take_the_place_of_the_exit_status() {
    let mut trace = Vec::new();
    let mut world = |a: &Action| match a {
        Action::Run { command } if command.get_program() == "scp" => Reply::Failed(io("no scp")),
        other => fine(other),
    };
    let finished = end(running(), 1000, &mut world, &mut trace);
    assert!(matches!(finished.error(), Some(Error::Vm(RunnerVmError::Command(_, _)))));
    // The process is not waited for, the machine is still destroyed.
    assert_eq!(trace.len(), 2);
    assert!(matches!(trace[1], Action::Run { .. }));
}

#[test]
fn a_machine_that_cannot_be_destroyed_is_only_warned_about() {
    let mut trace = Vec::new();
    let mut world = |a: &Action| match a {
        Action::Run { command } if command.get_program() == "virsh" => Reply::Failed(io("gone")),
        other => fine(other),
    };
    let finished = end(running(), 1000, &mut world, &mut trace);
    assert!(finished.success());
    match trace.last().unwrap() {
        Action::Warn { line } => assert_eq!(line, "Couldn't destroy VM ovn-ci-vm2: gone"),
        other => panic!("unexpected: {:?}", other),
    }
}

#[test]
fn durations_are_shown_as_minutes_seconds_and_milliseconds() {
    let cases: [(u64, &str); 7] = [
        (0, "00m00s000ms"),
        (999, "00m00s999ms"),
        (1000, "00m01s000ms"),
        (62_003, "01m02s003ms"),
        (3_599_999, "59m59s999ms"),
        (6_000_000, "100m00s000ms"),
        (65_042, "01m05s042ms"),
    ];
    for (millis, text) in cases {
        let mut trace = Vec::new();
        let mut first = true;
        // The start begins at 0; the wait is answered at `millis`.
        let mut finishing = {
            let mut t = Vec::new();
            match start(runner(), 0, &mut fine, &mut t) {
                Started::Running(r) => r.finish(),
                other => panic!("unexpected: {:?}", other),
            }
        };
        let finished = loop {
            let action = finishing.action();
            let reply = fine(&action);
            trace.push(action);
            let now = if first { 0 } else { millis };
            first = false;
            match finishing.advance(now, reply) {
                Ended::Pending(next) => finishing = next,
                Ended::Finished(done) => break done,
            }
        };
        assert_eq!(finished.format_duration(), text);
    }
}

#[test]
fn the_row_of_a_successful_job() {
    let mut trace = Vec::new();
    let finished = end(running(), 1000, &mut fine, &mut trace);
    assert_eq!(
        finished.report_html("ci.example.org", "/logs"),
        "<tr><td>OVN Tests GCC - system (-100) (--opt)</td><td class=\"ok\">Ok</td>\
         <td>00m00s200ms</td><td><a href=\"http://ci.example.org:8080/\
         run/ovn_tests_gcc_-_system_-100_--opt/ovn-ci.log\" target=\"_blank\">Log</a></td>\
         <td>-</td></tr>"
    );
}

#[test]
fn the_row_of_a_failed_job_links_to_its_artifacts() {
    let mut trace = Vec::new();
    let mut world = |a: &Action| match a {
        Action::Wait { .. } => exited(Some(1)),
        other => fine(other),
    };
    let finished = end(running(), 1000, &mut world, &mut trace);
    assert_eq!(
        finished.report_html("h", "/logs/run"),
        "<tr><td>OVN Tests GCC - system (-100) (--opt)</td><td class=\"fail\">Fail</td>\
         <td>00m00s200ms</td><td><a href=\"http://h:8080/\
         ovn_tests_gcc_-_system_-100_--opt/ovn-ci.log\" target=\"_blank\">Log</a></td>\
         <td><a href=\"http://h:8080/ovn_tests_gcc_-_system_-100_--opt/logs.tgz\" \
         target=\"_blank\">Artifacts</a></td></tr>"
    );
}

#[test]
fn a_row_outside_the_prefix_has_an_empty_path() {
    let mut trace = Vec::new();
    let finished = end(running(), 1000, &mut fine, &mut trace);
    let row = finished.report_html("h", "/elsewhere");
    assert!(row.contains("<a href=\"http://h:8080//ovn-ci.log\""));
}

#[test]
fn runner_error_messages() {
    assert_eq!(Error::LogFile(io("x")).message(), "Cannot create log file: x");
    assert_eq!(Error::LogWrite(io("x")).message(), "Cannot write to log file: x");
    assert_eq!(Error::LogDirectory(io("x")).message(), "Cannot create log directory: x");
    assert_eq!(
        Error::LogFileDescriptor(io("x")).message(),
        "Cannot clone log file descriptor: x"
    );
    assert_eq!(
        Error::Vm(RunnerVmError::CreateVm("t".to_string())).message(),
        "VM error: Cannot create VM: t"
    );
    assert_eq!(Error::RunnerStart(io("x")).message(), "Cannot start runner: x");
    assert_eq!(Error::RunnerFinnish(io("x")).message(), "Cannot finnish runner job: x");
    assert_eq!(Error::ReturnCode(3).message(), "Non-zero return code: 3");
    assert_eq!(Error::ReturnCode(-1).message(), "Non-zero return code: -1");
}

fn local() -> Runner<New> {
    let git = Git::new("/src/ovn".to_string(), "/src/ovs".to_string(), false);
    Runner::local(5, 4, Some("fedora:40"), &git, &suite(), "/logs/run")
}

#[test]
fn a_local_job_runs_the_script_in_the_source_tree() {
    let mut trace = Vec::new();
    let started = start(local(), 0, &mut fine, &mut trace);
    assert!(matches!(started, Started::Running(_)));
    // No machine: the log is made and written, then the process starts.
    assert_eq!(trace.len(), 4);
    assert!(matches!(&trace[0], Action::CreateDir { path, .. }
        if path == "/logs/run/ovn_tests_gcc_-_system_-100_--opt"));
    assert!(matches!(&trace[1], Action::OpenLog { job: 5, .. }));
    match &trace[2] {
        Action::WriteLog { text, .. } => assert_eq!(
            text,
            "Name: OVN Tests GCC - system (-100) (--opt)\n\
             Command: CC=gcc OPTS=--opt TESTSUITE=system-test TEST_RANGE=-100 \
             ./.ci/ci.sh --ovn-path=/src/ovn --ovs-path=/src/ovs --jobs=4 \
             --image-name=fedora:40\n"
        ),
        other => panic!("unexpected: {:?}", other),
    }
    match &trace[3] {
        Action::Spawn { job, command } => {
            assert_eq!(*job, 5);
            assert_eq!(
                words(command),
                vec![
                    "./.ci/ci.sh",
                    "--ovn-path=/src/ovn",
                    "--ovs-path=/src/ovs",
                    "--jobs=4",
                    "--image-name=fedora:40"
                ]
            );
            assert_eq!(command.get_current_dir(), &Some("/src/ovn".to_string()));
            assert_eq!(command.get_envs().len(), 4);
            assert_eq!(command.get_envs()[0], ("CC".to_string(), "gcc".to_string()));
        },
        other => panic!("unexpected: {:?}", other),
    }
}

#[test]
fn a_local_job_without_a_container_image() {
    let git = Git::new("/a".to_string(), "/b".to_string(), true);
    let runner = Runner::local(0, 1, None, &git, &suite(), "/logs");
    let mut trace = Vec::new();
    start(runner, 0, &mut fine, &mut trace);
    match trace.last().unwrap() {
        Action::Spawn { command, .. } => assert_eq!(
            words(command),
            vec!["./.ci/ci.sh", "--ovn-path=/a", "--ovs-path=/b", "--jobs=1"]
        ),
        other => panic!("unexpected: {:?}", other),
    }
}

#[test]
fn a_local_job_that_cannot_start_is_finished_at_once() {
    let mut trace = Vec::new();
    let mut world = |a: &Action| match a {
        Action::CreateDir { .. } => Reply::Failed(io("denied")),
        other => fine(other),
    };
    match start(local(), 100, &mut world, &mut trace) {
        Started::Finished(finished) => {
            assert!(!finished.success());
            assert!(matches!(finished.error(), Some(Error::LogDirectory(_))));
            assert_eq!(finished.duration(), 10);
        },
        other => panic!("unexpected: {:?}", other),
    }
    assert_eq!(trace.len(), 1);
}

#[test]
fn a_local_process_that_cannot_be_spawned() {
    let mut trace = Vec::new();
    let mut world = |a: &Action| match a {
        Action::Spawn { .. } => Reply::Failed(io("no such file")),
        other => fine(other),
    };
    match start(local(), 0, &mut world, &mut trace) {
        Started::Finished(finished) => match finished.error() {
            Some(Error::RunnerStart(e)) => assert_eq!(e.message, "no such file"),
            other => panic!("unexpected: {:?}", other),
        },
        other => panic!("unexpected: {:?}", other),
    }
    let mut world = |a: &Action| match a {
        Action::Spawn { .. } => Reply::Unopened(io("dup")),
        other => fine(other),
    };
    let mut trace = Vec::new();
    match start(local(), 0, &mut world, &mut trace) {
        Started::Finished(finished) => {
            assert!(matches!(finished.error(), Some(Error::LogFileDescriptor(_))))
        },
        other => panic!("unexpected: {:?}", other),
    }
}

#[test]
fn the_end_of_a_local_job_is_the_wait_alone() {
    for (code, success) in [(Some(0), true), (Some(3), false), (None, false)] {
        let mut trace = Vec::new();
        let running = match start(local(), 0, &mut fine, &mut trace) {
            Started::Running(r) => r,
            other => panic!("unexpected: {:?}", other),
        };
        let mut trace = Vec::new();
        let mut world = |a: &Action| match a {
            Action::Wait { .. } => exited(code),
            other => fine(other),
        };
        let finished = end(running, 1000, &mut world, &mut trace);
        assert_eq!(trace.len(), 1);
        assert!(matches!(trace[0], Action::Wait { job: 5 }));
        assert_eq!(finished.success(), success);
        if code == Some(3) {
            assert!(matches!(finished.error(), Some(Error::ReturnCode(3))));
        }
        assert_eq!(finished.duration(), 1100);
    }
}

#[test]
fn a_directory_name_has_no_parentheses_and_no_spaces() {
    assert_eq!(directory_of("ovn tests gcc - system (-100) (--opt)"), "ovn_tests_gcc_-_system_-100_--opt");
    assert_eq!(directory_of("a (b) c"), "a_b_c");
    assert_eq!(directory_of("((  ))"), "__");
    assert_eq!(directory_of(""), "");
    assert_eq!(directory_of("Kept As It Is"), "Kept_As_It_Is");
}

#[test]
fn the_row_for_a_given_path() {
    let mut trace = Vec::new();
    let finished = end(running(), 1000, &mut fine, &mut trace);
    assert_eq!(
        finished.report_row("h", "a/b"),
        "<tr><td>OVN Tests GCC - system (-100) (--opt)</td><td class=\"ok\">Ok</td>\
         <td>00m00s200ms</td><td><a href=\"http://h:8080/a/b/ovn-ci.log\" \
         target=\"_blank\">Log</a></td><td>-</td></tr>"
    );
    assert_eq!(finished.report_html("h", "/logs"), finished.report_row("h", "run/ovn_tests_gcc_-_system_-100_--opt"));
}

#[test]
fn the_prefix_is_stripped_by_components() {
    let mut trace = Vec::new();
    let finished = end(running(), 1000, &mut fine, &mut trace);
    let dir = "ovn_tests_gcc_-_system_-100_--opt";
    assert_eq!(finished.log_path(), format!("/logs/run/{}", dir));
    let below_run = finished.report_row("h", dir);
    assert_eq!(finished.report_html("h", "/logs/run"), below_run);
    assert_eq!(finished.report_html("h", "/logs/run/"), below_run);
    assert_eq!(finished.report_html("h", "/logs//run"), below_run);
    assert_eq!(finished.report_html("h", "/logs/./run"), below_run);
    // A prefix that ends within a component is none.
    assert_eq!(finished.report_html("h", "/logs/ru"), finished.report_row("h", ""));
    assert_eq!(finished.report_html("h", "logs/run"), finished.report_row("h", ""));
    // Below the empty prefix the whole path is left.
    assert_eq!(
        finished.report_html("h", ""),
        finished.report_row("h", &format!("/logs/run/{}", dir))
    );
}
