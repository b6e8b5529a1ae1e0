use ovn_ci::cli_report::CliReport;
use ovn_ci::clock::{Clock, DATE_FORMAT, STAMP_FORMAT};
use ovn_ci::command::{Command, ExitStatus, Output};
use ovn_ci::config::Email;
use ovn_ci::container::{Container, Error as ContainerError};
use ovn_ci::effect::{Action, IoError, IoErrorKind, Reply};
use ovn_ci::email::{Error as EmailError, Report};
use ovn_ci::git::{Error as GitError, Git, UpdatePhase};
use ovn_ci::util::Arch;

fn ok(stdout: &str) -> Reply {
    Reply::Output(Output {
        status: ExitStatus { code: Some(0) },
        stdout: stdout.as_bytes().to_vec(),
        stderr: Vec::new(),
    })
}

fn failed(stderr: &str) -> Reply {
    Reply::Output(Output {
        status: ExitStatus { code: Some(128) },
        stdout: b"ignored".to_vec(),
        stderr: stderr.as_bytes().to_vec(),
    })
}

fn io(message: &str) -> Reply {
    Reply::Failed(IoError { kind: IoErrorKind::NotFound, message: message.to_string() })
}

fn command(action: Action) -> Command {
    match action {
        Action::Run { command } => command,
        other => panic!("not a command: {:?}", other),
    }
}

fn words(c: &Command) -> Vec<String> {
    let mut all = vec![c.get_program().to_string()];
    all.extend(c.get_args().iter().cloned());
    all
}

#[test]
fn git_asks_for_the_commit_in_the_tree() {
    let c = command(Git::new("/src/ovn").commit_hash());
    assert_eq!(words(&c), vec!["git", "rev-parse", "HEAD"]);
    assert_eq!(c.get_current_dir(), &Some("/src/ovn".to_string()));
}

#[test]
fn git_reads_the_commit_without_the_line_end() {
    let git = Git::new("/src/ovn");
    assert_eq!(git.commit_hash_of(ok("0123abcd\n")).unwrap(), "0123abcd");
    assert_eq!(git.commit_hash_of(ok("  0123abcd \n\n")).unwrap(), "  0123abcd");
    assert_eq!(git.commit_hash_of(ok("")).unwrap(), "");
}

#[test]
fn git_failures_of_reading_the_commit() {
    let git = Git::new("/src/ovn");
    match git.commit_hash_of(failed("not a repository")) {
        Err(GitError::CommitHash(path, text)) => {
            assert_eq!(path, "/src/ovn");
            assert_eq!(text, "not a repository");
        },
        other => panic!("unexpected: {:?}", other),
    }
    match git.commit_hash_of(io("no git")) {
        Err(GitError::Command(e)) => assert_eq!(e.message, "no git"),
        other => panic!("unexpected: {:?}", other),
    }
}

#[test]
fn git_pulls_a_tree_that_stands_alone() {
    let git = Git::new("/src/ovn");
    let c = command(git.update_action(&UpdatePhase::Parent));
    assert_eq!(words(&c), vec!["git", "rev-parse", "--show-superproject-working-tree"]);
    assert_eq!(c.get_current_dir(), &Some("/src/ovn".to_string()));
    let next = git.update(UpdatePhase::Parent, ok("\n")).unwrap().unwrap();
    assert!(matches!(next, UpdatePhase::Project));
    let c = command(git.update_action(&next));
    assert_eq!(words(&c), vec!["git", "pull", "--rebase"]);
    assert_eq!(c.get_current_dir(), &Some("/src/ovn".to_string()));
    assert!(git.update(next, ok("Already up to date.")).unwrap().is_none());
}

#[test]
fn git_updates_a_submodule_from_its_project() {
    let git = Git::new("/src/ovn/ovs");
    let next = git.update(UpdatePhase::Parent, ok("/src/ovn\n")).unwrap().unwrap();
    assert!(matches!(&next, UpdatePhase::Submodule(parent) if parent == "/src/ovn"));
    let c = command(git.update_action(&next));
    assert_eq!(words(&c), vec!["git", "submodule", "update", "--init"]);
    assert_eq!(c.get_current_dir(), &Some("/src/ovn".to_string()));
    assert!(git.update(next, ok("")).unwrap().is_none());
    assert_eq!(
        words(&git.update_submodule_command("/w")),
        vec!["git", "submodule", "update", "--init"]
    );
    assert_eq!(words(&git.update_project_command()), vec!["git", "pull", "--rebase"]);
    assert_eq!(git.submodule_parent(ok("/p \n")).unwrap(), "/p");
}

#[test]
fn git_failures_of_an_update() {
    let git = Git::new("/t");
    assert!(matches!(
        git.update(UpdatePhase::Parent, failed("bad")),
        Err(GitError::SubmoduleParent(p, t)) if p == "/t" && t == "bad"
    ));
    assert!(matches!(git.update(UpdatePhase::Parent, io("x")), Err(GitError::Command(_))));
    assert!(matches!(
        git.update(UpdatePhase::Project, failed("conflict")),
        Err(GitError::Update(p, t)) if p == "/t" && t == "conflict"
    ));
    assert!(matches!(git.update(UpdatePhase::Project, io("x")), Err(GitError::Command(_))));
    assert!(matches!(
        git.update(UpdatePhase::Submodule("/p".to_string()), failed("gone")),
        Err(GitError::SubmoduleUpdate(p, t)) if p == "/t" && t == "gone"
    ));
    assert!(matches!(
        git.update(UpdatePhase::Submodule("/p".to_string()), io("x")),
        Err(GitError::Command(_))
    ));
}

#[test]
fn git_error_messages() {
    let s = |m: &str| m.to_string();
    let e = IoError { kind: IoErrorKind::Other, message: s("x") };
    assert_eq!(GitError::Command(e).message(), "Git command failed: x");
    assert_eq!(
        GitError::SubmoduleParent(s("/p"), s("t")).message(),
        "Cannot determine if \"/p\" is submodule: t"
    );
    assert_eq!(
        GitError::SubmoduleUpdate(s("/p"), s("t")).message(),
        "Cannot update submodule \"/p\": t"
    );
    assert_eq!(GitError::Update(s("/p"), s("t")).message(), "Cannot update project \"/p\": t");
    assert_eq!(
        GitError::CommitHash(s("/p"), s("t")).message(),
        "Cannot determine commit hash \"/p\": t"
    );
}

#[test]
fn container_pull() {
    let c = Container::new("quay.io/ovn");
    assert_eq!(words(&command(c.pull())), vec!["podman", "pull", "quay.io/ovn"]);
    assert!(c.pulled(ok("")).is_ok());
    match c.pulled(failed("denied")) {
        Err(ContainerError::ImagePull(image, text)) => {
            assert_eq!(image, "quay.io/ovn");
            assert_eq!(text, "denied");
        },
        other => panic!("unexpected: {:?}", other),
    }
    match c.pulled(io("no podman")) {
        Err(ContainerError::Command(e)) => assert_eq!(e.message, "no podman"),
        other => panic!("unexpected: {:?}", other),
    }
}

#[test]
fn container_error_messages() {
    let e = IoError { kind: IoErrorKind::Other, message: "x".to_string() };
    assert_eq!(ContainerError::Command(e).message(), "Container command failed: x");
    assert_eq!(
        ContainerError::ImagePull("i".to_string(), "t".to_string()).message(),
        "Cannot pull \"i\": t"
    );
}

fn email(cc: Option<Vec<String>>) -> Email {
    Email::new("smtp.x".to_string(), "to@x".to_string(), "reply@x".to_string(), cc)
}

#[test]
fn the_mail_carries_the_report() {
    let report = Report::new(&email(None), "/logs/run/report.html", "OVN CI", "ci.x");
    let c = command(report.send());
    assert_eq!(
        words(&c),
        vec![
            "mailx",
            "-s",
            "OVN CI\r\nContent-Type: text/html",
            "-S",
            "smtp=smtp.x",
            "-S",
            "replyto=reply@x",
            "-r",
            "OVN CI Automation <root@ci.x>",
            "to@x",
        ]
    );
    assert_eq!(c.get_stdin(), &Some("/logs/run/report.html".to_string()));
}

#[test]
fn the_mail_is_copied_to_the_configured_addresses() {
    let cc = Some(vec!["a@x".to_string(), "b@x".to_string()]);
    let c = command(Report::new(&email(cc), "/r", "h", "host").send());
    let all = words(&c);
    assert_eq!(&all[all.len() - 3..], &["-c", "a@x,b@x", "to@x"]);
    let c = command(Report::new(&email(Some(vec![])), "/r", "h", "host").send());
    let all = words(&c);
    assert_eq!(&all[all.len() - 3..], &["-c", "", "to@x"]);
}

#[test]
fn outcomes_of_sending_the_mail() {
    assert!(Report::sent(ok("")).is_ok());
    assert!(matches!(Report::sent(failed("rejected")), Err(EmailError::Mailx(t)) if t == "rejected"));
    assert!(matches!(Report::sent(io("no mailx")), Err(EmailError::Command(_))));
    let unopened =
        Reply::Unopened(IoError { kind: IoErrorKind::NotFound, message: "no report".to_string() });
    assert!(matches!(Report::sent(unopened), Err(EmailError::ReportFile(e)) if e.message == "no report"));
}

#[test]
fn email_error_messages() {
    let e = |m: &str| IoError { kind: IoErrorKind::Other, message: m.to_string() };
    assert_eq!(EmailError::Command(e("x")).message(), "Cannot execute \"mailx\": x");
    assert_eq!(EmailError::Mailx("t".to_string()).message(), "\"mailx\" failed: t");
    assert_eq!(EmailError::ReportFile(e("x")).message(), "Cannot open report file: x");
}

#[test]
fn the_sidecar_is_told_of_the_start() {
    let r = CliReport::new("/bin/report".to_string(), "http://h:8080/run".to_string());
    let c = command(r.start("abc123", Arch::Arm64));
    assert_eq!(
        words(&c),
        vec!["/bin/report", "pipeline-start", "ovn-ci (ARM64)", "abc123", "http://h:8080/run"]
    );
    assert!(c.inherits_output());
}

#[test]
fn the_sidecar_is_told_of_the_end() {
    let r = CliReport::new("/bin/report".to_string(), "u".to_string());
    assert_eq!(words(&command(r.finish(true))), vec!["/bin/report", "pipeline-finish", "u"]);
    assert_eq!(
        words(&command(r.finish(false))),
        vec!["/bin/report", "pipeline-finish", "--error", "u"]
    );
}

#[test]
fn the_sidecar_is_told_of_a_result() {
    let r = CliReport::new("/bin/report".to_string(), "u".to_string()).duplicate();
    assert_eq!(
        words(&command(r.test_result("job", true))),
        vec!["/bin/report", "pipeline-result", "u", "job"]
    );
    assert_eq!(
        words(&command(r.test_result("job", false))),
        vec!["/bin/report", "pipeline-result", "--failed", "u", "job"]
    );
}

#[test]
fn only_a_sidecar_that_could_not_run_is_complained_about() {
    assert_eq!(CliReport::complain("pipeline-start", ok("")), None);
    assert_eq!(CliReport::complain("pipeline-start", failed("bad")), None);
    assert_eq!(
        CliReport::complain("pipeline-start", io("missing")),
        Some("Couldn't run cli report (pipeline-start): missing".to_string())
    );
}

#[test]
fn the_clock_reads_the_calendar() {
    let c = Clock::at(77, 0).unwrap();
    assert_eq!(c.millis(), 77);
    assert_eq!(c.day(), 1);
    assert_eq!(c.stamp(), "19700101-000000");
    assert_eq!(c.date(), "01 January 1970");
    // 2024-02-29 23:59:58 UTC.
    let c = Clock::at(0, 1_709_251_198).unwrap();
    assert_eq!(c.day(), 29);
    assert_eq!(c.stamp(), "20240229-235958");
    assert_eq!(c.date(), "29 February 2024");
    let c = Clock::at(0, -1).unwrap();
    assert_eq!(c.day(), 31);
    assert_eq!(c.stamp(), "19691231-235959");
    assert_eq!(STAMP_FORMAT, "%Y%m%d-%H%M%S");
    assert_eq!(DATE_FORMAT, "%d %B %Y");
}

#[test]
fn the_clock_knows_the_limits_of_the_calendar() {
    assert!(Clock::at(0, i64::MAX).is_none());
    assert!(Clock::at(0, i64::MIN).is_none());
}
