//! The run's configuration: where things are, how much may run at once, and
//! the suites to run.

use vstd::prelude::*;
use vstd::string::*;

verus! {

/// The compiler a suite is built with.
#[derive(Clone, Copy, Debug, PartialEq, Eq, Structural)]
pub enum Compiler {
    Gcc,
    Clang,
}

impl Compiler {
    /// The value handed to the job.
    pub open spec fn str_spec(self) -> Seq<char> {
        match self {
            Compiler::Gcc => "gcc"@,
            Compiler::Clang => "clang"@,
        }
    }

    /// The part of a display name.
    pub open spec fn name_spec(self) -> Seq<char> {
        match self {
            Compiler::Gcc => "GCC"@,
            Compiler::Clang => "Clang"@,
        }
    }

    /// The value handed to the job in `CC`.
    pub fn as_str(&self) -> (r: &'static str)
        ensures
            r@ == self.str_spec(),
    {
        match self {
            Compiler::Gcc => "gcc",
            Compiler::Clang => "clang",
        }
    }

    /// The compiler's part of a suite's display name.
    pub fn as_name(&self) -> (r: &'static str)
        ensures
            r@ == self.name_spec(),
    {
        match self {
            Compiler::Gcc => "GCC",
            Compiler::Clang => "Clang",
        }
    }
}

/// The kind of test run a suite performs.
#[derive(Clone, Copy, Debug, PartialEq, Eq, Structural)]
pub enum SuiteType {
    Unit,
    System,
    SystemUserspace,
    SystemDpdk,
    Dist,
}

impl SuiteType {
    /// The value handed to the job.
    pub open spec fn str_spec(self) -> Seq<char> {
        match self {
            SuiteType::Unit => "test"@,
            SuiteType::System => "system-test"@,
            SuiteType::SystemUserspace => "system-test-userspace"@,
            SuiteType::SystemDpdk => "system-test-dpdk"@,
            SuiteType::Dist => "dist-test"@,
        }
    }

    /// The part of a display name.
    pub open spec fn name_spec(self) -> Seq<char> {
        match self {
            SuiteType::Unit => "unit"@,
            SuiteType::System => "system"@,
            SuiteType::SystemUserspace => "system-userspace"@,
            SuiteType::SystemDpdk => "system-dpdk"@,
            SuiteType::Dist => "dist"@,
        }
    }

    /// The binding that the kind adds, if any.
    pub open spec fn extra_env_spec(self) -> Option<(Seq<char>, Seq<char>)> {
        match self {
            SuiteType::SystemDpdk => Some(("DPDK"@, "dpdk"@)),
            _ => None,
        }
    }

    /// The value handed to the job in `TESTSUITE`.
    pub fn as_str(&self) -> (r: &'static str)
        ensures
            r@ == self.str_spec(),
    {
        match self {
            SuiteType::Unit => "test",
            SuiteType::System => "system-test",
            SuiteType::SystemUserspace => "system-test-userspace",
            SuiteType::SystemDpdk => "system-test-dpdk",
            SuiteType::Dist => "dist-test",
        }
    }

    /// The kind's part of a suite's display name.
    pub fn as_name(&self) -> (r: &'static str)
        ensures
            r@ == self.name_spec(),
    {
        match self {
            SuiteType::Unit => "unit",
            SuiteType::System => "system",
            SuiteType::SystemUserspace => "system-userspace",
            SuiteType::SystemDpdk => "system-dpdk",
            SuiteType::Dist => "dist",
        }
    }

    /// The binding that this kind adds to the job's environment, if any.
    pub fn extra_env(&self) -> (r: Option<(&'static str, &'static str)>)
        ensures
            r.deep_view() == self.extra_env_spec(),
    {
        match self {
            SuiteType::Unit | SuiteType::System | SuiteType::SystemUserspace | SuiteType::Dist => {
                None
            },
            SuiteType::SystemDpdk => Some(("DPDK", "dpdk")),
        }
    }
}

/// One named, parameterised test configuration, run as one job.
#[derive(Debug)]
pub struct Suite {
    name: String,
    compiler: Compiler,
    options: Option<String>,
    suite_type: Option<SuiteType>,
    sanitizers: bool,
    test_range: Option<String>,
    libs: Option<String>,
    unstable: bool,
    recheck: bool,
}

/// What a `Suite` holds, as contracts speak of it.
pub struct SuiteView {
    pub name: Seq<char>,
    pub compiler: Compiler,
    pub options: Option<Seq<char>>,
    pub suite_type: Option<SuiteType>,
    pub sanitizers: bool,
    pub test_range: Option<Seq<char>>,
    pub libs: Option<Seq<char>>,
    pub unstable: bool,
    pub recheck: bool,
}

impl View for Suite {
    type V = SuiteView;

    closed spec fn view(&self) -> SuiteView {
        SuiteView {
            name: self.name@,
            compiler: self.compiler,
            options: self.options.deep_view(),
            suite_type: self.suite_type,
            sanitizers: self.sanitizers,
            test_range: self.test_range.deep_view(),
            libs: self.libs.deep_view(),
            unstable: self.unstable,
            recheck: self.recheck,
        }
    }
}

impl DeepView for Suite {
    type V = SuiteView;

    open spec fn deep_view(&self) -> SuiteView {
        self@
    }
}

/// `text` in parentheses after a space, or nothing for `None`.
pub open spec fn parenthesised(text: Option<Seq<char>>) -> Seq<char> {
    match text {
        Some(t) => " ("@ + t + ")"@,
        None => Seq::empty(),
    }
}

/// `text` when `flag` is set, else nothing.
pub open spec fn when(flag: bool, text: Seq<char>) -> Seq<char> {
    if flag {
        text
    } else {
        Seq::empty()
    }
}

/// The binding of `key` to `value`, or nothing for `None`.
pub open spec fn binding(key: Seq<char>, value: Option<Seq<char>>) -> Seq<(Seq<char>, Seq<char>)> {
    match value {
        Some(v) => seq![(key, v)],
        None => Seq::empty(),
    }
}

impl SuiteView {
    /// The suite's display name: its name and compiler, then each of its
    /// settings that is present, in a fixed order.
    pub open spec fn name(self) -> Seq<char> {
        self.name + " "@ + self.compiler.name_spec() + (match self.suite_type {
            Some(ty) => " - "@ + ty.name_spec(),
            None => Seq::empty(),
        }) + parenthesised(self.test_range) + when(self.sanitizers, " - sanitizers"@)
            + parenthesised(self.options) + parenthesised(self.libs) + when(
            self.unstable,
            " - unstable"@,
        ) + when(self.recheck, " - recheck"@)
    }

    /// The environment bindings that the suite hands to its job, in the
    /// order in which they are made.
    pub open spec fn envs(self) -> Seq<(Seq<char>, Seq<char>)> {
        seq![("CC"@, self.compiler.str_spec())] + binding("OPTS"@, self.options) + kind_bindings(
            self.suite_type,
        ) + when_bound(self.sanitizers, "SANITIZERS"@, "sanitizers"@) + binding(
            "TEST_RANGE"@,
            self.test_range,
        ) + binding("LIBS"@, self.libs) + when_bound(self.unstable, "UNSTABLE"@, "unstable"@)
            + when_bound(self.recheck, "RECHECK"@, "yes"@)
    }

    /// Whether the suite belongs to the cpu-intensive class: it has no kind,
    /// or is a unit or a dist suite.
    pub open spec fn is_cpu_intensive(self) -> bool {
        match self.suite_type {
            None => true,
            Some(SuiteType::Unit) => true,
            Some(SuiteType::Dist) => true,
            _ => false,
        }
    }
}

/// The binding of `key` to `value` when `flag` is set, else nothing.
pub open spec fn when_bound(flag: bool, key: Seq<char>, value: Seq<char>) -> Seq<
    (Seq<char>, Seq<char>),
> {
    if flag {
        seq![(key, value)]
    } else {
        Seq::empty()
    }
}

fn append_parenthesised(name: &mut String, text: &Option<String>)
    ensures
        final(name)@ == old(name)@ + parenthesised(text.deep_view()),
{
    match text {
        Some(t) => {
            let ghost before = name@;
            name.append(" (");
            name.append(t.as_str());
            name.append(")");
            assert(name@ =~= before + (" ("@ + t@ + ")"@));
        },
        None => {
            assert(name@ =~= name@ + Seq::<char>::empty());
        },
    }
}

fn append_when(name: &mut String, flag: bool, text: &str)
    ensures
        final(name)@ == old(name)@ + when(flag, text@),
{
    if flag {
        name.append(text);
    } else {
        assert(name@ =~= name@ + Seq::<char>::empty());
    }
}

fn push_binding<'a>(envs: &mut Vec<(&'a str, &'a str)>, key: &'a str, value: &'a Option<String>)
    ensures
        final(envs).deep_view() == old(envs).deep_view() + binding(key@, value.deep_view()),
{
    match value {
        Some(v) => {
            envs.push((key, v.as_str()));
            assert(envs.deep_view() =~= old(envs).deep_view() + seq![(key@, v@)]);
        },
        None => {
            assert(envs.deep_view() =~= old(envs).deep_view() + Seq::empty());
        },
    }
}

fn push_when<'a>(envs: &mut Vec<(&'a str, &'a str)>, flag: bool, key: &'a str, value: &'a str)
    ensures
        final(envs).deep_view() == old(envs).deep_view() + when_bound(flag, key@, value@),
{
    if flag {
        envs.push((key, value));
        assert(envs.deep_view() =~= old(envs).deep_view() + seq![(key@, value@)]);
    } else {
        assert(envs.deep_view() =~= old(envs).deep_view() + Seq::empty());
    }
}

/// The bindings that a suite's kind contributes.
pub open spec fn kind_bindings(kind: Option<SuiteType>) -> Seq<(Seq<char>, Seq<char>)> {
    match kind {
        Some(ty) => seq![("TESTSUITE"@, ty.str_spec())] + (match ty.extra_env_spec() {
            Some(extra) => seq![extra],
            None => Seq::empty(),
        }),
        None => Seq::empty(),
    }
}

fn push_kind<'a>(envs: &mut Vec<(&'a str, &'a str)>, kind: &'a Option<SuiteType>)
    ensures
        final(envs).deep_view() == old(envs).deep_view() + kind_bindings(*kind),
{
    match kind {
        Some(ty) => {
            envs.push(("TESTSUITE", ty.as_str()));
            match ty.extra_env() {
                Some(extra) => {
                    envs.push(extra);
                    assert(envs.deep_view() =~= old(envs).deep_view() + (seq![
                        ("TESTSUITE"@, ty.str_spec()),
                    ] + seq![extra.deep_view()]));
                },
                None => {
                    assert(envs.deep_view() =~= old(envs).deep_view() + (seq![
                        ("TESTSUITE"@, ty.str_spec()),
                    ] + Seq::empty()));
                },
            }
        },
        None => {
            assert(envs.deep_view() =~= old(envs).deep_view() + Seq::empty());
        },
    }
}

impl Suite {
    pub fn new(
        name: String,
        compiler: Compiler,
        options: Option<String>,
        suite_type: Option<SuiteType>,
        sanitizers: bool,
        test_range: Option<String>,
        libs: Option<String>,
        unstable: bool,
        recheck: bool,
    ) -> (s: Suite)
        ensures
            s@ == (SuiteView {
                name: name@,
                compiler,
                options: options.deep_view(),
                suite_type,
                sanitizers,
                test_range: test_range.deep_view(),
                libs: libs.deep_view(),
                unstable,
                recheck,
            }),
    {
        Suite {
            name,
            compiler,
            options,
            suite_type,
            sanitizers,
            test_range,
            libs,
            unstable,
            recheck,
        }
    }

    /// The environment bindings for the suite's job.
    pub fn envs(&self) -> (envs: Vec<(&str, &str)>)
        ensures
            envs.deep_view() == self@.envs(),
    {
        let mut envs: Vec<(&str, &str)> = Vec::with_capacity(4);
        envs.push(("CC", self.compiler.as_str()));
        assert(envs.deep_view() =~= seq![("CC"@, self.compiler.str_spec())]);
        push_binding(&mut envs, "OPTS", &self.options);
        push_kind(&mut envs, &self.suite_type);
        push_when(&mut envs, self.sanitizers, "SANITIZERS", "sanitizers");
        push_binding(&mut envs, "TEST_RANGE", &self.test_range);
        push_binding(&mut envs, "LIBS", &self.libs);
        push_when(&mut envs, self.unstable, "UNSTABLE", "unstable");
        push_when(&mut envs, self.recheck, "RECHECK", "yes");
        envs
    }

    /// The suite's display name.
    pub fn name(&self) -> (name: String)
        ensures
            name@ == self@.name(),
    {
        let mut name = String::from_str(self.name.as_str());
        name.append(" ");
        name.append(self.compiler.as_name());
        let ghost s0 = name@;

        if let Some(ty) = self.suite_type {
            name.append(" - ");
            name.append(ty.as_name());
            assert(name@ =~= s0 + (" - "@ + ty.name_spec()));
        } else {
            assert(name@ =~= s0 + Seq::<char>::empty());
        }
        append_parenthesised(&mut name, &self.test_range);
        append_when(&mut name, self.sanitizers, " - sanitizers");
        append_parenthesised(&mut name, &self.options);
        append_parenthesised(&mut name, &self.libs);
        append_when(&mut name, self.unstable, " - unstable");
        append_when(&mut name, self.recheck, " - recheck");
        name
    }

    /// Whether the suite belongs to the cpu-intensive class.
    pub fn is_cpu_intensive(&self) -> (r: bool)
        ensures
            r == self@.is_cpu_intensive(),
    {
        match self.suite_type {
            None => true,
            Some(SuiteType::Unit) => true,
            Some(SuiteType::Dist) => true,
            _ => false,
        }
    }
}

/// Two suites with the same fields have the same display name, the same
/// environment bindings and the same class.
pub proof fn lemma_suite_derivations_are_functions(a: Suite, b: Suite)
    requires
        a@ == b@,
    ensures
        a@.name() == b@.name(),
        a@.envs() == b@.envs(),
        a@.is_cpu_intensive() == b@.is_cpu_intensive(),
{
}


/// Where the two source trees are, and whether to refresh them first.
#[derive(Debug)]
pub struct Git {
    ovn_path: String,
    ovs_path: String,
    update: bool,
}

/// What a `Git` holds, as contracts speak of it.
pub struct GitView {
    pub ovn_path: Seq<char>,
    pub ovs_path: Seq<char>,
    pub update: bool,
}

impl View for Git {
    type V = GitView;

    closed spec fn view(&self) -> GitView {
        GitView { ovn_path: self.ovn_path@, ovs_path: self.ovs_path@, update: self.update }
    }
}

impl Git {
    pub fn new(ovn_path: String, ovs_path: String, update: bool) -> (g: Git)
        ensures
            g@ == (GitView { ovn_path: ovn_path@, ovs_path: ovs_path@, update }),
    {
        Git { ovn_path, ovs_path, update }
    }

    pub fn should_update(&self) -> (r: bool)
        ensures
            r == self@.update,
    {
        self.update
    }

    pub fn ovn_path(&self) -> (r: &str)
        ensures
            r@ == self@.ovn_path,
    {
        self.ovn_path.as_str()
    }

    pub fn ovs_path(&self) -> (r: &str)
        ensures
            r@ == self@.ovs_path,
    {
        self.ovs_path.as_str()
    }
}

/// Where the failure report is mailed.
#[derive(Debug)]
pub struct Email {
    smtp: String,
    to: String,
    reply_to: String,
    cc: Option<Vec<String>>,
}

/// What a `Email` holds, as contracts speak of it.
pub struct EmailView {
    pub smtp: Seq<char>,
    pub to: Seq<char>,
    pub reply_to: Seq<char>,
    pub cc: Option<Seq<Seq<char>>>,
}

impl View for Email {
    type V = EmailView;

    closed spec fn view(&self) -> EmailView {
        EmailView {
            smtp: self.smtp@,
            to: self.to@,
            reply_to: self.reply_to@,
            cc: self.cc.deep_view(),
        }
    }
}

impl DeepView for Email {
    type V = EmailView;

    open spec fn deep_view(&self) -> EmailView {
        self@
    }
}

impl Email {
    pub fn new(smtp: String, to: String, reply_to: String, cc: Option<Vec<String>>) -> (e: Email)
        ensures
            e@ == (EmailView { smtp: smtp@, to: to@, reply_to: reply_to@, cc: cc.deep_view() }),
    {
        Email { smtp, to, reply_to, cc }
    }

    pub fn smtp(&self) -> (r: &str)
        ensures
            r@ == self@.smtp,
    {
        self.smtp.as_str()
    }

    pub fn to(&self) -> (r: &str)
        ensures
            r@ == self@.to,
    {
        self.to.as_str()
    }

    pub fn reply_to(&self) -> (r: &str)
        ensures
            r@ == self@.reply_to,
    {
        self.reply_to.as_str()
    }

    pub fn cc(&self) -> (r: Option<&Vec<String>>)
        ensures
            r.deep_view() == self@.cc,
    {
        self.cc.as_ref()
    }
}

/// The resources of the virtual machines.
#[derive(Debug)]
pub struct Vm {
    memory: u32,
    release: String,
}

/// What a `Vm` holds, as contracts speak of it.
pub struct VmView {
    pub memory: u32,
    pub release: Seq<char>,
}

impl View for Vm {
    type V = VmView;

    closed spec fn view(&self) -> VmView {
        VmView { memory: self.memory, release: self.release@ }
    }
}

impl Vm {
    pub fn new(memory: u32, release: String) -> (v: Vm)
        ensures
            v@ == (VmView { memory, release: release@ }),
    {
        Vm { memory, release }
    }

    pub fn memory(&self) -> (r: u32)
        ensures
            r == self@.memory,
    {
        self.memory
    }

    pub fn release(&self) -> (r: &str)
        ensures
            r@ == self@.release,
    {
        self.release.as_str()
    }
}

/// Everything a run is configured with.
#[derive(Debug)]
pub struct Configuration {
    jobs: usize,
    log_path: String,
    host: String,
    image_name: Option<String>,
    concurrent_limit: Option<usize>,
    timeout: Option<String>,
    cli_report_binary: Option<String>,
    git: Git,
    email: Option<Email>,
    vm: Vm,
    suites: Vec<Suite>,
}

/// What a `Configuration` holds, as contracts speak of it.
pub struct ConfigurationView {
    pub jobs: usize,
    pub log_path: Seq<char>,
    pub host: Seq<char>,
    pub image_name: Option<Seq<char>>,
    pub concurrent_limit: Option<usize>,
    pub timeout: Option<Seq<char>>,
    pub cli_report_binary: Option<Seq<char>>,
    pub git: GitView,
    pub email: Option<EmailView>,
    pub vm: VmView,
    pub suites: Seq<SuiteView>,
}

impl View for Configuration {
    type V = ConfigurationView;

    closed spec fn view(&self) -> ConfigurationView {
        ConfigurationView {
            jobs: self.jobs,
            log_path: self.log_path@,
            host: self.host@,
            image_name: self.image_name.deep_view(),
            concurrent_limit: self.concurrent_limit,
            timeout: self.timeout.deep_view(),
            cli_report_binary: self.cli_report_binary.deep_view(),
            git: self.git@,
            email: self.email.deep_view(),
            vm: self.vm@,
            suites: self.suites.deep_view(),
        }
    }
}

impl ConfigurationView {
    /// The per-job timeout handed to the job script; `0` when none is set.
    pub open spec fn timeout(self) -> Seq<char> {
        match self.timeout {
            Some(t) => t,
            None => "0"@,
        }
    }
}

impl Configuration {
    pub fn new(
        jobs: usize,
        log_path: String,
        host: String,
        image_name: Option<String>,
        concurrent_limit: Option<usize>,
        timeout: Option<String>,
        cli_report_binary: Option<String>,
        git: Git,
        email: Option<Email>,
        vm: Vm,
        suites: Vec<Suite>,
    ) -> (c: Configuration)
        ensures
            c@ == (ConfigurationView {
                jobs,
                log_path: log_path@,
                host: host@,
                image_name: image_name.deep_view(),
                concurrent_limit,
                timeout: timeout.deep_view(),
                cli_report_binary: cli_report_binary.deep_view(),
                git: git@,
                email: email.deep_view(),
                vm: vm@,
                suites: suites.deep_view(),
            }),
    {
        Configuration {
            jobs,
            log_path,
            host,
            image_name,
            concurrent_limit,
            timeout,
            cli_report_binary,
            git,
            email,
            vm,
            suites,
        }
    }

    pub fn jobs(&self) -> (r: usize)
        ensures
            r == self@.jobs,
    {
        self.jobs
    }

    pub fn log_path(&self) -> (r: &str)
        ensures
            r@ == self@.log_path,
    {
        self.log_path.as_str()
    }

    pub fn host(&self) -> (r: &str)
        ensures
            r@ == self@.host,
    {
        self.host.as_str()
    }

    pub fn image_name(&self) -> (r: Option<&str>)
        ensures
            r.deep_view() == self@.image_name,
    {
        match &self.image_name {
            Some(name) => Some(name.as_str()),
            None => None,
        }
    }

    pub fn concurrent_limit(&self) -> (r: Option<usize>)
        ensures
            r == self@.concurrent_limit,
    {
        self.concurrent_limit
    }

    pub fn cli_report_binary(&self) -> (r: Option<&str>)
        ensures
            r.deep_view() == self@.cli_report_binary,
    {
        match &self.cli_report_binary {
            Some(binary) => Some(binary.as_str()),
            None => None,
        }
    }

    pub fn timeout(&self) -> (r: &str)
        ensures
            r@ == self@.timeout(),
    {
        match &self.timeout {
            Some(timeout) => timeout.as_str(),
            None => "0",
        }
    }

    pub fn git(&self) -> (r: &Git)
        ensures
            r@ == self@.git,
    {
        &self.git
    }

    pub fn email(&self) -> (r: Option<&Email>)
        ensures
            r.deep_view() == self@.email,
    {
        self.email.as_ref()
    }

    pub fn vm(&self) -> (r: &Vm)
        ensures
            r@ == self@.vm,
    {
        &self.vm
    }

    pub fn suites(&self) -> (r: &[Suite])
        ensures
            r.deep_view() == self@.suites,
    {
        self.suites.as_slice()
    }
}

} // verus!
