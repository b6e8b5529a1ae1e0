//! Descriptions of external commands and of what they leave behind. A
//! `Command` is a value: building one runs nothing.

use vstd::prelude::*;
use vstd::string::*;
use vstd::utf8::*;

verus! {

/// How a process ended: its exit code, or none when a signal ended it.
#[derive(Clone, Copy, Debug, PartialEq, Eq, Structural)]
pub struct ExitStatus {
    pub code: Option<i32>,
}

impl ExitStatus {
    /// Whether the process exited with code zero.
    #[verifier::allow_in_spec]
    pub fn success(&self) -> bool
        returns
            self.code == Some(0i32),
    {
        match self.code {
            Some(c) => c == 0,
            None => false,
        }
    }
}

/// What a command that ran to its end left behind.
#[derive(Debug)]
pub struct Output {
    pub status: ExitStatus,
    pub stdout: Vec<u8>,
    pub stderr: Vec<u8>,
}

/// What a `Output` holds, as contracts speak of it.
pub struct OutputView {
    pub status: ExitStatus,
    pub stdout: Seq<u8>,
    pub stderr: Seq<u8>,
}

impl View for Output {
    type V = OutputView;

    open spec fn view(&self) -> OutputView {
        OutputView { status: self.status, stdout: self.stdout@, stderr: self.stderr@ }
    }
}

/// Byte-wise lexicographic order, strict.
pub open spec fn bytes_before(a: Seq<u8>, b: Seq<u8>) -> bool
    decreases a.len(),
{
    if b.len() == 0 {
        false
    } else if a.len() == 0 {
        true
    } else if a[0] != b[0] {
        a[0] < b[0]
    } else {
        bytes_before(a.skip(1), b.skip(1))
    }
}

/// The order in which environment keys are kept: by their encoded bytes.
pub open spec fn key_before(a: Seq<char>, b: Seq<char>) -> bool {
    bytes_before(encode_utf8(a), encode_utf8(b))
}

/// The bindings `envs` with `key` bound to `value`: the binding takes the
/// place of one with an equal key, or else stands before the first greater
/// key.
pub open spec fn with_binding(
    envs: Seq<(Seq<char>, Seq<char>)>,
    key: Seq<char>,
    value: Seq<char>,
) -> Seq<(Seq<char>, Seq<char>)>
    decreases envs.len(),
{
    if envs.len() == 0 {
        seq![(key, value)]
    } else if key_before(envs[0].0, key) {
        seq![envs[0]] + with_binding(envs.skip(1), key, value)
    } else if key_before(key, envs[0].0) {
        seq![(key, value)] + envs
    } else {
        seq![(key, value)] + envs.skip(1)
    }
}

/// The bindings `envs` after each of `more` was bound in turn.
pub open spec fn with_bindings(
    envs: Seq<(Seq<char>, Seq<char>)>,
    more: Seq<(Seq<char>, Seq<char>)>,
) -> Seq<(Seq<char>, Seq<char>)>
    decreases more.len(),
{
    if more.len() == 0 {
        envs
    } else {
        with_binding(with_bindings(envs, more.drop_last()), more.last().0, more.last().1)
    }
}

/// Whether the bindings stand in the strict order of their keys, so that no
/// key occurs twice.
pub open spec fn ordered(envs: Seq<(Seq<char>, Seq<char>)>) -> bool {
    forall|i: int, j: int| 0 <= i < j < envs.len() ==> key_before(envs[i].0, envs[j].0)
}

proof fn lemma_bytes_before_is_transitive(a: Seq<u8>, b: Seq<u8>, c: Seq<u8>)
    requires
        bytes_before(a, b),
        bytes_before(b, c),
    ensures
        bytes_before(a, c),
    decreases a.len(),
{
    if a.len() > 0 && a[0] == b[0] && b[0] == c[0] {
        lemma_bytes_before_is_transitive(a.skip(1), b.skip(1), c.skip(1));
    }
}

proof fn lemma_bytes_before_is_total(a: Seq<u8>, b: Seq<u8>)
    ensures
        bytes_before(a, b) || bytes_before(b, a) || a == b,
    decreases a.len(),
{
    if a.len() > 0 && b.len() > 0 && a[0] == b[0] {
        lemma_bytes_before_is_total(a.skip(1), b.skip(1));
        if a.skip(1) == b.skip(1) {
            assert(a =~= seq![a[0]] + a.skip(1));
            assert(b =~= seq![b[0]] + b.skip(1));
        }
    } else if a.len() == 0 && b.len() == 0 {
        assert(a =~= b);
    }
}

proof fn lemma_with_binding_holds_only_old_and_new(
    envs: Seq<(Seq<char>, Seq<char>)>,
    key: Seq<char>,
    value: Seq<char>,
)
    ensures
        forall|i: int|
            0 <= i < with_binding(envs, key, value).len() ==> {
                let e = #[trigger] with_binding(envs, key, value)[i];
                e == (key, value) || exists|j: int| 0 <= j < envs.len() && envs[j] == e
            },
    decreases envs.len(),
{
    if envs.len() > 0 && key_before(envs[0].0, key) {
        let rest = with_binding(envs.skip(1), key, value);
        lemma_with_binding_holds_only_old_and_new(envs.skip(1), key, value);
        assert forall|i: int| 0 <= i < with_binding(envs, key, value).len() implies {
            let e = #[trigger] with_binding(envs, key, value)[i];
            e == (key, value) || exists|j: int| 0 <= j < envs.len() && envs[j] == e
        } by {
            let e = with_binding(envs, key, value)[i];
            if i == 0 {
                assert(envs[0] == e);
            } else {
                assert(e == rest[i - 1]);
                if e != (key, value) {
                    let j = choose|j: int| 0 <= j < envs.skip(1).len() && envs.skip(1)[j] == e;
                    assert(envs[j + 1] == e);
                }
            }
        }
    } else if envs.len() > 0 {
        assert forall|i: int| 0 <= i < with_binding(envs, key, value).len() implies {
            let e = #[trigger] with_binding(envs, key, value)[i];
            e == (key, value) || exists|j: int| 0 <= j < envs.len() && envs[j] == e
        } by {
            let e = with_binding(envs, key, value)[i];
            if i > 0 {
                if key_before(key, envs[0].0) {
                    assert(envs[i - 1] == e);
                } else {
                    assert(envs[i] == e);
                }
            }
        }
    }
}

/// Binding a key keeps the bindings in the order of their keys: a command's
/// bindings are in that order however they were made.
pub proof fn lemma_with_binding_keeps_order(
    envs: Seq<(Seq<char>, Seq<char>)>,
    key: Seq<char>,
    value: Seq<char>,
)
    requires
        ordered(envs),
    ensures
        ordered(with_binding(envs, key, value)),
    decreases envs.len(),
{
    let out = with_binding(envs, key, value);
    if envs.len() == 0 {
    } else if key_before(envs[0].0, key) {
        let rest = with_binding(envs.skip(1), key, value);
        assert(ordered(envs.skip(1))) by {
            assert forall|i: int, j: int| 0 <= i < j < envs.skip(1).len() implies key_before(
                envs.skip(1)[i].0,
                envs.skip(1)[j].0,
            ) by {
                assert(key_before(envs[i + 1].0, envs[j + 1].0));
            }
        }
        lemma_with_binding_keeps_order(envs.skip(1), key, value);
        lemma_with_binding_holds_only_old_and_new(envs.skip(1), key, value);
        assert forall|i: int, j: int| 0 <= i < j < out.len() implies key_before(
            out[i].0,
            out[j].0,
        ) by {
            if i == 0 {
                let e = rest[j - 1];
                assert(out[j] == e);
                if e != (key, value) {
                    let m = choose|m: int| 0 <= m < envs.skip(1).len() && envs.skip(1)[m] == e;
                    assert(key_before(envs[0].0, envs[m + 1].0));
                }
            } else {
                assert(key_before(rest[i - 1].0, rest[j - 1].0));
            }
        }
    } else if key_before(key, envs[0].0) {
        assert forall|i: int, j: int| 0 <= i < j < out.len() implies key_before(
            out[i].0,
            out[j].0,
        ) by {
            if i == 0 {
                assert(out[j] == envs[j - 1]);
                if j > 1 {
                    assert(key_before(envs[0].0, envs[j - 1].0));
                    lemma_bytes_before_is_transitive(
                        encode_utf8(key),
                        encode_utf8(envs[0].0),
                        encode_utf8(envs[j - 1].0),
                    );
                }
            } else {
                assert(key_before(envs[i - 1].0, envs[j - 1].0));
            }
        }
    } else {
        lemma_bytes_before_is_total(encode_utf8(key), encode_utf8(envs[0].0));
        assert forall|i: int, j: int| 0 <= i < j < out.len() implies key_before(
            out[i].0,
            out[j].0,
        ) by {
            assert(out[j] == envs[j]);
            if i == 0 {
                assert(key_before(envs[0].0, envs[j].0));
            } else {
                assert(out[i] == envs[i]);
            }
        }
    }
}

/// Binding several keys in turn keeps the order too.
pub proof fn lemma_with_bindings_keeps_order(
    envs: Seq<(Seq<char>, Seq<char>)>,
    more: Seq<(Seq<char>, Seq<char>)>,
)
    requires
        ordered(envs),
    ensures
        ordered(with_bindings(envs, more)),
    decreases more.len(),
{
    if more.len() > 0 {
        lemma_with_bindings_keeps_order(envs, more.drop_last());
        lemma_with_binding_keeps_order(
            with_bindings(envs, more.drop_last()),
            more.last().0,
            more.last().1,
        );
    }
}

enum Order {
    Before,
    Same,
    After,
}

fn compare_keys(a: &str, b: &str) -> (r: Order)
    ensures
        r is Before <==> key_before(a@, b@),
        r is After <==> key_before(b@, a@),
{
    let x = a.as_bytes();
    let y = b.as_bytes();
    let mut i: usize = 0;
    assert(x@.skip(0) =~= x@);
    assert(y@.skip(0) =~= y@);
    while i < x.len() && i < y.len()
        invariant
            i <= x.len(),
            i <= y.len(),
            x@ == encode_utf8(a@),
            y@ == encode_utf8(b@),
            bytes_before(x@, y@) == bytes_before(x@.skip(i as int), y@.skip(i as int)),
            bytes_before(y@, x@) == bytes_before(y@.skip(i as int), x@.skip(i as int)),
        decreases x.len() - i,
    {
        proof {
            assert(x@.skip(i as int).skip(1) =~= x@.skip(i + 1));
            assert(y@.skip(i as int).skip(1) =~= y@.skip(i + 1));
            assert(x@.skip(i as int)[0] == x@[i as int]);
            assert(y@.skip(i as int)[0] == y@[i as int]);
        }
        if x[i] < y[i] {
            return Order::Before;
        }
        if x[i] > y[i] {
            return Order::After;
        }
        i += 1;
    }
    if i < y.len() {
        Order::Before
    } else if i < x.len() {
        Order::After
    } else {
        Order::Same
    }
}

/// An external command: the program, its arguments, the environment
/// bindings added for it, and where it runs.
#[derive(Debug)]
pub struct Command {
    program: String,
    args: Vec<String>,
    envs: Vec<(String, String)>,
    dir: Option<String>,
    stdin: Option<String>,
    inherit: bool,
}

/// What a `Command` holds, as contracts speak of it.
pub struct CommandView {
    pub program: Seq<char>,
    pub args: Seq<Seq<char>>,
    /// Ordered by key, as `key_before` orders them.
    pub envs: Seq<(Seq<char>, Seq<char>)>,
    pub dir: Option<Seq<char>>,
    /// The file that standard input is read from, if any.
    pub stdin: Option<Seq<char>>,
    /// Whether the output goes to the orchestrator's own terminal.
    pub inherit: bool,
}

impl View for Command {
    type V = CommandView;

    closed spec fn view(&self) -> CommandView {
        CommandView {
            program: self.program@,
            args: self.args.deep_view(),
            envs: self.envs.deep_view(),
            dir: self.dir.deep_view(),
            stdin: self.stdin.deep_view(),
            inherit: self.inherit,
        }
    }
}

impl DeepView for Command {
    type V = CommandView;

    open spec fn deep_view(&self) -> CommandView {
        self@
    }
}

impl CommandView {
    /// A command that runs `program` with nothing added.
    pub open spec fn new(program: Seq<char>) -> CommandView {
        CommandView {
            program,
            args: Seq::empty(),
            envs: Seq::empty(),
            dir: None,
            stdin: None,
            inherit: false,
        }
    }

    /// The command with one more argument.
    pub open spec fn arg(self, arg: Seq<char>) -> CommandView {
        CommandView { args: self.args.push(arg), ..self }
    }

    /// The command with more arguments.
    pub open spec fn args(self, args: Seq<Seq<char>>) -> CommandView {
        CommandView { args: self.args + args, ..self }
    }

    /// The command with `key` bound to `value`.
    pub open spec fn env(self, key: Seq<char>, value: Seq<char>) -> CommandView {
        CommandView { envs: with_binding(self.envs, key, value), ..self }
    }

    /// The command with each of `more` bound in turn.
    pub open spec fn envs(self, more: Seq<(Seq<char>, Seq<char>)>) -> CommandView {
        CommandView { envs: with_bindings(self.envs, more), ..self }
    }

    /// The command run in `dir`.
    pub open spec fn current_dir(self, dir: Seq<char>) -> CommandView {
        CommandView { dir: Some(dir), ..self }
    }

    /// The command with the file at `path` as its standard input.
    pub open spec fn stdin(self, path: Seq<char>) -> CommandView {
        CommandView { stdin: Some(path), ..self }
    }

    /// The command with its output on the orchestrator's terminal.
    pub open spec fn inherit(self) -> CommandView {
        CommandView { inherit: true, ..self }
    }
}

impl Command {
    /// A command that runs `program`, with no arguments yet.
    pub fn new(program: &str) -> (c: Command)
        ensures
            c@ == CommandView::new(program@),
            ordered(c@.envs),
    {
        let c = Command {
            program: String::from_str(program),
            args: Vec::new(),
            envs: Vec::new(),
            dir: None,
            stdin: None,
            inherit: false,
        };
        assert(c.args.deep_view() =~= Seq::empty());
        assert(c.envs.deep_view() =~= Seq::empty());
        c
    }

    /// A second description of the same command.
    pub fn duplicate(&self) -> (c: Command)
        ensures
            c@ == self@,
    {
        let mut args: Vec<String> = Vec::new();
        let mut i: usize = 0;
        while i < self.args.len()
            invariant
                i <= self.args.len(),
                args.deep_view() == self.args.deep_view().take(i as int),
            decreases self.args.len() - i,
        {
            let ghost before = args.deep_view();
            args.push(self.args[i].clone());
            i += 1;
            assert(args.deep_view() =~= before.push(self.args[i - 1]@));
            assert(args.deep_view() =~= self.args.deep_view().take(i as int));
        }
        assert(self.args.deep_view().take(i as int) =~= self.args.deep_view());
        let mut envs: Vec<(String, String)> = Vec::new();
        let mut j: usize = 0;
        while j < self.envs.len()
            invariant
                j <= self.envs.len(),
                envs.deep_view() == self.envs.deep_view().take(j as int),
            decreases self.envs.len() - j,
        {
            let ghost before = envs.deep_view();
            let pair = &self.envs[j];
            envs.push((pair.0.clone(), pair.1.clone()));
            j += 1;
            assert(envs.deep_view() =~= before.push((pair.0@, pair.1@)));
            assert(envs.deep_view() =~= self.envs.deep_view().take(j as int));
        }
        assert(self.envs.deep_view().take(j as int) =~= self.envs.deep_view());
        Command {
            program: self.program.clone(),
            args,
            envs,
            dir: match &self.dir {
                Some(d) => Some(d.clone()),
                None => None,
            },
            stdin: match &self.stdin {
                Some(d) => Some(d.clone()),
                None => None,
            },
            inherit: self.inherit,
        }
    }

    /// Adds one argument.
    pub fn arg(&mut self, arg: &str)
        ensures
            final(self)@ == old(self)@.arg(arg@),
    {
        self.args.push(String::from_str(arg));
        assert(self.args.deep_view() =~= old(self).args.deep_view().push(arg@));
    }

    /// Adds the one argument made of `head` followed by `tail`.
    pub fn arg_pair(&mut self, head: &str, tail: &str)
        ensures
            final(self)@ == old(self)@.arg(head@ + tail@),
    {
        let mut text = String::from_str(head);
        text.append(tail);
        self.arg(text.as_str());
    }

    /// Adds each of `args` as an argument, in order.
    pub fn args(&mut self, args: &Vec<String>)
        ensures
            final(self)@ == old(self)@.args(args.deep_view()),
    {
        let mut i: usize = 0;
        assert(self.args.deep_view() =~= old(self).args.deep_view() + args.deep_view().take(0));
        while i < args.len()
            invariant
                i <= args.len(),
                self.program == old(self).program,
                self.envs == old(self).envs,
                self.dir == old(self).dir,
                self.stdin == old(self).stdin,
                self.inherit == old(self).inherit,
                self.args.deep_view() == old(self).args.deep_view() + args.deep_view().take(
                    i as int,
                ),
            decreases args.len() - i,
        {
            let ghost before = self.args.deep_view();
            self.args.push(args[i].clone());
            i += 1;
            assert(self.args.deep_view() =~= before.push(args[i - 1]@));
            assert(self.args.deep_view() =~= old(self).args.deep_view() + args.deep_view().take(
                i as int,
            ));
        }
        assert(args.deep_view().take(i as int) =~= args.deep_view());
    }

    /// Binds `key` to `value` in the command's environment.
    pub fn env(&mut self, key: &str, value: &str)
        ensures
            final(self)@ == old(self)@.env(key@, value@),
            ordered(old(self)@.envs) ==> ordered(final(self)@.envs),
    {
        let ghost before = self.envs.deep_view();
        proof {
            if ordered(before) {
                lemma_with_binding_keeps_order(before, key@, value@);
            }
        }
        let mut i: usize = 0;
        assert(before.skip(0) =~= before);
        assert(before.take(0) + with_binding(before, key@, value@) =~= with_binding(
            before,
            key@,
            value@,
        ));
        while i < self.envs.len()
            invariant
                i <= self.envs.len(),
                *self == *old(self),
                with_binding(before, key@, value@) == before.take(i as int) + with_binding(
                    before.skip(i as int),
                    key@,
                    value@,
                ),
                before == old(self).envs.deep_view(),
                ordered(before) ==> ordered(with_binding(before, key@, value@)),
            decreases self.envs.len() - i,
        {
            let ghost rest = before.skip(i as int);
            assert(rest[0] == before[i as int]);
            assert(before[i as int].0 == self.envs[i as int].0@);
            match compare_keys(self.envs[i].0.as_str(), key) {
                Order::Before => {
                    proof {
                        assert(rest.skip(1) =~= before.skip(i + 1));
                        assert(before.take(i as int) + seq![rest[0]] =~= before.take(i + 1));
                        assert(before.take(i as int) + (seq![rest[0]] + with_binding(
                            rest.skip(1),
                            key@,
                            value@,
                        )) =~= before.take(i + 1) + with_binding(
                            before.skip(i + 1),
                            key@,
                            value@,
                        ));
                    }
                    i += 1;
                },
                Order::After => {
                    self.envs.insert(i, (String::from_str(key), String::from_str(value)));
                    assert(self.envs.deep_view() =~= before.take(i as int) + (seq![(key@, value@)]
                        + rest));
                    return ;
                },
                Order::Same => {
                    self.envs.set(i, (String::from_str(key), String::from_str(value)));
                    assert(self.envs.deep_view() =~= before.take(i as int) + (seq![(key@, value@)]
                        + rest.skip(1)));
                    return ;
                },
            }
        }
        self.envs.push((String::from_str(key), String::from_str(value)));
        assert(self.envs.deep_view() =~= before.take(i as int) + seq![(key@, value@)]);
    }

    /// Binds each pair of `more` in turn.
    pub fn envs(&mut self, more: &Vec<(&str, &str)>)
        ensures
            final(self)@ == old(self)@.envs(more.deep_view()),
            ordered(old(self)@.envs) ==> ordered(final(self)@.envs),
    {
        let mut i: usize = 0;
        assert(more.deep_view().take(0) =~= Seq::empty());
        while i < more.len()
            invariant
                i <= more.len(),
                self@ == old(self)@.envs(more.deep_view().take(i as int)),
                ordered(old(self)@.envs) ==> ordered(self@.envs),
            decreases more.len() - i,
        {
            let ghost done = more.deep_view().take(i as int);
            let pair = more[i];
            assert(more.deep_view()[i as int] == (pair.0@, pair.1@));
            self.env(pair.0, pair.1);
            i += 1;
            proof {
                let now = more.deep_view().take(i as int);
                assert(now.drop_last() =~= done);
                assert(now.last() == (pair.0@, pair.1@));
            }
        }
        assert(more.deep_view().take(i as int) =~= more.deep_view());
    }

    /// Sets the directory in which the command runs.
    pub fn current_dir(&mut self, dir: &str)
        ensures
            final(self)@ == old(self)@.current_dir(dir@),
    {
        self.dir = Some(String::from_str(dir));
    }

    /// Feeds the file at `path` to the command's standard input.
    pub fn stdin(&mut self, path: &str)
        ensures
            final(self)@ == old(self)@.stdin(path@),
    {
        self.stdin = Some(String::from_str(path));
    }

    /// Lets the command write to the orchestrator's own terminal.
    pub fn inherit_output(&mut self)
        ensures
            final(self)@ == old(self)@.inherit(),
    {
        self.inherit = true;
    }

    pub fn get_program(&self) -> (r: &str)
        ensures
            r@ == self@.program,
    {
        self.program.as_str()
    }

    pub fn get_args(&self) -> (r: &Vec<String>)
        ensures
            r.deep_view() == self@.args,
    {
        &self.args
    }

    pub fn get_envs(&self) -> (r: &Vec<(String, String)>)
        ensures
            r.deep_view() == self@.envs,
    {
        &self.envs
    }

    pub fn get_current_dir(&self) -> (r: &Option<String>)
        ensures
            r.deep_view() == self@.dir,
    {
        &self.dir
    }

    pub fn get_stdin(&self) -> (r: &Option<String>)
        ensures
            r.deep_view() == self@.stdin,
    {
        &self.stdin
    }

    pub fn inherits_output(&self) -> (r: bool)
        ensures
            r == self@.inherit,
    {
        self.inherit
    }
}

} // verus!
