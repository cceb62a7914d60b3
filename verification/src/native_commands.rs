//! External tool invocations as values.
//!
//! A [`Command`] names a tool and the arguments it is to be started with and,
//! once the tool has ended, holds what it wrote and how it ended. Nothing here
//! starts a process: the caller resolves the tool, runs it, and hands the
//! captured [`Output`] to [`Command::run`]. Where to look for a tool is
//! computed here too: [`search_candidates`] lists the paths to try.

use crate::text::{chars_of, lemma_span, scan, span, CharClass};
use vstd::prelude::*;
use vstd::string::*;
use vstd::utf8::*;

verus! {

/// How a process ended.
#[derive(Clone, Copy, Debug, PartialEq, Eq, Structural)]
pub enum ExitStatus {
    /// The process exited by itself, with this code.
    Code(i32),
    /// The process was ended by a signal and left no code.
    Signal,
}

impl ExitStatus {
    /// Whether the status is the exit code zero.
    pub open spec fn is_success(self) -> bool {
        self == ExitStatus::Code(0)
    }

    /// Whether the process exited with code zero.
    pub fn success(&self) -> (ok: bool)
        ensures
            ok == self.is_success(),
    {
        match self {
            ExitStatus::Code(code) => *code == 0,
            ExitStatus::Signal => false,
        }
    }

    /// The exit code, if the process left one.
    pub fn code(&self) -> (code: Option<i32>)
        ensures
            code == match *self {
                ExitStatus::Code(c) => Some(c),
                ExitStatus::Signal => None,
            },
    {
        match self {
            ExitStatus::Code(code) => Some(*code),
            ExitStatus::Signal => None,
        }
    }
}

/// What a finished process left behind: both streams in full, as bytes, and
/// its exit status.
#[derive(Debug)]
pub struct Output {
    pub stdout: Vec<u8>,
    pub stderr: Vec<u8>,
    pub status: ExitStatus,
}

/// Why the output of a finished process could not be recorded.
#[derive(Clone, Copy, Debug, PartialEq, Eq, Structural)]
pub enum CommandError {
    /// Standard output is not valid UTF-8.
    StdoutNotUtf8,
    /// Standard output is text, standard error is not valid UTF-8.
    StderrNotUtf8,
}

/// An invocation of an external tool, before or after it ran.
#[derive(Debug)]
pub struct Command {
    name: String,
    subcommand: Option<String>,
    args: Vec<String>,
    stdout: Option<String>,
    stderr: Option<String>,
    exit_status: Option<ExitStatus>,
    verbose: bool,
    show_progress: bool,
    working_directory: Option<String>,
}

/// The mathematical value of a [`Command`].
pub struct CommandView {
    /// The tool, as it is looked up on the search path.
    pub name: Seq<char>,
    /// A first argument that selects a mode of the tool.
    pub subcommand: Option<Seq<char>>,
    /// The arguments after the subcommand, in order.
    pub args: Seq<Seq<char>>,
    /// Standard output, once the tool has run.
    pub stdout: Option<Seq<char>>,
    /// Standard error, once the tool has run.
    pub stderr: Option<Seq<char>>,
    /// The exit status, once the tool has run.
    pub exit_status: Option<ExitStatus>,
    pub verbose: bool,
    pub show_progress: bool,
    /// The directory to start the tool in; the caller's own if `None`.
    pub working_directory: Option<Seq<char>>,
}

impl CommandView {
    /// The invocation of `name` with no arguments, not yet run.
    pub open spec fn fresh(name: Seq<char>) -> CommandView {
        CommandView {
            name,
            subcommand: None,
            args: Seq::empty(),
            stdout: None,
            stderr: None,
            exit_status: None,
            verbose: false,
            show_progress: false,
            working_directory: None,
        }
    }

    /// The invocation of `name` with `args`, not yet run.
    pub open spec fn invocation(name: Seq<char>, args: Seq<Seq<char>>) -> CommandView {
        CommandView { args, ..CommandView::fresh(name) }
    }

    /// The argument list the process is started with: the subcommand, if
    /// there is one, then the arguments.
    pub open spec fn command_args(self) -> Seq<Seq<char>> {
        match self.subcommand {
            Some(sub) => seq![sub] + self.args,
            None => self.args,
        }
    }

    /// Whether the tool ran and exited with code zero.
    pub open spec fn success(self) -> bool {
        match self.exit_status {
            Some(status) => status.is_success(),
            None => false,
        }
    }

    /// This invocation after the tool ended with `status`, having written
    /// `stdout` and `stderr`.
    pub open spec fn finished(
        self,
        stdout: Seq<char>,
        stderr: Seq<char>,
        status: ExitStatus,
    ) -> CommandView {
        CommandView {
            stdout: Some(stdout),
            stderr: Some(stderr),
            exit_status: Some(status),
            ..self
        }
    }
}

/// What recording `stdout`, `stderr` and `status` in the invocation `cmd`
/// yields: standard output is decoded first, then standard error.
pub open spec fn run_result(
    cmd: CommandView,
    stdout: Seq<u8>,
    stderr: Seq<u8>,
    status: ExitStatus,
) -> Result<CommandView, CommandError> {
    if !valid_utf8(stdout) {
        Err(CommandError::StdoutNotUtf8)
    } else if !valid_utf8(stderr) {
        Err(CommandError::StderrNotUtf8)
    } else {
        Ok(cmd.finished(decode_utf8(stdout), decode_utf8(stderr), status))
    }
}

/// The result `r` with the value it holds on success replaced by its view.
pub open spec fn viewed<T: View, E>(r: Result<T, E>) -> Result<T::V, E> {
    match r {
        Ok(value) => Ok(value@),
        Err(error) => Err(error),
    }
}

/// `String::from_utf8` of the standard library: the text that `bytes`
/// encode, or `None` when they are not valid UTF-8.
#[verifier::external_body]
fn text_from_utf8(bytes: Vec<u8>) -> (text: Option<String>)
    ensures
        text is Some <==> valid_utf8(bytes@),
        text is Some ==> text.unwrap()@ == decode_utf8(bytes@),
{
    String::from_utf8(bytes).ok()
}

/// A copy of `text`.
pub(crate) fn copy_text(text: &Option<String>) -> (copy: Option<String>)
    ensures
        copy.deep_view() == text.deep_view(),
{
    match text {
        Some(s) => Some(s.clone()),
        None => None,
    }
}

/// A copy of `texts`.
pub(crate) fn copy_texts(texts: &Vec<String>) -> (copy: Vec<String>)
    ensures
        copy.deep_view() == texts.deep_view(),
{
    let mut copy: Vec<String> = Vec::new();
    let mut i: usize = 0;
    while i < texts.len()
        invariant
            i <= texts.len(),
            copy.len() == i,
            forall|j: int| 0 <= j < i ==> copy@[j]@ == texts@[j]@,
        decreases texts.len() - i,
    {
        copy.push(texts[i].clone());
        i += 1;
    }
    assert(copy.deep_view() =~= texts.deep_view());
    copy
}

impl View for Command {
    type V = CommandView;

    closed spec fn view(&self) -> CommandView {
        CommandView {
            name: self.name@,
            subcommand: self.subcommand.deep_view(),
            args: self.args.deep_view(),
            stdout: self.stdout.deep_view(),
            stderr: self.stderr.deep_view(),
            exit_status: self.exit_status,
            verbose: self.verbose,
            show_progress: self.show_progress,
            working_directory: self.working_directory.deep_view(),
        }
    }
}

impl DeepView for Command {
    type V = CommandView;

    open spec fn deep_view(&self) -> CommandView {
        self@
    }
}

impl Clone for Command {
    fn clone(&self) -> (copy: Self)
        ensures
            copy@ == self@,
    {
        Command {
            name: self.name.clone(),
            subcommand: copy_text(&self.subcommand),
            args: copy_texts(&self.args),
            stdout: copy_text(&self.stdout),
            stderr: copy_text(&self.stderr),
            exit_status: self.exit_status,
            verbose: self.verbose,
            show_progress: self.show_progress,
            working_directory: copy_text(&self.working_directory),
        }
    }
}

impl Command {
    /// The invocation of the tool `name` with no arguments.
    ///
    /// The name is kept as given; it is looked up on the search path when the
    /// tool is started.
    pub fn new(name: &str) -> (cmd: Self)
        ensures
            cmd@ == CommandView::fresh(name@),
    {
        let cmd = Command {
            name: name.to_owned(),
            subcommand: None,
            args: Vec::new(),
            stdout: None,
            stderr: None,
            exit_status: None,
            verbose: false,
            show_progress: false,
            working_directory: None,
        };
        assert(cmd.args.deep_view() =~= Seq::empty());
        cmd
    }

    /// The same invocation of another tool.
    pub fn with_name(self, name: &str) -> (cmd: Self)
        ensures
            cmd@ == (CommandView { name: name@, ..self@ }),
    {
        let mut cmd = self;
        cmd.name = name.to_owned();
        cmd
    }

    /// The same invocation with `subcommand` as the argument before all
    /// others.
    pub fn with_subcommand(self, subcommand: &str) -> (cmd: Self)
        ensures
            cmd@ == (CommandView { subcommand: Some(subcommand@), ..self@ }),
    {
        let mut cmd = self;
        cmd.subcommand = Some(subcommand.to_owned());
        cmd
    }

    /// The same invocation with `args` in place of its arguments.
    pub fn with_args(self, args: Vec<&str>) -> (cmd: Self)
        ensures
            cmd@ == (CommandView { args: args.deep_view(), ..self@ }),
    {
        let mut owned: Vec<String> = Vec::new();
        let mut i: usize = 0;
        while i < args.len()
            invariant
                i <= args.len(),
                owned.len() == i,
                forall|j: int| 0 <= j < i ==> owned@[j]@ == args@[j]@,
            decreases args.len() - i,
        {
            owned.push(args[i].to_owned());
            i += 1;
        }
        assert(owned.deep_view() =~= args.deep_view());
        let mut cmd = self;
        cmd.args = owned;
        cmd
    }

    /// The same invocation with the verbose mark set to `verbose`.
    pub fn with_verbose(self, verbose: bool) -> (cmd: Self)
        ensures
            cmd@ == (CommandView { verbose, ..self@ }),
    {
        let mut cmd = self;
        cmd.verbose = verbose;
        cmd
    }

    /// The same invocation, to be started in `working_directory`.
    pub fn with_working_directory(self, working_directory: &str) -> (cmd: Self)
        ensures
            cmd@ == (CommandView { working_directory: Some(working_directory@), ..self@ }),
    {
        let mut cmd = self;
        cmd.working_directory = Some(working_directory.to_owned());
        cmd
    }

    /// The same invocation with the progress mark set to `show_progress`.
    pub fn with_show_progress(self, show_progress: bool) -> (cmd: Self)
        ensures
            cmd@ == (CommandView { show_progress, ..self@ }),
    {
        let mut cmd = self;
        cmd.show_progress = show_progress;
        cmd
    }

    /// The name of the tool.
    pub fn get_name(&self) -> (name: String)
        ensures
            name@ == self@.name,
    {
        self.name.clone()
    }

    /// The directory the tool is to be started in, if one was set.
    pub fn get_working_directory(&self) -> (dir: Option<String>)
        ensures
            dir.deep_view() == self@.working_directory,
    {
        copy_text(&self.working_directory)
    }

    /// Standard output of the tool; `None` until it has run.
    pub fn get_stdout(&self) -> (out: Option<String>)
        ensures
            out.deep_view() == self@.stdout,
    {
        copy_text(&self.stdout)
    }

    /// Standard error of the tool; `None` until it has run.
    pub fn get_stderr(&self) -> (err: Option<String>)
        ensures
            err.deep_view() == self@.stderr,
    {
        copy_text(&self.stderr)
    }

    /// The exit status of the tool; `None` until it has run.
    pub fn get_exit_status(&self) -> (status: Option<ExitStatus>)
        ensures
            status == self@.exit_status,
    {
        self.exit_status
    }

    /// Whether the tool ran and exited with code zero.
    pub fn success(&self) -> (ok: bool)
        ensures
            ok == self@.success(),
    {
        if let Some(s) = &self.exit_status {
            s.success()
        } else {
            false
        }
    }

    /// The argument list to start the process with: the subcommand, if there
    /// is one, then the arguments, each passed as it stands.
    pub fn command_args(&self) -> (argv: Vec<String>)
        ensures
            argv.deep_view() == self@.command_args(),
    {
        let mut argv: Vec<String> = Vec::new();
        if let Some(subcommand) = &self.subcommand {
            argv.push(subcommand.clone());
        }
        let ghost head = argv.deep_view();
        let mut i: usize = 0;
        while i < self.args.len()
            invariant
                i <= self.args.len(),
                argv.len() == head.len() + i,
                head.len() <= 1,
                forall|j: int| 0 <= j < head.len() ==> argv@[j]@ == head[j],
                forall|j: int| 0 <= j < i ==> argv@[head.len() + j]@ == self.args@[j]@,
            decreases self.args.len() - i,
        {
            argv.push(self.args[i].clone());
            i += 1;
        }
        assert(argv.deep_view() =~= head + self.args.deep_view());
        assert(argv.deep_view() =~= self@.command_args());
        argv
    }

    /// Records what the tool left behind.
    ///
    /// Both streams must be valid UTF-8; they are decoded in full and kept
    /// apart. The exit status is recorded as it is: a status other than zero
    /// is no error here.
    pub fn run(self, output: Output) -> (done: Result<Self, CommandError>)
        ensures
            viewed(done) == run_result(self@, output.stdout@, output.stderr@, output.status),
    {
        let Output { stdout, stderr, status } = output;
        let stdout = match text_from_utf8(stdout) {
            Some(text) => text,
            None => { return Err(CommandError::StdoutNotUtf8); },
        };
        let stderr = match text_from_utf8(stderr) {
            Some(text) => text,
            None => { return Err(CommandError::StderrNotUtf8); },
        };
        let mut cmd = self;
        cmd.stdout = Some(stdout);
        cmd.stderr = Some(stderr);
        cmd.exit_status = Some(status);
        Ok(cmd)
    }
}

/// The directories that the search path `path` lists, in order: what
/// stands between its colons. An empty entry is kept; it stands for the
/// current directory.
pub open spec fn path_entries(path: Seq<char>) -> Seq<Seq<char>>
    decreases path.len(),
    via path_entries_decreases
{
    let len = span(path, CharClass::Except(':'));
    if len >= path.len() {
        seq![path]
    } else {
        seq![path.take(len as int)] + path_entries(path.skip(len as int + 1))
    }
}

#[via_fn]
proof fn path_entries_decreases(path: Seq<char>) {
    lemma_span(path, CharClass::Except(':'));
}

/// The path at which the tool `tool` would be found in the directory
/// `dir` of the search path.
pub open spec fn candidate_in(dir: Seq<char>, tool: Seq<char>) -> Seq<char> {
    if dir.len() == 0 {
        "./"@ + tool
    } else {
        dir + "/"@ + tool
    }
}

/// The paths at which to look for the tool `tool`, in the order in which
/// to try them. A name that holds a `/` is a path already and the only
/// candidate; any other name is looked for in each directory of the search
/// path `path`. Where there is no search path at all, such a name has no
/// candidate: no directory is searched that the search path does not list.
pub open spec fn candidates(path: Option<Seq<char>>, tool: Seq<char>) -> Seq<Seq<char>> {
    if tool.contains('/') {
        seq![tool]
    } else {
        match path {
            Some(listed) => path_entries(listed).map_values(
                |dir: Seq<char>| candidate_in(dir, tool),
            ),
            None => Seq::empty(),
        }
    }
}

/// The paths at which to look for the tool `tool`, given the search path
/// `path` with its directories separated by colons, or `None` where no
/// search path is set. The tool is found at the first of them that is a
/// file which may be executed; if there is none, the tool is not found.
pub fn search_candidates(path: Option<&str>, tool: &str) -> (found: Vec<String>)
    ensures
        found.deep_view() == candidates(path.deep_view(), tool@),
{
    let name = chars_of(tool);
    let slash = scan(&name, 0, name.len(), CharClass::Except('/'));
    proof {
        assert(name@.subrange(0, name.len() as int) =~= tool@);
        lemma_span(tool@, CharClass::Except('/'));
        if slash < name.len() {
            assert(tool@[slash as int] == '/');
        } else {
            assert forall|i: int| 0 <= i < tool@.len() implies tool@[i] != '/' by {
                assert(CharClass::Except('/').has(tool@[i]));
            }
        }
    }
    let mut found: Vec<String> = Vec::new();
    if slash < name.len() {
        found.push(tool.to_owned());
        assert(found.deep_view() =~= seq![tool@]);
        return found;
    }
    assert(found.deep_view() =~= Seq::empty());
    let listed = match path {
        Some(listed) => listed,
        None => { return found; },
    };
    let v = chars_of(listed);
    let mut start: usize = 0;
    assert(v@.subrange(0, v.len() as int) =~= listed@);
    loop
        invariant
            start <= v.len(),
            v@ == listed@,
            path.deep_view() == Some(listed@),
            !tool@.contains('/'),
            candidates(Some(listed@), tool@) == found.deep_view() + path_entries(
                v@.subrange(start as int, v.len() as int),
            ).map_values(|dir: Seq<char>| candidate_in(dir, tool@)),
        decreases v.len() - start,
    {
        let ghost rest = v@.subrange(start as int, v.len() as int);
        let ghost before = found.deep_view();
        let end = scan(&v, start, v.len(), CharClass::Except(':'));
        let dir = listed.substring_char(start, end);
        let candidate = if end == start {
            "./".to_owned().concat(tool)
        } else {
            dir.to_owned().concat("/").concat(tool)
        };
        proof {
            assert(rest.take(end - start) =~= v@.subrange(start as int, end as int));
            assert(candidate@ == candidate_in(rest.take(end - start), tool@));
        }
        found.push(candidate);
        assert(found.deep_view() =~= before.push(candidate@));
        if end == v.len() {
            proof {
                assert(rest.take(end - start) =~= rest);
                assert(path_entries(rest) =~= seq![rest]);
                assert(path_entries(rest).map_values(|dir: Seq<char>| candidate_in(dir, tool@))
                    =~= seq![candidate@]);
                assert(found.deep_view() =~= candidates(Some(listed@), tool@));
            }
            return found;
        }
        proof {
            let next = v@.subrange(end + 1, v.len() as int);
            assert(rest.skip(end - start + 1) =~= next);
            assert(path_entries(rest) =~= seq![rest.take(end - start)] + path_entries(next));
            assert(path_entries(rest).map_values(|dir: Seq<char>| candidate_in(dir, tool@))
                =~= seq![candidate@] + path_entries(next).map_values(
                |dir: Seq<char>| candidate_in(dir, tool@),
            ));
        }
        start = end + 1;
    }
}

} // verus!
