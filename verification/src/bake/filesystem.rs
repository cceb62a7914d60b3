//! Building the filesystem image of an extension.
//!
//! Each filesystem has a strategy: the external tools to run, in order, on
//! the directory `<name>` to leave the image `<name>.raw`. A
//! [`FilesystemBuild`] walks through a strategy one invocation at a time. It
//! names the invocation that is [pending](FilesystemBuild::pending); the
//! caller runs it and reports what happened as an [`Event`];
//! [`advance`](FilesystemBuild::advance) decides from that how the build goes
//! on. The first step that fails ends the build, and nothing that ran before
//! it is undone.

use crate::bake::version::{
    feature_enabled, parse_version, probe_feature, OnMalformedVersion, ToolVersion,
    VersionParseError,
};
use crate::cli::{BakeCli, FileSystemFormat};
use crate::native_commands::{
    run_result, Command, CommandError, CommandView, ExitStatus, Output,
};
use vstd::prelude::*;
use vstd::string::*;
use vstd::utf8::{decode_utf8, valid_utf8};

verus! {

/// The name of the image file of the extension `name`.
pub open spec fn raw_name(name: Seq<char>) -> Seq<char> {
    name + ".raw"@
}

/// The steps for an ext filesystem made by the tool `mkfs`: a sparse file of
/// one GiB, the filesystem in it, owned by root and filled
/// from the directory `name`, and the filesystem shrunk to what it holds.
pub open spec fn ext_steps(mkfs: Seq<char>, name: Seq<char>) -> Seq<CommandView> {
    seq![
        CommandView::invocation("truncate"@, seq!["-s"@, "1G"@, raw_name(name)]),
        CommandView::invocation(
            mkfs,
            seq!["-E"@, "root_owner=0:0"@, "-d"@, name, raw_name(name)],
        ),
        CommandView::invocation("resize2fs"@, seq!["-M"@, raw_name(name)]),
    ]
}

/// The one step for btrfs: mixed block groups, single profiles for data and
/// metadata, filled from the directory `name` and shrunk to fit.
pub open spec fn btrfs_steps(name: Seq<char>) -> Seq<CommandView> {
    seq![
        CommandView::invocation(
            "mkfs.btrfs"@,
            seq![
                "--mixed"@,
                "-m"@,
                "single"@,
                "-d"@,
                "single"@,
                "--shrink"@,
                "--rootdir"@,
                name,
                raw_name(name),
            ],
        ),
    ]
}

/// The arguments of `mksquashfs`: the directory, the image, every file owned
/// by root, never appending to an image that exists; and, if
/// `exclude_xattrs`, leaving out the extended attributes named `btrfs.*`.
pub open spec fn squashfs_args(name: Seq<char>, exclude_xattrs: bool) -> Seq<Seq<char>> {
    let always = seq![name, raw_name(name), "-all-root"@, "-noappend"@];
    if exclude_xattrs {
        always + seq!["-xattrs-exclude"@, "^btrfs."@]
    } else {
        always
    }
}

/// The one step for squashfs.
pub open spec fn squashfs_steps(name: Seq<char>, exclude_xattrs: bool) -> Seq<CommandView> {
    seq![CommandView::invocation("mksquashfs"@, squashfs_args(name, exclude_xattrs))]
}

/// The invocation that asks `mksquashfs` for its version.
pub open spec fn version_probe() -> CommandView {
    CommandView::invocation("mksquashfs"@, seq!["-version"@])
}

/// The first version of `mksquashfs` that can leave out extended
/// attributes.
pub open spec fn xattrs_exclude_since() -> ToolVersion {
    ToolVersion { major: 4, minor: 6 }
}

/// Whether `mksquashfs` can leave out extended attributes, judged from the
/// standard output `stdout` of its version probe: it can from version 4.6
/// on.
pub open spec fn probe_answer(stdout: Option<Seq<char>>, policy: OnMalformedVersion) -> Result<
    bool,
    VersionParseError,
> {
    feature_enabled(stdout, xattrs_exclude_since(), policy)
}

/// Why a build ended without an image.
#[derive(Debug)]
pub enum BuildError {
    /// The tool is not on the search path; it was never started.
    ToolNotFound { tool: String },
    /// The tool was found, and the system could not start it.
    SpawnFailure { tool: String, cause: String },
    /// The tool ran and did not exit with code zero.
    StepFailure { tool: String, exit_code: Option<i32>, stderr: String },
    /// The version probe of the tool gave no version that can be read.
    VersionParseFailure { tool: String, reason: VersionParseError },
    /// The tool wrote something that is not valid UTF-8.
    OutputNotText { tool: String, stream: CommandError },
}

/// The mathematical value of a [`BuildError`].
pub enum BuildErrorView {
    ToolNotFound { tool: Seq<char> },
    SpawnFailure { tool: Seq<char>, cause: Seq<char> },
    StepFailure { tool: Seq<char>, exit_code: Option<i32>, stderr: Seq<char> },
    VersionParseFailure { tool: Seq<char>, reason: VersionParseError },
    OutputNotText { tool: Seq<char>, stream: CommandError },
}

impl View for BuildError {
    type V = BuildErrorView;

    open spec fn view(&self) -> BuildErrorView {
        match *self {
            BuildError::ToolNotFound { tool } => BuildErrorView::ToolNotFound { tool: tool@ },
            BuildError::SpawnFailure { tool, cause } => BuildErrorView::SpawnFailure {
                tool: tool@,
                cause: cause@,
            },
            BuildError::StepFailure { tool, exit_code, stderr } => BuildErrorView::StepFailure {
                tool: tool@,
                exit_code,
                stderr: stderr@,
            },
            BuildError::VersionParseFailure { tool, reason } => BuildErrorView::VersionParseFailure {
                tool: tool@,
                reason,
            },
            BuildError::OutputNotText { tool, stream } => BuildErrorView::OutputNotText {
                tool: tool@,
                stream,
            },
        }
    }
}

impl Clone for BuildError {
    fn clone(&self) -> (copy: Self)
        ensures
            copy@ == self@,
    {
        match self {
            BuildError::ToolNotFound { tool } => BuildError::ToolNotFound { tool: tool.clone() },
            BuildError::SpawnFailure { tool, cause } => BuildError::SpawnFailure {
                tool: tool.clone(),
                cause: cause.clone(),
            },
            BuildError::StepFailure { tool, exit_code, stderr } => BuildError::StepFailure {
                tool: tool.clone(),
                exit_code: *exit_code,
                stderr: stderr.clone(),
            },
            BuildError::VersionParseFailure { tool, reason } => BuildError::VersionParseFailure {
                tool: tool.clone(),
                reason: *reason,
            },
            BuildError::OutputNotText { tool, stream } => BuildError::OutputNotText {
                tool: tool.clone(),
                stream: *stream,
            },
        }
    }
}

/// What became of the pending invocation.
#[derive(Debug)]
pub enum Event {
    /// The tool is not on the search path. No process was started.
    ToolNotFound,
    /// The system could not start the tool, for the reason given.
    SpawnFailed(String),
    /// The tool ran to its end and left this output.
    Exited(Output),
}

/// The mathematical value of an [`Event`].
pub enum EventView {
    ToolNotFound,
    SpawnFailed(Seq<char>),
    Exited { stdout: Seq<u8>, stderr: Seq<u8>, status: ExitStatus },
}

impl View for Event {
    type V = EventView;

    open spec fn view(&self) -> EventView {
        match *self {
            Event::ToolNotFound => EventView::ToolNotFound,
            Event::SpawnFailed(cause) => EventView::SpawnFailed(cause@),
            Event::Exited(output) => EventView::Exited {
                stdout: output.stdout@,
                stderr: output.stderr@,
                status: output.status,
            },
        }
    }
}

/// The invocation `cmd` after `event`: the finished invocation if the tool
/// ran and wrote text, whatever its exit status; else the error that ends
/// the build.
pub open spec fn settled(cmd: CommandView, event: EventView) -> Result<
    CommandView,
    BuildErrorView,
> {
    match event {
        EventView::ToolNotFound => Err(BuildErrorView::ToolNotFound { tool: cmd.name }),
        EventView::SpawnFailed(cause) => Err(
            BuildErrorView::SpawnFailure { tool: cmd.name, cause },
        ),
        EventView::Exited { stdout, stderr, status } => match run_result(
            cmd,
            stdout,
            stderr,
            status,
        ) {
            Ok(done) => Ok(done),
            Err(stream) => Err(BuildErrorView::OutputNotText { tool: cmd.name, stream }),
        },
    }
}

/// The failure of the step `done`, which ran and did not exit with code
/// zero: its tool, its exit code if it left one, and what it wrote to
/// standard error.
pub open spec fn step_failure(done: CommandView) -> BuildErrorView {
    BuildErrorView::StepFailure {
        tool: done.name,
        exit_code: match done.exit_status {
            Some(ExitStatus::Code(code)) => Some(code),
            _ => None,
        },
        stderr: match done.stderr {
            Some(text) => text,
            None => Seq::empty(),
        },
    }
}

/// Where a build stands.
pub enum BuildState {
    /// The version probe is pending.
    Probing,
    /// Step `next` of `steps` is pending; the steps before it succeeded.
    Running { steps: Seq<CommandView>, next: int },
    /// Every step succeeded: the image is there.
    Succeeded,
    /// The build ended with this error.
    Failed(BuildErrorView),
}

/// The mathematical value of a [`FilesystemBuild`].
pub struct BuildView {
    /// The extension: its directory, and the stem of the image's name.
    pub name: Seq<char>,
    /// What to do with a version probe that cannot be read.
    pub policy: OnMalformedVersion,
    pub state: BuildState,
}

impl BuildView {
    /// A build of `name` that has `steps` before it, or none if there is no
    /// step to take.
    pub open spec fn start(name: Seq<char>, steps: Seq<CommandView>) -> BuildView {
        BuildView {
            name,
            policy: OnMalformedVersion::Fail,
            state: if steps.len() > 0 {
                BuildState::Running { steps, next: 0 }
            } else {
                BuildState::Succeeded
            },
        }
    }

    /// The ext4 strategy for `name`, before its first step.
    pub open spec fn ext4(name: Seq<char>) -> BuildView {
        BuildView::start(name, ext_steps("mkfs.ext4"@, name))
    }

    /// The ext2 strategy for `name`, before its first step.
    pub open spec fn ext2(name: Seq<char>) -> BuildView {
        BuildView::start(name, ext_steps("mkfs.ext2"@, name))
    }

    /// The btrfs strategy for `name`, before its one step.
    pub open spec fn btrfs(name: Seq<char>) -> BuildView {
        BuildView::start(name, btrfs_steps(name))
    }

    /// The squashfs strategy for `name`, before its version probe.
    pub open spec fn squashfs(name: Seq<char>) -> BuildView {
        BuildView { name, policy: OnMalformedVersion::Fail, state: BuildState::Probing }
    }

    /// The strategy that builds an image of `format` for `name`.
    pub open spec fn strategy(format: FileSystemFormat, name: Seq<char>) -> BuildView {
        match format {
            FileSystemFormat::Ext4 => BuildView::ext4(name),
            FileSystemFormat::Ext2 => BuildView::ext2(name),
            FileSystemFormat::Btrfs => BuildView::btrfs(name),
            FileSystemFormat::Squashfs => BuildView::squashfs(name),
        }
    }

    /// Whether a running build points at one of its steps.
    pub open spec fn wf(self) -> bool {
        match self.state {
            BuildState::Running { steps, next } => 0 <= next < steps.len(),
            _ => true,
        }
    }

    /// The invocation to run next; `None` once the build has ended.
    pub open spec fn pending(self) -> Option<CommandView> {
        match self.state {
            BuildState::Probing => Some(version_probe()),
            BuildState::Running { steps, next } => Some(steps[next]),
            BuildState::Succeeded => None,
            BuildState::Failed(_) => None,
        }
    }

    /// How the build ended; `None` while an invocation is pending.
    pub open spec fn outcome(self) -> Option<Result<(), BuildErrorView>> {
        match self.state {
            BuildState::Probing => None,
            BuildState::Running { .. } => None,
            BuildState::Succeeded => Some(Ok(())),
            BuildState::Failed(error) => Some(Err(error)),
        }
    }

    /// This build in another state.
    pub open spec fn moved_to(self, state: BuildState) -> BuildView {
        BuildView { state, ..self }
    }

    /// The build after `event` is reported for its pending invocation.
    ///
    /// A tool that is missing, cannot be started or writes no text fails the
    /// build. The version probe is judged by its output alone, and then
    /// `mksquashfs` is the step to run. A step must exit with code zero;
    /// after the last one the build has succeeded. A build that has ended
    /// stays as it is.
    pub open spec fn step(self, event: EventView) -> BuildView {
        match self.state {
            BuildState::Probing => match settled(version_probe(), event) {
                Err(error) => self.moved_to(BuildState::Failed(error)),
                Ok(done) => match probe_answer(done.stdout, self.policy) {
                    Ok(exclude_xattrs) => self.moved_to(
                        BuildState::Running {
                            steps: squashfs_steps(self.name, exclude_xattrs),
                            next: 0,
                        },
                    ),
                    Err(reason) => self.moved_to(
                        BuildState::Failed(
                            BuildErrorView::VersionParseFailure {
                                tool: version_probe().name,
                                reason,
                            },
                        ),
                    ),
                },
            },
            BuildState::Running { steps, next } => match settled(steps[next], event) {
                Err(error) => self.moved_to(BuildState::Failed(error)),
                Ok(done) => if !done.success() {
                    self.moved_to(BuildState::Failed(step_failure(done)))
                } else if next + 1 < steps.len() {
                    self.moved_to(BuildState::Running { steps, next: next + 1 })
                } else {
                    self.moved_to(BuildState::Succeeded)
                },
            },
            BuildState::Succeeded => self,
            BuildState::Failed(_) => self,
        }
    }

    /// The build after the events `events`, reported in order.
    pub open spec fn run(self, events: Seq<EventView>) -> BuildView
        decreases events.len(),
    {
        if events.len() == 0 {
            self
        } else {
            self.step(events[0]).run(events.drop_first())
        }
    }
}

/// The result `r` with what it holds replaced by its view.
pub open spec fn result_view<T: View, E: View>(r: Result<T, E>) -> Result<T::V, E::V> {
    match r {
        Ok(value) => Ok(value@),
        Err(error) => Err(error@),
    }
}

/// The name of the image file of the extension `name`.
pub fn raw_file_name(name: &str) -> (raw: String)
    ensures
        raw@ == raw_name(name@),
{
    name.to_owned().concat(".raw")
}

fn ext_commands(mkfs: &str, name: &str) -> (steps: Vec<Command>)
    ensures
        steps.deep_view() == ext_steps(mkfs@, name@),
{
    let raw = raw_file_name(name);
    let truncate = Command::new("truncate").with_args(vec!["-s", "1G", raw.as_str()]);
    let populate = Command::new(mkfs).with_args(
        vec!["-E", "root_owner=0:0", "-d", name, raw.as_str()],
    );
    let shrink = Command::new("resize2fs").with_args(vec!["-M", raw.as_str()]);
    let steps = vec![truncate, populate, shrink];
    assert(steps.deep_view() =~= ext_steps(mkfs@, name@)) by {
        assert(truncate@.args =~= seq!["-s"@, "1G"@, raw_name(name@)]);
        assert(populate@.args =~= seq!["-E"@, "root_owner=0:0"@, "-d"@, name@, raw_name(name@)]);
        assert(shrink@.args =~= seq!["-M"@, raw_name(name@)]);
    }
    steps
}

fn btrfs_commands(name: &str) -> (steps: Vec<Command>)
    ensures
        steps.deep_view() == btrfs_steps(name@),
{
    let raw = raw_file_name(name);
    let make = Command::new("mkfs.btrfs").with_args(
        vec![
            "--mixed",
            "-m",
            "single",
            "-d",
            "single",
            "--shrink",
            "--rootdir",
            name,
            raw.as_str(),
        ],
    );
    let steps = vec![make];
    assert(steps.deep_view() =~= btrfs_steps(name@)) by {
        assert(make@.args =~= seq![
            "--mixed"@,
            "-m"@,
            "single"@,
            "-d"@,
            "single"@,
            "--shrink"@,
            "--rootdir"@,
            name@,
            raw_name(name@),
        ]);
    }
    steps
}

fn squashfs_commands(name: &str, exclude_xattrs: bool) -> (steps: Vec<Command>)
    ensures
        steps.deep_view() == squashfs_steps(name@, exclude_xattrs),
{
    let raw = raw_file_name(name);
    let mut args = vec![name, raw.as_str(), "-all-root", "-noappend"];
    if exclude_xattrs {
        args.push("-xattrs-exclude");
        args.push("^btrfs.");
    }
    assert(args.deep_view() =~= squashfs_args(name@, exclude_xattrs));
    let make = Command::new("mksquashfs").with_args(args);
    let steps = vec![make];
    assert(steps.deep_view() =~= squashfs_steps(name@, exclude_xattrs));
    steps
}

fn probe_command() -> (probe: Command)
    ensures
        probe@ == version_probe(),
{
    let probe = Command::new("mksquashfs").with_args(vec!["-version"]);
    assert(probe@.args =~= seq!["-version"@]);
    probe
}

/// Whether `mksquashfs` is of version 4.6 or later, and so can leave out
/// extended attributes, judged from its finished version probe.
///
/// The exit status of the probe is not looked at. A probe without captured
/// output answers no; output that holds no readable version is settled by
/// `policy`.
pub fn makesquashfs_version_gt_4_6(probe: &Command, policy: OnMalformedVersion) -> (answer: Result<
    bool,
    VersionParseError,
>)
    ensures
        answer == probe_answer(probe@.stdout, policy),
{
    probe_feature(probe, ToolVersion { major: 4, minor: 6 }, policy)
}

/// Records `event` in the invocation `cmd` it is about.
fn settle(cmd: Command, event: Event) -> (done: Result<Command, BuildError>)
    ensures
        result_view(done) == settled(cmd@, event@),
{
    match event {
        Event::ToolNotFound => Err(BuildError::ToolNotFound { tool: cmd.get_name() }),
        Event::SpawnFailed(cause) => Err(BuildError::SpawnFailure { tool: cmd.get_name(), cause }),
        Event::Exited(output) => {
            let tool = cmd.get_name();
            match cmd.run(output) {
                Ok(done) => Ok(done),
                Err(stream) => Err(BuildError::OutputNotText { tool, stream }),
            }
        },
    }
}

#[derive(Debug)]
enum State {
    Probing,
    Running { steps: Vec<Command>, next: usize },
    Succeeded,
    Failed(BuildError),
}

/// The build of one image, between two invocations.
#[derive(Debug)]
pub struct FilesystemBuild {
    name: String,
    policy: OnMalformedVersion,
    state: State,
}

impl View for FilesystemBuild {
    type V = BuildView;

    closed spec fn view(&self) -> BuildView {
        BuildView {
            name: self.name@,
            policy: self.policy,
            state: match self.state {
                State::Probing => BuildState::Probing,
                State::Running { steps, next } => BuildState::Running {
                    steps: steps.deep_view(),
                    next: next as int,
                },
                State::Succeeded => BuildState::Succeeded,
                State::Failed(error) => BuildState::Failed(error@),
            },
        }
    }
}

impl FilesystemBuild {
    #[verifier::type_invariant]
    spec fn points_at_a_step(self) -> bool {
        match self.state {
            State::Running { steps, next } => next < steps.len(),
            _ => true,
        }
    }

    fn start(name: &str, steps: Vec<Command>) -> (build: Self)
        ensures
            build@ == BuildView::start(name@, steps.deep_view()),
    {
        let state = if steps.len() > 0 {
            State::Running { steps, next: 0 }
        } else {
            State::Succeeded
        };
        FilesystemBuild { name: name.to_owned(), policy: OnMalformedVersion::Fail, state }
    }

    /// The same build, with `policy` for a version probe that cannot be
    /// read. A build starts with [`OnMalformedVersion::Fail`].
    pub fn with_policy(self, policy: OnMalformedVersion) -> (build: Self)
        ensures
            build@ == (BuildView { policy, ..self@ }),
            build@.wf(),
    {
        proof {
            use_type_invariant(&self);
        }
        let FilesystemBuild { name, policy: _, state } = self;
        FilesystemBuild { name, policy, state }
    }

    /// The invocation to run next; `None` once the build has ended.
    pub fn pending(&self) -> (cmd: Option<Command>)
        ensures
            self@.wf(),
            cmd.deep_view() == self@.pending(),
    {
        proof {
            use_type_invariant(self);
        }
        match &self.state {
            State::Probing => Some(probe_command()),
            State::Running { steps, next } => Some(steps[*next].clone()),
            State::Succeeded => None,
            State::Failed(_) => None,
        }
    }

    /// How the build ended; `None` while an invocation is pending.
    pub fn outcome(&self) -> (end: Option<Result<(), BuildError>>)
        ensures
            match end {
                Some(Ok(())) => self@.outcome() == Some(Ok::<(), BuildErrorView>(())),
                Some(Err(error)) => self@.outcome() == Some(Err::<(), BuildErrorView>(error@)),
                None => self@.outcome() is None,
            },
    {
        match &self.state {
            State::Probing => None,
            State::Running { .. } => None,
            State::Succeeded => Some(Ok(())),
            State::Failed(error) => Some(Err(error.clone())),
        }
    }

    /// Takes in what became of the pending invocation and moves the build
    /// on: to its next step, to success after the last one, or to the error
    /// that ends it. On a build that has ended the event is dropped.
    pub fn advance(self, event: Event) -> (build: Self)
        ensures
            self@.wf(),
            build@.wf(),
            build@ == self@.step(event@),
    {
        proof {
            use_type_invariant(&self);
        }
        let FilesystemBuild { name, policy, state } = self;
        let state = match state {
            State::Probing => match settle(probe_command(), event) {
                Err(error) => State::Failed(error),
                Ok(done) => match makesquashfs_version_gt_4_6(&done, policy) {
                    Ok(exclude_xattrs) => {
                        let steps = squashfs_commands(name.as_str(), exclude_xattrs);
                        assert(steps.len() == steps.deep_view().len());
                        State::Running { steps, next: 0 }
                    },
                    Err(reason) => State::Failed(
                        BuildError::VersionParseFailure { tool: done.get_name(), reason },
                    ),
                },
            },
            State::Running { steps, next } => match settle(steps[next].clone(), event) {
                Err(error) => State::Failed(error),
                Ok(done) => if !done.success() {
                    let exit_code = match done.get_exit_status() {
                        Some(status) => status.code(),
                        None => None,
                    };
                    let stderr = match done.get_stderr() {
                        Some(text) => text,
                        None => String::new(),
                    };
                    State::Failed(
                        BuildError::StepFailure { tool: done.get_name(), exit_code, stderr },
                    )
                } else if next + 1 < steps.len() {
                    State::Running { steps, next: next + 1 }
                } else {
                    State::Succeeded
                },
            },
            State::Succeeded => State::Succeeded,
            State::Failed(error) => State::Failed(error),
        };
        FilesystemBuild { name, policy, state }
    }
}

/// The ext4 strategy: `truncate`, `mkfs.ext4`, `resize2fs`.
pub fn create_filesystem_ext4(cli: &BakeCli) -> (build: FilesystemBuild)
    ensures
        build@ == BuildView::ext4(cli.name@),
{
    FilesystemBuild::start(cli.name.as_str(), ext_commands("mkfs.ext4", cli.name.as_str()))
}

/// The ext2 strategy: `truncate`, `mkfs.ext2`, `resize2fs`.
pub fn create_filesystem_ext2(cli: &BakeCli) -> (build: FilesystemBuild)
    ensures
        build@ == BuildView::ext2(cli.name@),
{
    FilesystemBuild::start(cli.name.as_str(), ext_commands("mkfs.ext2", cli.name.as_str()))
}

/// The btrfs strategy: `mkfs.btrfs` alone.
pub fn create_filesystem_btrfs(cli: &BakeCli) -> (build: FilesystemBuild)
    ensures
        build@ == BuildView::btrfs(cli.name@),
{
    FilesystemBuild::start(cli.name.as_str(), btrfs_commands(cli.name.as_str()))
}

/// The squashfs strategy: the version probe, then `mksquashfs` with the
/// arguments that its version allows.
pub fn create_filesystem_squashfs(cli: &BakeCli) -> (build: FilesystemBuild)
    ensures
        build@ == BuildView::squashfs(cli.name@),
{
    FilesystemBuild {
        name: cli.name.clone(),
        policy: OnMalformedVersion::Fail,
        state: State::Probing,
    }
}

/// The build of the image that `cli` asks for: the strategy of its format,
/// before the first invocation.
pub fn create_filesystem(cli: &BakeCli) -> (build: FilesystemBuild)
    ensures
        build@ == BuildView::strategy(cli.format, cli.name@),
{
    match cli.format {
        FileSystemFormat::Ext4 => create_filesystem_ext4(cli),
        FileSystemFormat::Ext2 => create_filesystem_ext2(cli),
        FileSystemFormat::Btrfs => create_filesystem_btrfs(cli),
        FileSystemFormat::Squashfs => create_filesystem_squashfs(cli),
    }
}

/// Whether `event` reports a tool that ran, wrote text and exited with code
/// zero.
pub open spec fn clean_exit(event: EventView) -> bool {
    match event {
        EventView::Exited { stdout, stderr, status } => valid_utf8(stdout) && valid_utf8(stderr)
            && status == ExitStatus::Code(0),
        _ => false,
    }
}

/// The number of invocations that a build of `format` makes when none
/// fails.
pub open spec fn invocations(format: FileSystemFormat) -> nat {
    match format {
        FileSystemFormat::Ext4 => 3,
        FileSystemFormat::Ext2 => 3,
        FileSystemFormat::Btrfs => 1,
        FileSystemFormat::Squashfs => 2,
    }
}

/// A step keeps a build that points at one of its steps in that shape.
pub proof fn lemma_step_keeps_wf(build: BuildView, event: EventView)
    requires
        build.wf(),
    ensures
        build.step(event).wf(),
{
}

/// A build that has ended stays as it is, whatever is reported to it.
pub proof fn lemma_ended_build_stays(build: BuildView, events: Seq<EventView>)
    requires
        build.pending() is None,
    ensures
        build.run(events) == build,
    decreases events.len(),
{
    if events.len() > 0 {
        lemma_ended_build_stays(build, events.drop_first());
    }
}

/// A tool that is not found ends the build at once. The build fails with
/// the name of that tool, no invocation is pending any more, and nothing
/// reported later brings the build back: after the missing tool no process
/// is asked for.
pub proof fn lemma_missing_tool_ends_build(build: BuildView, later: Seq<EventView>)
    requires
        build.pending() is Some,
    ensures
        build.step(EventView::ToolNotFound).state == BuildState::Failed(
            BuildErrorView::ToolNotFound { tool: build.pending().unwrap().name },
        ),
        build.step(EventView::ToolNotFound).pending() is None,
        build.step(EventView::ToolNotFound).run(later) == build.step(EventView::ToolNotFound),
{
    lemma_ended_build_stays(build.step(EventView::ToolNotFound), later);
}

/// Any failure is final: once a step has failed, no invocation is pending,
/// whatever is reported later.
pub proof fn lemma_failure_is_final(build: BuildView, event: EventView, later: Seq<EventView>)
    requires
        build.step(event).state is Failed,
    ensures
        build.step(event).run(later) == build.step(event),
        build.step(event).run(later).pending() is None,
{
    lemma_ended_build_stays(build.step(event), later);
}

/// The version probe decides the arguments of `mksquashfs`: when its output
/// reports the version `version`, the step that follows is `mksquashfs` on
/// the directory and the image, with the exclusion of extended attributes
/// exactly if `version` is 4.6 or later.
pub proof fn lemma_probe_selects_arguments(
    build: BuildView,
    stdout: Seq<u8>,
    stderr: Seq<u8>,
    status: ExitStatus,
    version: ToolVersion,
)
    requires
        build.state is Probing,
        valid_utf8(stdout),
        valid_utf8(stderr),
        parse_version(decode_utf8(stdout)) == Ok::<ToolVersion, VersionParseError>(version),
    ensures
        build.step(EventView::Exited { stdout, stderr, status }).pending() == Some(
            CommandView::invocation(
                "mksquashfs"@,
                squashfs_args(build.name, version.is_at_least(4, 6)),
            ),
        ),
{
}

/// The arguments of `mksquashfs` hold the flag `-xattrs-exclude` if the
/// version of the tool is 4.6 or later, and do not hold it if the version is
/// older. The directory must not itself be named like the flag.
pub proof fn lemma_xattrs_flag_follows_version(name: Seq<char>, version: ToolVersion)
    requires
        name != "-xattrs-exclude"@,
    ensures
        squashfs_args(name, version.is_at_least(4, 6)).contains("-xattrs-exclude"@)
            <==> version.is_at_least(4, 6),
{
    let flag = "-xattrs-exclude"@;
    let raw = raw_name(name);
    reveal_strlit("-xattrs-exclude");
    reveal_strlit(".raw");
    reveal_strlit("-all-root");
    reveal_strlit("-noappend");
    reveal_strlit("^btrfs.");
    let args = squashfs_args(name, version.is_at_least(4, 6));
    if version.is_at_least(4, 6) {
        assert(args[4] == flag);
    } else {
        assert(raw != flag) by {
            if raw.len() == flag.len() {
                assert(raw[raw.len() - 1] == 'w');
                assert(flag[flag.len() - 1] == 'e');
            }
        }
        assert(args =~= seq![name, raw, "-all-root"@, "-noappend"@]);
        assert forall|i: int| 0 <= i < args.len() implies args[i] != flag by {
            if i == 2 {
                assert(args[i].len() != flag.len());
            }
            if i == 3 {
                assert(args[i].len() != flag.len());
            }
        }
    }
}

/// A build in which every tool is found, runs and exits with code zero
/// succeeds after the invocations of its strategy; for squashfs the first of
/// them is the version probe, whose output must report a version.
pub proof fn lemma_clean_run_succeeds(
    format: FileSystemFormat,
    name: Seq<char>,
    events: Seq<EventView>,
)
    requires
        events.len() == invocations(format),
        forall|i: int| 0 <= i < events.len() ==> clean_exit(#[trigger] events[i]),
        format == FileSystemFormat::Squashfs ==> parse_version(
            decode_utf8(events[0]->Exited_stdout),
        ) is Ok,
    ensures
        BuildView::strategy(format, name).run(events).state == BuildState::Succeeded,
{
    reveal_with_fuel(BuildView::run, 4);
    let start = BuildView::strategy(format, name);
    assert(clean_exit(events[0]));
    let first = start.step(events[0]);
    let rest = events.drop_first();
    if events.len() == 1 {
        assert(first.state == BuildState::Succeeded);
    } else if events.len() == 2 {
        assert(clean_exit(events[1]));
        assert(rest[0] == events[1]);
        assert(first.step(rest[0]).state == BuildState::Succeeded);
    } else {
        assert(clean_exit(events[1]));
        assert(clean_exit(events[2]));
        assert(rest[0] == events[1]);
        assert(rest.drop_first()[0] == events[2]);
        let second = first.step(events[1]);
        assert(second.step(events[2]).state == BuildState::Succeeded);
    }
}

/// The steps that a build of `format` takes for `name`; for squashfs, those
/// after its version probe, with or without the exclusion of extended
/// attributes.
pub open spec fn steps_of(format: FileSystemFormat, name: Seq<char>, exclude_xattrs: bool) -> Seq<
    CommandView,
> {
    match format {
        FileSystemFormat::Ext4 => ext_steps("mkfs.ext4"@, name),
        FileSystemFormat::Ext2 => ext_steps("mkfs.ext2"@, name),
        FileSystemFormat::Btrfs => btrfs_steps(name),
        FileSystemFormat::Squashfs => squashfs_steps(name, exclude_xattrs),
    }
}

/// Every step of every strategy works on the one image of the extension:
/// the file `<name>.raw` is among its arguments.
pub proof fn lemma_every_step_names_the_image(
    format: FileSystemFormat,
    name: Seq<char>,
    exclude_xattrs: bool,
    i: int,
)
    requires
        0 <= i < steps_of(format, name, exclude_xattrs).len(),
    ensures
        steps_of(format, name, exclude_xattrs)[i].args.contains(raw_name(name)),
{
    let step = steps_of(format, name, exclude_xattrs)[i];
    match format {
        FileSystemFormat::Ext4 | FileSystemFormat::Ext2 => {
            if i == 0 {
                assert(step.args[2] == raw_name(name));
            } else if i == 1 {
                assert(step.args[4] == raw_name(name));
            } else {
                assert(step.args[1] == raw_name(name));
            }
        },
        FileSystemFormat::Btrfs => {
            assert(step.args[8] == raw_name(name));
        },
        FileSystemFormat::Squashfs => {
            assert(step.args[1] == raw_name(name));
        },
    }
}

/// An ext filesystem is shrunk last: the final step of both ext strategies
/// is `resize2fs -M` on the image, and it is pending only after `truncate`
/// and the `mkfs` tool have exited with code zero.
pub proof fn lemma_ext_build_ends_with_shrink(
    format: FileSystemFormat,
    name: Seq<char>,
    first: EventView,
    second: EventView,
)
    requires
        format == FileSystemFormat::Ext4 || format == FileSystemFormat::Ext2,
    ensures
        steps_of(format, name, false).last() == CommandView::invocation(
            "resize2fs"@,
            seq!["-M"@, raw_name(name)],
        ),
        BuildView::strategy(format, name).step(first).step(second).pending() == Some(
            steps_of(format, name, false).last(),
        ) <==> clean_exit(first) && clean_exit(second),
{
    reveal_strlit("resize2fs");
    reveal_strlit("truncate");
    reveal_strlit("mkfs.ext4");
    reveal_strlit("mkfs.ext2");
    let steps = steps_of(format, name, false);
    let start = BuildView::strategy(format, name);
    assert(steps[0].name.len() != steps[2].name.len());
    assert(steps[1].name[0] != steps[2].name[0]);
    if clean_exit(first) {
        assert(start.step(first).pending() == Some(steps[1]));
    } else {
        assert(start.step(first).pending() != Some(steps[2]));
        assert(start.step(first).step(second).pending() != Some(steps[2]));
    }
}

/// No two formats share a strategy.
pub proof fn lemma_strategies_differ(a: FileSystemFormat, b: FileSystemFormat, name: Seq<char>)
    requires
        a != b,
    ensures
        BuildView::strategy(a, name) != BuildView::strategy(b, name),
{
    reveal_strlit("mkfs.ext4");
    reveal_strlit("mkfs.ext2");
    assert("mkfs.ext4"@[8] != "mkfs.ext2"@[8]);
    let ext4 = ext_steps("mkfs.ext4"@, name);
    let ext2 = ext_steps("mkfs.ext2"@, name);
    assert(ext4[1].name != ext2[1].name);
    assert(ext4.len() != btrfs_steps(name).len());
    assert(ext2.len() != btrfs_steps(name).len());
}

} // verus!
