//! The command runner: the process that is to be started for a repository,
//! what came of it, and the record that is kept of it.
//!
//! Processes are started by the caller. It is handed an [`Invocation`], runs
//! it to the end, and reports back a [`ProcessOutcome`].

use crate::registry::{Repo, RepoView};
use crate::report::{
    emissions_view, header_line, header_text, Channel, Emission, EmissionView, Style,
};
use vstd::prelude::*;
use vstd::slice::slice_to_vec;
use vstd::string::*;
use vstd::utf8::{decode_utf8, valid_utf8};

verus! {

/// A process to start: the program, its arguments, the directory in which it
/// runs, and what it is given on standard input, if anything.
#[derive(Debug, PartialEq, Eq)]
pub struct Invocation {
    pub program: String,
    pub args: Vec<String>,
    pub working_dir: String,
    pub input: Option<String>,
}

/// The mathematical content of an [`Invocation`].
pub struct InvocationView {
    pub program: Seq<char>,
    pub args: Seq<Seq<char>>,
    pub working_dir: Seq<char>,
    pub input: Option<Seq<char>>,
}

/// The content of each string of a vector, in order.
pub open spec fn strings_view(strings: Seq<String>) -> Seq<Seq<char>> {
    Seq::new(strings.len(), |i: int| strings[i]@)
}

impl View for Invocation {
    type V = InvocationView;

    open spec fn view(&self) -> InvocationView {
        InvocationView {
            program: self.program@,
            args: strings_view(self.args@),
            working_dir: self.working_dir@,
            input: match self.input {
                Some(text) => Some(text@),
                None => None,
            },
        }
    }
}

/// A vector with a copy of each string of `strings`, in order.
pub(crate) fn copy_strings(strings: &[String]) -> (copied: Vec<String>)
    ensures
        strings_view(copied@) == strings_view(strings@),
{
    let mut copied: Vec<String> = Vec::new();
    let mut i: usize = 0;
    while i < strings.len()
        invariant
            i <= strings@.len(),
            copied@.len() == i,
            forall|k: int| 0 <= k < i ==> (#[trigger] copied@[k])@ == strings@[k]@,
        decreases strings@.len() - i,
    {
        copied.push(strings[i].clone());
        i += 1;
    }
    copied
}

impl Clone for Invocation {
    fn clone(&self) -> (copy: Self)
        ensures
            copy@ == self@,
    {
        Self {
            program: self.program.clone(),
            args: copy_strings(self.args.as_slice()),
            working_dir: self.working_dir.clone(),
            input: match &self.input {
                Some(text) => Some(text.clone()),
                None => None,
            },
        }
    }
}

/// What came of a process that the caller was asked to run.
#[derive(Debug, PartialEq, Eq)]
pub enum ProcessOutcome {
    /// The process ran to its end. `success` says whether it left with exit
    /// status zero; the two streams are what it wrote, byte for byte.
    Exited { success: bool, stdout: Vec<u8>, stderr: Vec<u8> },
    /// The process could not be started at all; `message` says why.
    SpawnFailed { message: String },
}

/// The mathematical content of a [`ProcessOutcome`].
pub enum OutcomeView {
    Exited { success: bool, stdout: Seq<u8>, stderr: Seq<u8> },
    SpawnFailed { message: Seq<char> },
}

impl View for ProcessOutcome {
    type V = OutcomeView;

    open spec fn view(&self) -> OutcomeView {
        match *self {
            ProcessOutcome::Exited { success, stdout, stderr } => OutcomeView::Exited {
                success,
                stdout: stdout@,
                stderr: stderr@,
            },
            ProcessOutcome::SpawnFailed { message } => OutcomeView::SpawnFailed {
                message: message@,
            },
        }
    }
}

impl Clone for ProcessOutcome {
    fn clone(&self) -> (copy: Self)
        ensures
            copy@ == self@,
    {
        match self {
            ProcessOutcome::Exited { success, stdout, stderr } => ProcessOutcome::Exited {
                success: *success,
                stdout: slice_to_vec(stdout.as_slice()),
                stderr: slice_to_vec(stderr.as_slice()),
            },
            ProcessOutcome::SpawnFailed { message } => ProcessOutcome::SpawnFailed {
                message: message.clone(),
            },
        }
    }
}

/// The content of each outcome of a vector, in order.
pub open spec fn outcomes_view(outcomes: Seq<ProcessOutcome>) -> Seq<OutcomeView> {
    Seq::new(outcomes.len(), |i: int| outcomes[i]@)
}

/// The record of one process: what it wrote, whether it succeeded, and the
/// label under which it is reported. `spawn_error` is set only where the
/// process could not be started, which is not the same as a process that ran
/// and failed.
#[derive(Debug, PartialEq, Eq)]
pub struct Log {
    pub stdout: String,
    pub stderr: String,
    pub success: bool,
    pub label: String,
    pub spawn_error: Option<String>,
}

/// The mathematical content of a [`Log`].
pub struct LogView {
    pub stdout: Seq<char>,
    pub stderr: Seq<char>,
    pub success: bool,
    pub label: Seq<char>,
    pub spawn_error: Option<Seq<char>>,
}

impl View for Log {
    type V = LogView;

    open spec fn view(&self) -> LogView {
        LogView {
            stdout: self.stdout@,
            stderr: self.stderr@,
            success: self.success,
            label: self.label@,
            spawn_error: match self.spawn_error {
                Some(message) => Some(message@),
                None => None,
            },
        }
    }
}

/// The text that lossy decoding makes of `bytes`: the text that they encode
/// where they are valid UTF-8, and otherwise a text in which each invalid
/// stretch is replaced by U+FFFD.
pub uninterp spec fn lossy_utf8(bytes: Seq<u8>) -> Seq<char>;

/// Calls `String::from_utf8_lossy`. The text depends on the bytes alone, and
/// valid UTF-8 is decoded as it stands.
#[verifier::external_body]
fn decode_lossy(bytes: &[u8]) -> (text: String)
    ensures
        text@ == lossy_utf8(bytes@),
        valid_utf8(bytes@) ==> text@ == decode_utf8(bytes@),
{
    String::from_utf8_lossy(bytes).into_owned()
}

/// The record of a process that ran to its end under `label`.
pub open spec fn captured_log(
    label: Seq<char>,
    success: bool,
    stdout: Seq<char>,
    stderr: Seq<char>,
) -> LogView {
    LogView { stdout, stderr, success, label, spawn_error: None }
}

/// The record of a process that could not be started under `label`: nothing
/// was written, and it did not succeed.
pub open spec fn spawn_failure_log(label: Seq<char>, message: Seq<char>) -> LogView {
    LogView {
        stdout: Seq::empty(),
        stderr: Seq::empty(),
        success: false,
        label,
        spawn_error: Some(message),
    }
}

/// The record that is kept of `outcome` under `label`. An exit status other
/// than zero is an ordinary outcome; only a process that could not be started
/// carries an error.
pub open spec fn logged(outcome: OutcomeView, label: Seq<char>) -> LogView {
    match outcome {
        OutcomeView::Exited { success, stdout, stderr } => captured_log(
            label,
            success,
            lossy_utf8(stdout),
            lossy_utf8(stderr),
        ),
        OutcomeView::SpawnFailed { message } => spawn_failure_log(label, message),
    }
}

/// What is written for a record: the header on standard output, then what the
/// process wrote to standard output, then what it wrote to standard error on
/// the error channel.
pub open spec fn displayed(log: LogView) -> Seq<EmissionView> {
    seq![
        EmissionView { channel: Channel::Stdout, style: Style::Header, text: header_line(log.label) },
        EmissionView { channel: Channel::Stdout, style: Style::Plain, text: log.stdout },
        EmissionView { channel: Channel::Stderr, style: Style::Plain, text: log.stderr },
    ]
}

impl Log {
    /// An empty record under `label`: nothing written, nothing failed.
    pub fn new(label: &str) -> (log: Self)
        ensures
            log@ == captured_log(label@, true, Seq::empty(), Seq::empty()),
    {
        Self {
            stdout: String::new(),
            stderr: String::new(),
            success: true,
            label: label.to_owned(),
            spawn_error: None,
        }
    }

    /// The record of a process that ran to its end.
    pub fn captured(label: &str, success: bool, stdout: String, stderr: String) -> (log: Self)
        ensures
            log@ == captured_log(label@, success, stdout@, stderr@),
    {
        let mut log = Log::new(label);
        log.success = success;
        log.stdout = stdout;
        log.stderr = stderr;
        log
    }

    /// The record of a process that could not be started.
    pub fn spawn_failed(label: &str, message: String) -> (log: Self)
        ensures
            log@ == spawn_failure_log(label@, message@),
    {
        let mut log = Log::new(label);
        log.success = false;
        log.spawn_error = Some(message);
        log
    }

    /// What is to be written for this record, in order.
    pub fn display(&self) -> (emissions: Vec<Emission>)
        ensures
            emissions_view(emissions@) == displayed(self@),
    {
        let mut emissions: Vec<Emission> = Vec::new();
        emissions.push(
            Emission {
                channel: Channel::Stdout,
                style: Style::Header,
                text: header_text(self.label.as_str()),
            },
        );
        emissions.push(
            Emission { channel: Channel::Stdout, style: Style::Plain, text: self.stdout.clone() },
        );
        emissions.push(
            Emission { channel: Channel::Stderr, style: Style::Plain, text: self.stderr.clone() },
        );
        emissions
    }
}

impl Clone for Log {
    fn clone(&self) -> (copy: Self)
        ensures
            copy@ == self@,
    {
        Self {
            stdout: self.stdout.clone(),
            stderr: self.stderr.clone(),
            success: self.success,
            label: self.label.clone(),
            spawn_error: match &self.spawn_error {
                Some(message) => Some(message.clone()),
                None => None,
            },
        }
    }
}

/// Turns what came of a process into its record under the label `repo`. The
/// two streams are decoded lossily and otherwise kept as they are.
pub fn logged_run(outcome: ProcessOutcome, repo: &str) -> (log: Log)
    ensures
        log@ == logged(outcome@, repo@),
        outcome@ matches OutcomeView::Exited { stdout, stderr, .. } ==> {
            &&& valid_utf8(stdout) ==> log@.stdout == decode_utf8(stdout)
            &&& valid_utf8(stderr) ==> log@.stderr == decode_utf8(stderr)
        },
{
    match outcome {
        ProcessOutcome::Exited { success, stdout, stderr } => {
            let out = decode_lossy(stdout.as_slice());
            let err = decode_lossy(stderr.as_slice());
            Log::captured(repo, success, out, err)
        },
        ProcessOutcome::SpawnFailed { message } => Log::spawn_failed(repo, message),
    }
}

/// The git process with the given arguments in the directory of `repo`.
pub open spec fn git_invocation(repo: RepoView, args: Seq<Seq<char>>) -> InvocationView {
    InvocationView { program: "git"@, args, working_dir: repo.path, input: None }
}

/// Plans the git process that runs `args` in the directory of `repo`.
pub fn run_git_command(repo: &Repo, args: &[String]) -> (invocation: Invocation)
    ensures
        invocation@ == git_invocation(repo@, strings_view(args@)),
{
    Invocation {
        program: String::from_str("git"),
        args: copy_strings(args),
        working_dir: repo.path.clone(),
        input: None,
    }
}

} // verus!
