//! Batches of commands and the results that executing them leaves behind.

use vstd::prelude::*;
use crate::text::{copy_opt, copy_texts, opt_text, texts};

verus! {

/// One command of a batch.
#[derive(Debug)]
pub enum ExeScriptCommand {
    Deploy,
    Start { args: Vec<String> },
    /// Runs `entry_point` with `args`. `input` is the first argument read
    /// as a number and given in counter units, if it is a number. Capture
    /// settings are not kept: the runtime ignores them.
    Run { entry_point: String, args: Vec<String>, input: Option<i64> },
    Terminate,
    /// Any command that this runtime has no handling for, with the text
    /// under which it is named in errors.
    Other { name: String },
}

/// The mathematical value of an [`ExeScriptCommand`].
pub enum CommandView {
    Deploy,
    Start { args: Seq<Seq<char>> },
    Run { entry_point: Seq<char>, args: Seq<Seq<char>>, input: Option<i64> },
    Terminate,
    Other { name: Seq<char> },
}

impl View for ExeScriptCommand {
    type V = CommandView;

    open spec fn view(&self) -> CommandView {
        match *self {
            ExeScriptCommand::Deploy => CommandView::Deploy,
            ExeScriptCommand::Start { args } => CommandView::Start { args: texts(args@) },
            ExeScriptCommand::Run { entry_point, args, input } => CommandView::Run {
                entry_point: entry_point@,
                args: texts(args@),
                input,
            },
            ExeScriptCommand::Terminate => CommandView::Terminate,
            ExeScriptCommand::Other { name } => CommandView::Other { name: name@ },
        }
    }
}

/// The views of the commands of a script, in order.
pub open spec fn script_view(script: Seq<ExeScriptCommand>) -> Seq<CommandView> {
    Seq::new(script.len(), |i: int| script[i]@)
}

/// Whether a command went through.
#[derive(Clone, Copy, Debug, PartialEq, Eq, Hash, Structural)]
pub enum CommandResult {
    Success,
    Failure,
}

/// What executing one command of a batch left behind.
#[derive(Debug)]
pub struct ExeScriptCommandResult {
    /// Position of the entry in the result list of its batch.
    pub index: u32,
    pub result: CommandResult,
    pub stdout: Option<String>,
    pub stderr: Option<String>,
    pub message: Option<String>,
    pub is_batch_finished: bool,
    /// When the entry was written, in microseconds since the Unix epoch.
    pub event_date: i64,
}

/// The mathematical value of an [`ExeScriptCommandResult`].
pub struct ResultView {
    pub index: u32,
    pub result: CommandResult,
    pub stdout: Option<Seq<char>>,
    pub stderr: Option<Seq<char>>,
    pub message: Option<Seq<char>>,
    pub is_batch_finished: bool,
    pub event_date: i64,
}

impl View for ExeScriptCommandResult {
    type V = ResultView;

    open spec fn view(&self) -> ResultView {
        ResultView {
            index: self.index,
            result: self.result,
            stdout: opt_text(self.stdout),
            stderr: opt_text(self.stderr),
            message: opt_text(self.message),
            is_batch_finished: self.is_batch_finished,
            event_date: self.event_date,
        }
    }
}

/// The views of a list of results, in order.
pub open spec fn results_view(results: Seq<ExeScriptCommandResult>) -> Seq<ResultView> {
    Seq::new(results.len(), |i: int| results[i]@)
}

impl ExeScriptCommandResult {
    /// A copy of the entry.
    pub fn duplicate(&self) -> (r: ExeScriptCommandResult)
        ensures
            r@ == self@,
    {
        ExeScriptCommandResult {
            index: self.index,
            result: self.result,
            stdout: copy_opt(&self.stdout),
            stderr: copy_opt(&self.stderr),
            message: copy_opt(&self.message),
            is_batch_finished: self.is_batch_finished,
            event_date: self.event_date,
        }
    }
}

/// A copy of a list of results.
pub fn copy_results(results: &Vec<ExeScriptCommandResult>) -> (r: Vec<ExeScriptCommandResult>)
    ensures
        results_view(r@) == results_view(results@),
{
    let mut r: Vec<ExeScriptCommandResult> = Vec::new();
    let mut i: usize = 0;
    while i < results.len()
        invariant
            i <= results.len(),
            r.len() == i,
            forall|j: int| 0 <= j < i ==> r[j]@ == results[j]@,
        decreases results.len() - i,
    {
        r.push(results[i].duplicate());
        i = i + 1;
    }
    assert(results_view(r@) =~= results_view(results@));
    r
}

impl ExeScriptCommand {
    /// A copy of the command.
    pub fn duplicate(&self) -> (r: ExeScriptCommand)
        ensures
            r@ == self@,
    {
        match self {
            ExeScriptCommand::Deploy => ExeScriptCommand::Deploy,
            ExeScriptCommand::Start { args } => ExeScriptCommand::Start { args: copy_texts(args) },
            ExeScriptCommand::Run { entry_point, args, input } => ExeScriptCommand::Run {
                entry_point: entry_point.clone(),
                args: copy_texts(args),
                input: *input,
            },
            ExeScriptCommand::Terminate => ExeScriptCommand::Terminate,
            ExeScriptCommand::Other { name } => ExeScriptCommand::Other { name: name.clone() },
        }
    }
}

} // verus!
