//! Running a script: a text file of statements that the evaluator takes as
//! it takes a line typed by the user.
//!
//! A script may call the command that runs scripts, so scripts nest. Each
//! evaluation knows its depth, the number of scripts that run around it,
//! and hands it to the commands it calls; a script is turned down where
//! the depth has reached the ceiling. The depth is a value that is passed
//! along, so two chains of scripts never share a counter.
//!
//! Reading the file is not done here. A [`ScriptRunner`] goes through the
//! states of one run and says after each step whether the run goes on; its
//! user reads the file when the runner is in [`ScriptState::Reading`].

use vstd::prelude::*;
use crate::chars::to_chars;
use crate::dispatch::{ErrorPolicy, Evaluation, Evaluator, evaluate_command, evaluates, plan_of};
use crate::error::EvalError;
use crate::handler::{Command, CommandManager};
use crate::input::{is_blank, trim_bounds};

verus! {

/// The deepest nesting of scripts that is allowed.
pub const MAX_SCRIPT_DEPTH: usize = 500;

/// The suffix that the name of a script file ends in.
pub open spec fn script_suffix() -> Seq<char> {
    seq!['.', 'z', 'e', 'n', 's', 'h']
}

/// Whether `path` ends in the script suffix.
pub open spec fn has_script_suffix(path: Seq<char>) -> bool {
    path.len() >= script_suffix().len() && path.subrange(
        path.len() - script_suffix().len(),
        path.len() as int,
    ) == script_suffix()
}

/// Whether `path` names a script file, by its suffix.
pub fn is_script_path(path: &str) -> (r: bool)
    ensures
        r == has_script_suffix(path@),
{
    let v = to_chars(path);
    let n = v.len();
    if n < 6 {
        return false;
    }
    let r = v[n - 6] == '.' && v[n - 5] == 'z' && v[n - 4] == 'e' && v[n - 3] == 'n' && v[n - 2]
        == 's' && v[n - 1] == 'h';
    proof {
        let tail = v@.subrange(n - 6, n as int);
        if r {
            assert(tail =~= script_suffix());
        }
    }
    r
}

/// Whether a text holds nothing but white space.
pub fn is_blank_text(text: &str) -> (r: bool)
    ensures
        r == is_blank(text@),
{
    let v = to_chars(text);
    let (a, b) = trim_bounds(&v, 0, v.len());
    a == b
}

/// The states of one run of a script.
#[derive(Debug, Clone, Copy, PartialEq, Eq, Structural)]
pub enum ScriptState {
    /// Nothing has been done yet.
    Idle,
    /// The run was admitted; the file's name is to be checked.
    Validating,
    /// The name was accepted; the file is to be read.
    Reading,
    /// The content was accepted; it is to be evaluated.
    Evaluating,
    /// The run is over, by success or by an error.
    Complete,
}

/// One run of a script, from the request to the end.
pub struct ScriptRunner {
    state: ScriptState,
    depth: usize,
    ceiling: usize,
    content: String,
}

impl ScriptRunner {
    /// The state the run is in.
    pub closed spec fn state(&self) -> ScriptState {
        self.state
    }

    /// The depth at which the script was asked for.
    pub closed spec fn depth(&self) -> usize {
        self.depth
    }

    /// The deepest nesting that this run allows.
    pub closed spec fn ceiling(&self) -> usize {
        self.ceiling
    }

    /// The script's text, once it has been accepted.
    pub closed spec fn content(&self) -> Seq<char> {
        self.content@
    }

    /// A run that has been admitted is within the ceiling, and a script
    /// that is about to be evaluated is not blank.
    pub open spec fn wf(&self) -> bool {
        &&& (self.state() == ScriptState::Validating || self.state() == ScriptState::Reading
            || self.state() == ScriptState::Evaluating) ==> self.depth() < self.ceiling()
        &&& self.state() == ScriptState::Evaluating ==> !is_blank(self.content())
    }

    /// A run asked for at `depth`, with the usual ceiling.
    pub fn new(depth: usize) -> (r: ScriptRunner)
        ensures
            r.state() == ScriptState::Idle,
            r.depth() == depth,
            r.ceiling() == MAX_SCRIPT_DEPTH,
            r.wf(),
    {
        ScriptRunner { state: ScriptState::Idle, depth, ceiling: MAX_SCRIPT_DEPTH, content: String::new() }
    }

    /// A run asked for at `depth`, with a ceiling of one's own.
    pub fn with_ceiling(depth: usize, ceiling: usize) -> (r: ScriptRunner)
        ensures
            r.state() == ScriptState::Idle,
            r.depth() == depth,
            r.ceiling() == ceiling,
            r.wf(),
    {
        ScriptRunner { state: ScriptState::Idle, depth, ceiling, content: String::new() }
    }

    /// The state the run is in.
    pub fn current_state(&self) -> (r: ScriptState)
        ensures
            r == self.state(),
    {
        self.state
    }

    /// Admits the run or turns it down. A script asked for at a depth below
    /// the ceiling is admitted; at the ceiling or beyond it the run ends
    /// with [`EvalError::RecursionLimit`], and only this run.
    pub fn enter(&mut self) -> (r: Result<(), EvalError>)
        requires
            old(self).state() == ScriptState::Idle,
        ensures
            final(self).depth() == old(self).depth(),
            final(self).ceiling() == old(self).ceiling(),
            final(self).wf(),
            old(self).depth() < old(self).ceiling() ==> r is Ok && final(self).state()
                == ScriptState::Validating,
            old(self).depth() >= old(self).ceiling() ==> final(self).state()
                == ScriptState::Complete && (r matches Err(EvalError::RecursionLimit { ceiling })
                && ceiling == old(self).ceiling()),
    {
        if self.depth >= self.ceiling {
            self.state = ScriptState::Complete;
            Err(EvalError::RecursionLimit { ceiling: self.ceiling })
        } else {
            self.state = ScriptState::Validating;
            Ok(())
        }
    }

    /// Checks the file's name. A name that ends in the script suffix is
    /// accepted; any other ends the run with
    /// [`EvalError::BadScriptExtension`].
    pub fn validate(&mut self, path: &str) -> (r: Result<(), EvalError>)
        requires
            old(self).state() == ScriptState::Validating,
            old(self).wf(),
        ensures
            final(self).depth() == old(self).depth(),
            final(self).ceiling() == old(self).ceiling(),
            final(self).wf(),
            has_script_suffix(path@) ==> r is Ok && final(self).state() == ScriptState::Reading,
            !has_script_suffix(path@) ==> final(self).state() == ScriptState::Complete && (
            r matches Err(EvalError::BadScriptExtension { path: p }) && p@ == path@),
    {
        if is_script_path(path) {
            self.state = ScriptState::Reading;
            Ok(())
        } else {
            self.state = ScriptState::Complete;
            Err(EvalError::BadScriptExtension { path: path.to_owned() })
        }
    }

    /// Takes what reading the file gave: its text, or `None` where it could
    /// not be read. A text that is not blank is accepted. A file that could
    /// not be read ends the run with [`EvalError::UnreadableScript`], and a
    /// blank one with [`EvalError::EmptyScript`].
    pub fn supply(&mut self, path: &str, content: Option<String>) -> (r: Result<(), EvalError>)
        requires
            old(self).state() == ScriptState::Reading,
            old(self).wf(),
        ensures
            final(self).depth() == old(self).depth(),
            final(self).ceiling() == old(self).ceiling(),
            final(self).wf(),
            match content {
                None => final(self).state() == ScriptState::Complete && (r matches Err(
                    EvalError::UnreadableScript { path: p },
                ) && p@ == path@),
                Some(text) => if is_blank(text@) {
                    final(self).state() == ScriptState::Complete && r matches Err(
                        EvalError::EmptyScript,
                    )
                } else {
                    &&& r is Ok
                    &&& final(self).state() == ScriptState::Evaluating
                    &&& final(self).content() == text@
                },
            },
    {
        match content {
            None => {
                self.state = ScriptState::Complete;
                Err(EvalError::UnreadableScript { path: path.to_owned() })
            },
            Some(text) => {
                if is_blank_text(text.as_str()) {
                    self.state = ScriptState::Complete;
                    Err(EvalError::EmptyScript)
                } else {
                    self.content = text;
                    self.state = ScriptState::Evaluating;
                    Ok(())
                }
            },
        }
    }

    /// Plans the evaluation of the script and ends the run. The steps are to
    /// be done at the depth that comes with them, one level deeper than the
    /// script was asked for; the first command that fails ends the script.
    pub fn evaluator<C: ?Sized>(&mut self, manager: &CommandManager<C>) -> (r: (Evaluator, usize))
        requires
            old(self).state() == ScriptState::Evaluating,
            old(self).wf(),
        ensures
            final(self).depth() == old(self).depth(),
            final(self).ceiling() == old(self).ceiling(),
            final(self).state() == ScriptState::Complete,
            final(self).wf(),
            r.0.pending() == plan_of(manager@, old(self).content()),
            r.0.policy() == ErrorPolicy::Abort,
            !r.0.stopped(),
            r.0.result() is Ok,
            r.0.ready(manager@),
            r.1 == old(self).depth() + 1,
    {
        self.state = ScriptState::Complete;
        (Evaluator::new(manager, self.content.as_str(), ErrorPolicy::Abort), self.depth + 1)
    }

    /// Evaluates the script as the evaluator takes any input, one level
    /// deeper than the script was asked for, and ends the run. The first
    /// command that fails ends the script.
    pub fn evaluate<C: Command + ?Sized>(&mut self, manager: &CommandManager<C>) -> (r: Evaluation)
        requires
            old(self).state() == ScriptState::Evaluating,
            old(self).wf(),
        ensures
            final(self).depth() == old(self).depth(),
            final(self).ceiling() == old(self).ceiling(),
            final(self).state() == ScriptState::Complete,
            final(self).wf(),
            evaluates(
                manager@,
                old(self).content(),
                (old(self).depth() + 1) as usize,
                ErrorPolicy::Abort,
                r,
            ),
    {
        self.state = ScriptState::Complete;
        evaluate_command(manager, self.content.as_str(), self.depth + 1, ErrorPolicy::Abort)
    }
}

/// Runs the script named `path` at `depth`, given what reading the file
/// gave. The checks come in this order: the depth against the ceiling, the
/// file's name, whether the file could be read, whether it is blank. A
/// script that passes them all is evaluated one level deeper.
pub fn execute_script<C: Command + ?Sized>(
    manager: &CommandManager<C>,
    path: &str,
    content: Option<String>,
    depth: usize,
) -> (r: Evaluation)
    ensures
        if depth >= MAX_SCRIPT_DEPTH {
            r.events@.len() == 0 && (r.result matches Err(EvalError::RecursionLimit { ceiling })
                && ceiling == MAX_SCRIPT_DEPTH)
        } else if !has_script_suffix(path@) {
            r.events@.len() == 0 && (r.result matches Err(
                EvalError::BadScriptExtension { path: p },
            ) && p@ == path@)
        } else {
            match content {
                None => r.events@.len() == 0 && (r.result matches Err(
                    EvalError::UnreadableScript { path: p },
                ) && p@ == path@),
                Some(text) => if is_blank(text@) {
                    r.events@.len() == 0 && r.result matches Err(EvalError::EmptyScript)
                } else {
                    evaluates(manager@, text@, (depth + 1) as usize, ErrorPolicy::Abort, r)
                },
            }
        },
{
    let mut runner = ScriptRunner::new(depth);
    if let Err(error) = runner.enter() {
        return Evaluation { events: Vec::new(), result: Err(error) };
    }
    if let Err(error) = runner.validate(path) {
        return Evaluation { events: Vec::new(), result: Err(error) };
    }
    if let Err(error) = runner.supply(path, content) {
        return Evaluation { events: Vec::new(), result: Err(error) };
    }
    runner.evaluate(manager)
}

} // verus!
