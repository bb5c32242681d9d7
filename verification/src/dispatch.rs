//! The dispatcher: what the shell does with one statement, and with all
//! the statements of one input.
//!
//! Deciding is apart from doing. [`CommandManager::plan`] reads an input and
//! says, statement by statement, what is to be done; it calls no command.
//! [`CommandManager::run`] does one step, and [`evaluate_command`] does
//! them all in order.
//!
//! A statement that is empty, names no command or has the wrong number of
//! arguments is reported and never stops the evaluation. A command that
//! runs and fails stops it under [`ErrorPolicy::Abort`], which is meant for
//! scripts, and does not under [`ErrorPolicy::Continue`], which is meant for
//! a line typed by the user.

use vstd::prelude::*;
use crate::chars::{lowercase, to_chars, to_lowercase};
use crate::error::EvalError;
use crate::keyed::first_index;
use crate::handler::{Command, CommandManager, ManagerView};
use crate::input::{
    bounds_within, is_blank, option_text, option_texts, pieces, statement_bounds, statements,
    texts, tokenize_range, tokens_of, trim, trim_bounds,
};
use crate::similarity::suggestion;

verus! {

/// What is to be done with one statement.
#[derive(Debug)]
pub enum Step {
    /// The statement is empty: nothing to do but to say so.
    Skipped,
    /// No command has the name. `name` is the name that was looked up, and
    /// `suggestion` a registered name close to it.
    NotFound { name: String, suggestion: Option<String> },
    /// The command declares `expected` arguments and the statement has
    /// `received`: the command is not called.
    ArityMismatch { name: String, expected: usize, received: usize },
    /// The command at `index` is to be called with `args`. `ignored` counts
    /// the arguments that were given to a command that declares none; they
    /// are dropped and the command is called all the same.
    Invoke { index: usize, name: String, args: Option<Vec<String>>, ignored: usize },
}

/// A [`Step`] as a mathematical value.
pub ghost enum StepView {
    Skipped,
    NotFound { name: Seq<char>, suggestion: Option<Seq<char>> },
    ArityMismatch { name: Seq<char>, expected: usize, received: nat },
    Invoke { index: int, name: Seq<char>, args: Option<Seq<Seq<char>>>, ignored: nat },
}

impl View for Step {
    type V = StepView;

    open spec fn view(&self) -> StepView {
        match *self {
            Step::Skipped => StepView::Skipped,
            Step::NotFound { name, suggestion } => StepView::NotFound {
                name: name@,
                suggestion: option_text(suggestion),
            },
            Step::ArityMismatch { name, expected, received } => StepView::ArityMismatch {
                name: name@,
                expected,
                received: received as nat,
            },
            Step::Invoke { index, name, args, ignored } => StepView::Invoke {
                index: index as int,
                name: name@,
                args: option_texts(args),
                ignored: ignored as nat,
            },
        }
    }
}

/// The views of a list of steps.
pub open spec fn steps_view(steps: Seq<Step>) -> Seq<StepView> {
    Seq::new(steps.len(), |i: int| steps[i]@)
}

/// The arguments as a command gets them: `None` in place of an empty list.
pub open spec fn passed(args: Seq<Seq<char>>) -> Option<Seq<Seq<char>>> {
    if args.len() == 0 {
        None
    } else {
        Some(args)
    }
}

/// What is to be done with the command named exactly `key` and the
/// arguments `args`.
///
/// A name that no command has is not found, and the name closest to it is
/// suggested. A command that declares no number of arguments gets what
/// was given. One that declares a number gets the arguments if they are as
/// many; one that declares zero and was given some is called without them;
/// in every other case the numbers do not match and the command is not
/// called.
pub open spec fn dispatch<C: ?Sized>(m: ManagerView<C>, key: Seq<char>, args: Seq<Seq<char>>) -> StepView {
    match m.index_of(key) {
        None => StepView::NotFound { name: key, suggestion: suggestion(m.names(), key) },
        Some(i) => match m.entries[i].arity {
            None => StepView::Invoke { index: i, name: key, args: passed(args), ignored: 0 },
            Some(n) => if n == args.len() {
                StepView::Invoke { index: i, name: key, args: passed(args), ignored: 0 }
            } else if n == 0 {
                StepView::Invoke { index: i, name: key, args: None, ignored: args.len() }
            } else {
                StepView::ArityMismatch { name: key, expected: n, received: args.len() }
            },
        },
    }
}

/// What is to be done with a statement whose first token is `name`: the
/// name is put in lowercase, one alias is followed, and the command of that
/// name is dispatched.
pub open spec fn decide<C: ?Sized>(m: ManagerView<C>, name: Seq<char>, args: Seq<Seq<char>>) -> StepView {
    dispatch(m, m.canonical(name), args)
}

/// What is to be done with one statement of an input.
pub open spec fn statement_step<C: ?Sized>(m: ManagerView<C>, statement: Seq<char>) -> StepView {
    let tokens = tokens_of(trim(statement));
    if tokens.len() == 0 {
        StepView::Skipped
    } else {
        decide(m, tokens[0], tokens.skip(1))
    }
}

/// What is to be done with an input: nothing at all where it is blank, and
/// one step for each of its statements otherwise.
pub open spec fn plan_of<C: ?Sized>(m: ManagerView<C>, input: Seq<char>) -> Seq<StepView> {
    if is_blank(input) {
        Seq::empty()
    } else {
        let parts = statements(input);
        Seq::new(parts.len(), |i: int| statement_step(m, parts[i]))
    }
}

/// Whether a step is one that [`CommandManager::run`] can do on `m`: a call
/// goes to a command that exists, with `None` or with at least one
/// argument.
pub open spec fn runnable<C: ?Sized>(m: ManagerView<C>, step: StepView) -> bool {
    step matches StepView::Invoke { index, args, .. } ==> 0 <= index < m.entries.len() && (
    args matches Some(list) ==> list.len() > 0)
}

/// Every step that [`dispatch`] gives can be run.
pub proof fn lemma_dispatch_runnable<C: ?Sized>(m: ManagerView<C>, key: Seq<char>, args: Seq<Seq<char>>)
    ensures
        runnable(m, dispatch(m, key, args)),
{
    crate::keyed::lemma_first_index(m.names(), key);
}

impl<C: ?Sized> CommandManager<C> {
    /// Decides what is to be done with the command named exactly `key`.
    pub fn dispatch(&self, key: String, args: Vec<String>) -> (step: Step)
        ensures
            step@ == dispatch(self@, key@, texts(args@)),
            runnable(self@, step@),
    {
        proof {
            lemma_dispatch_runnable(self@, key@, texts(args@));
        }
        match self.index_of(&key) {
            None => {
                let suggestion = self.check_similarity(key.as_str());
                Step::NotFound { name: key, suggestion }
            },
            Some(i) => {
                let received = args.len();
                let declared = self.get_commands()[i].arity;
                match declared {
                    None => Step::Invoke { index: i, name: key, args: pass(args), ignored: 0 },
                    Some(n) => {
                        if n == received {
                            Step::Invoke { index: i, name: key, args: pass(args), ignored: 0 }
                        } else if n == 0 {
                            Step::Invoke { index: i, name: key, args: None, ignored: received }
                        } else {
                            Step::ArityMismatch { name: key, expected: n, received }
                        }
                    },
                }
            },
        }
    }

    /// Decides what is to be done with a statement whose first token is
    /// `name` and whose other tokens are `args`.
    pub fn decide(&self, name: &str, args: Vec<String>) -> (step: Step)
        ensures
            step@ == decide(self@, name@, texts(args@)),
            runnable(self@, step@),
    {
        let key = self.resolve(name);
        self.dispatch(key, args)
    }

    /// Reads an input and says what is to be done with each of its
    /// statements, in order. No command is called.
    pub fn plan(&self, input: &str) -> (steps: Vec<Step>)
        ensures
            steps_view(steps@) == plan_of(self@, input@),
            forall|i: int| 0 <= i < steps@.len() ==> runnable(self@, (#[trigger] steps@[i])@),
    {
        let v = to_chars(input);
        let mut steps: Vec<Step> = Vec::new();
        let (a, b) = trim_bounds(&v, 0, v.len());
        if a == b {
            return steps;
        }
        let bounds = statement_bounds(&v);
        let ghost parts = statements(v@);
        let mut k: usize = 0;
        while k < bounds.len()
            invariant
                k <= bounds.len(),
                bounds_within(bounds@, v@.len()),
                pieces(v@, bounds@) == parts,
                steps@.len() == k,
                forall|i: int| 0 <= i < k ==> (#[trigger] steps@[i])@ == statement_step(self@, parts[i]),
                forall|i: int| 0 <= i < k ==> runnable(self@, (#[trigger] steps@[i])@),
            decreases bounds.len() - k,
        {
            let (from, to) = bounds[k];
            let (a, b) = trim_bounds(&v, from, to);
            let mut tokens = tokenize_range(&v, a, b);
            let step = if tokens.len() == 0 {
                Step::Skipped
            } else {
                let ghost all = texts(tokens@);
                let name = tokens.remove(0);
                assert(texts(tokens@) =~= all.skip(1));
                self.decide(name.as_str(), tokens)
            };
            steps.push(step);
            k = k + 1;
        }
        steps
    }
}

/// The arguments as a command gets them: `None` in place of an empty list.
pub fn pass(args: Vec<String>) -> (r: Option<Vec<String>>)
    ensures
        option_texts(r) == passed(texts(args@)),
        r matches Some(list) ==> list@.len() > 0,
{
    if args.len() == 0 {
        None
    } else {
        Some(args)
    }
}

/// What happened to one statement.
#[derive(Debug)]
pub enum Event {
    /// The statement was empty and was skipped.
    Skipped,
    /// No command has the name.
    NotFound { name: String, suggestion: Option<String> },
    /// The number of arguments was wrong and the command was not called.
    ArityMismatch { name: String, expected: usize, received: usize },
    /// The command was called, after `ignored` arguments were dropped, and
    /// returned `outcome`.
    Ran { name: String, ignored: usize, outcome: Result<(), String> },
}

/// Whether `event` is what doing `step` on `m` at the depth `depth` can
/// give: the same report for a statement that calls no command, and for a
/// call the command's name with what the command at the step's place may
/// return when it is called with the step's arguments at that depth.
pub open spec fn answers<C: Command + ?Sized>(
    m: ManagerView<C>,
    depth: usize,
    step: StepView,
    event: Event,
) -> bool {
    match step {
        StepView::Skipped => event is Skipped,
        StepView::NotFound { name, suggestion } => {
            &&& event matches Event::NotFound { name: n, suggestion: s }
            &&& n@ == name
            &&& option_text(s) == suggestion
        },
        StepView::ArityMismatch { name, expected, received } => {
            &&& event matches Event::ArityMismatch { name: n, expected: e, received: r }
            &&& n@ == name
            &&& e == expected
            &&& r == received
        },
        StepView::Invoke { index, name, args, ignored } => {
            &&& event matches Event::Ran { name: n, ignored: i, outcome }
            &&& n@ == name
            &&& i == ignored
            &&& m.entries[index].command.may_return(args, depth, outcome)
        },
    }
}

/// Whether `r` is the error, if any, that the outcome of the command named
/// `name` amounts to.
pub open spec fn outcome_result(
    name: Seq<char>,
    outcome: Result<(), String>,
    r: Result<(), EvalError>,
) -> bool {
    match outcome {
        Ok(()) => r is Ok,
        Err(message) => {
            &&& r matches Err(EvalError::CommandFailed { name: n, message: m })
            &&& n@ == name
            &&& m@ == message@
        },
    }
}

/// Whether `r` is what doing the single step `step` on `m` at the depth
/// `depth` gives where one command was asked for: the error that says why
/// no command was called, or what the outcome of the call amounts to.
pub open spec fn step_result<C: Command + ?Sized>(
    m: ManagerView<C>,
    depth: usize,
    step: StepView,
    r: Result<(), EvalError>,
) -> bool {
    match step {
        StepView::Skipped => r matches Err(EvalError::EmptyStatement),
        StepView::NotFound { name, suggestion } => {
            &&& r matches Err(EvalError::UnknownCommand { name: n, suggestion: s })
            &&& n@ == name
            &&& option_text(s) == suggestion
        },
        StepView::ArityMismatch { name, expected, received } => {
            &&& r matches Err(EvalError::ArityMismatch { name: n, expected: e, received: g })
            &&& n@ == name
            &&& e == expected
            &&& g == received
        },
        StepView::Invoke { index, name, args, .. } => exists|outcome: Result<(), String>|
            {
                &&& #[trigger] m.entries[index].command.may_return(args, depth, outcome)
                &&& outcome_result(name, outcome, r)
            },
    }
}

/// Whether the event is a command's failure.
pub open spec fn failed(event: Event) -> bool {
    event matches Event::Ran { outcome: Err(_), .. }
}

/// Whether `error` reports the failure that `event` is.
pub open spec fn reports(error: EvalError, event: Event) -> bool {
    &&& event matches Event::Ran { name, outcome: Err(message), .. }
    &&& error matches EvalError::CommandFailed { name: n, message: m }
    &&& n@ == name@
    &&& m@ == message@
}

/// Whether the events of an evaluation end in `result`: `Ok` where no
/// command failed, and the first failure otherwise.
pub open spec fn concludes(events: Seq<Event>, result: Result<(), EvalError>) -> bool {
    match result {
        Ok(()) => forall|i: int| 0 <= i < events.len() ==> !failed(#[trigger] events[i]),
        Err(error) => exists|k: int|
            {
                &&& 0 <= k < events.len()
                &&& reports(error, #[trigger] events[k])
                &&& forall|j: int| 0 <= j < k ==> !failed(#[trigger] events[j])
            },
    }
}

/// Whether to go on after a command has failed.
#[derive(Debug, Clone, Copy, PartialEq, Eq, Structural)]
pub enum ErrorPolicy {
    /// Go on with the next statement. For input typed by the user.
    Continue,
    /// Leave the remaining statements undone. For scripts.
    Abort,
}

/// What an evaluation did and how it ended.
#[derive(Debug)]
pub struct Evaluation {
    /// What happened to each statement that was reached, in order.
    pub events: Vec<Event>,
    /// `Ok` where no command failed, and the first failure otherwise.
    pub result: Result<(), EvalError>,
}

/// The error for what a command named `name` returned.
pub fn outcome_error(name: &String, outcome: &Result<(), String>) -> (r: Result<(), EvalError>)
    ensures
        match *outcome {
            Ok(()) => r is Ok,
            Err(message) => r matches Err(EvalError::CommandFailed { name: n, message: m }) && n@
                == name@ && m@ == message@,
        },
{
    match outcome {
        Ok(()) => Ok(()),
        Err(message) => Err(
            EvalError::CommandFailed { name: name.clone(), message: message.clone() },
        ),
    }
}

/// The error, if any, that one event amounts to when a single command was
/// asked for: every event but a successful run is one.
pub fn event_error(event: &Event) -> (r: Result<(), EvalError>)
    ensures
        match *event {
            Event::Skipped => r matches Err(EvalError::EmptyStatement),
            Event::NotFound { name, suggestion } => r matches Err(
                EvalError::UnknownCommand { name: n, suggestion: s },
            ) && n@ == name@ && option_text(s) == option_text(suggestion),
            Event::ArityMismatch { name, expected, received } => r matches Err(
                EvalError::ArityMismatch { name: n, expected: e, received: g },
            ) && n@ == name@ && e == expected && g == received,
            Event::Ran { name, outcome: Ok(()), .. } => r is Ok,
            Event::Ran { name, outcome: Err(message), .. } => r matches Err(
                EvalError::CommandFailed { name: n, message: m },
            ) && n@ == name@ && m@ == message@,
        },
{
    match event {
        Event::Skipped => Err(EvalError::EmptyStatement),
        Event::NotFound { name, suggestion } => {
            let hint = match suggestion {
                Some(text) => Some(text.clone()),
                None => None,
            };
            Err(EvalError::UnknownCommand { name: name.clone(), suggestion: hint })
        },
        Event::ArityMismatch { name, expected, received } => Err(
            EvalError::ArityMismatch { name: name.clone(), expected: *expected, received: *received },
        ),
        Event::Ran { name, outcome, .. } => outcome_error(name, outcome),
    }
}

impl<C: Command + ?Sized> CommandManager<C> {
    /// Does one step: reports a statement that calls no command, and calls
    /// the command otherwise, at script depth `depth`.
    pub fn run(&self, step: Step, depth: usize) -> (event: Event)
        requires
            runnable(self@, step@),
        ensures
            answers(self@, depth, step@, event),
    {
        match step {
            Step::Skipped => Event::Skipped,
            Step::NotFound { name, suggestion } => Event::NotFound { name, suggestion },
            Step::ArityMismatch { name, expected, received } => Event::ArityMismatch {
                name,
                expected,
                received,
            },
            Step::Invoke { index, name, args, ignored } => {
                let slots = self.get_commands();
                let outcome = slots[index].command.execute(args, depth);
                Event::Ran { name, ignored, outcome }
            },
        }
    }

    /// Does the single step `step` and says how it ended: a step that calls
    /// no command is an error here, and so is the command's own failure.
    pub fn run_single(&self, step: Step, depth: usize) -> (r: Result<(), EvalError>)
        requires
            runnable(self@, step@),
        ensures
            step_result(self@, depth, step@, r),
    {
        let event = self.run(step, depth);
        event_error(&event)
    }

    /// Runs the command that `command` names, directly or by an alias, with
    /// `args` at the depth `depth`. An unknown name and a wrong number of
    /// arguments are errors here, and so is the command's own failure.
    pub fn execute(&self, command: &str, args: Option<Vec<String>>, depth: usize) -> (r: Result<
        (),
        EvalError,
    >)
        ensures
            step_result(self@, depth, decide(self@, command@, given(args)), r),
    {
        let list = match args {
            Some(list) => list,
            None => Vec::new(),
        };
        let step = self.decide(command, list);
        self.run_single(step, depth)
    }

    /// Runs the command whose name is `command`, without looking at the
    /// aliases.
    pub fn execute_command(&self, command: &str, args: Option<Vec<String>>, depth: usize) -> (r:
        Result<(), EvalError>)
        ensures
            step_result(self@, depth, dispatch(self@, lowercase(command@), given(args)), r),
    {
        let list = match args {
            Some(list) => list,
            None => Vec::new(),
        };
        let step = self.dispatch(to_lowercase(command), list);
        self.run_single(step, depth)
    }
}

/// The arguments that a caller handed over: none where it gave `None`.
pub open spec fn given(args: Option<Vec<String>>) -> Seq<Seq<char>> {
    match args {
        Some(list) => texts(list@),
        None => Seq::empty(),
    }
}

/// Whether `r` is an evaluation of `input` on the registry `m` at the
/// depth `depth` under `policy`: its events answer the steps of the plan,
/// one by one and in order, every command having been called at that
/// depth; every step is reached under [`ErrorPolicy::Continue`]; under
/// [`ErrorPolicy::Abort`] only the last event can be a failure, and steps
/// are left undone only after one; the result is the first failure, if any.
pub open spec fn evaluates<C: Command + ?Sized>(
    m: ManagerView<C>,
    input: Seq<char>,
    depth: usize,
    policy: ErrorPolicy,
    r: Evaluation,
) -> bool {
    let plan = plan_of(m, input);
    &&& r.events@.len() <= plan.len()
    &&& forall|i: int|
        0 <= i < r.events@.len() ==> answers(m, depth, plan[i], #[trigger] r.events@[i])
    &&& concludes(r.events@, r.result)
    &&& policy == ErrorPolicy::Continue ==> r.events@.len() == plan.len()
    &&& policy == ErrorPolicy::Abort ==> forall|i: int|
        0 <= i < r.events@.len() - 1 ==> !failed(#[trigger] r.events@[i])
    &&& r.events@.len() < plan.len() ==> r.events@.len() > 0 && failed(r.events@.last())
}

/// An evaluation in progress: the steps that are still to be done, and
/// how the ones that were done have gone. It is for a caller that wants
/// each event as it happens; [`evaluate_command`] does the same in one
/// call.
pub struct Evaluator {
    pending: Vec<Step>,
    policy: ErrorPolicy,
    stopped: bool,
    result: Result<(), EvalError>,
}

impl Evaluator {
    /// The steps that are still to be done, in order.
    pub closed spec fn pending(&self) -> Seq<StepView> {
        steps_view(self.pending@)
    }

    /// The policy of this evaluation.
    pub closed spec fn policy(&self) -> ErrorPolicy {
        self.policy
    }

    /// Whether a failure has ended the evaluation before its last step.
    pub closed spec fn stopped(&self) -> bool {
        self.stopped
    }

    /// `Ok` while no command has failed, and the first failure afterwards.
    pub closed spec fn result(&self) -> Result<(), EvalError> {
        self.result
    }

    /// Whether every step that is still to be done can be run on `m`.
    pub open spec fn ready<C: ?Sized>(&self, m: ManagerView<C>) -> bool {
        forall|i: int| 0 <= i < self.pending().len() ==> runnable(m, #[trigger] self.pending()[i])
    }

    /// Plans the evaluation of `input` on `manager`. Nothing is done yet.
    pub fn new<C: ?Sized>(manager: &CommandManager<C>, input: &str, policy: ErrorPolicy) -> (e:
        Evaluator)
        ensures
            e.pending() == plan_of(manager@, input@),
            e.policy() == policy,
            !e.stopped(),
            e.result() is Ok,
            e.ready(manager@),
    {
        let pending = manager.plan(input);
        Evaluator { pending, policy, stopped: false, result: Ok(()) }
    }

    /// Does the next step and returns what happened, or returns `None`
    /// where no step is left or a failure has ended the evaluation. A
    /// command's failure is kept as the result if it is the first, and ends
    /// the evaluation under [`ErrorPolicy::Abort`].
    pub fn advance<C: Command + ?Sized>(&mut self, manager: &CommandManager<C>, depth: usize) -> (r:
        Option<Event>)
        requires
            old(self).ready(manager@),
        ensures
            final(self).ready(manager@),
            final(self).policy() == old(self).policy(),
            match r {
                None => {
                    &&& old(self).pending().len() == 0 || old(self).stopped()
                    &&& final(self).pending() == old(self).pending()
                    &&& final(self).stopped() == old(self).stopped()
                    &&& final(self).result() == old(self).result()
                },
                Some(event) => {
                    &&& old(self).pending().len() > 0
                    &&& !old(self).stopped()
                    &&& answers(manager@, depth, old(self).pending()[0], event)
                    &&& final(self).pending() == old(self).pending().skip(1)
                    &&& final(self).stopped() == (old(self).policy() == ErrorPolicy::Abort
                        && failed(event))
                    &&& if old(self).result() is Ok && failed(event) {
                        final(self).result() is Err && reports(final(self).result()->Err_0, event)
                    } else {
                        final(self).result() == old(self).result()
                    }
                },
            },
    {
        if self.stopped || self.pending.len() == 0 {
            return None;
        }
        let ghost before = self.pending();
        let step = self.pending.remove(0);
        assert(step@ == before[0]);
        assert(self.pending() =~= before.skip(1));
        let event = manager.run(step, depth);
        let failure = match &event {
            Event::Ran { outcome: Err(_), .. } => true,
            _ => false,
        };
        if failure {
            if self.result.is_ok() {
                self.result = event_error(&event);
            }
            if self.policy == ErrorPolicy::Abort {
                self.stopped = true;
            }
        }
        Some(event)
    }

    /// How the evaluation has gone: `Ok` where no command has failed, and
    /// the first failure otherwise.
    pub fn finish(self) -> (r: Result<(), EvalError>)
        ensures
            r == self.result(),
    {
        self.result
    }
}

/// Evaluates an input at script depth `depth`: does the steps of its plan
/// in order. Every statement is reached under [`ErrorPolicy::Continue`];
/// under [`ErrorPolicy::Abort`] the first command that fails is the last
/// step done. The result is the first failure of a command, if any. A blank
/// input does nothing and succeeds.
pub fn evaluate_command<C: Command + ?Sized>(
    manager: &CommandManager<C>,
    input: &str,
    depth: usize,
    policy: ErrorPolicy,
) -> (r: Evaluation)
    ensures
        evaluates(manager@, input@, depth, policy, r),
        is_blank(input@) ==> r.events@.len() == 0 && r.result is Ok,
{
    let mut evaluator = Evaluator::new(manager, input, policy);
    let ghost plan = plan_of(manager@, input@);
    let mut events: Vec<Event> = Vec::new();
    loop
        invariant
            evaluator.ready(manager@),
            evaluator.policy() == policy,
            events@.len() <= plan.len(),
            evaluator.pending() == plan.skip(events@.len() as int),
            forall|i: int|
                0 <= i < events@.len() ==> answers(manager@, depth, plan[i], #[trigger] events@[i]),
            concludes(events@, evaluator.result()),
            policy == ErrorPolicy::Abort ==> forall|i: int|
                0 <= i < events@.len() - 1 ==> !failed(#[trigger] events@[i]),
            policy == ErrorPolicy::Abort && !evaluator.stopped() ==> forall|i: int|
                0 <= i < events@.len() ==> !failed(#[trigger] events@[i]),
            policy == ErrorPolicy::Continue ==> !evaluator.stopped(),
            evaluator.stopped() ==> events@.len() > 0 && failed(events@.last()),
        ensures
            evaluator.pending().len() == 0 || evaluator.stopped(),
        decreases evaluator.pending().len() + if evaluator.stopped() { 0int } else { 1int },
    {
        let ghost done = events@;
        let ghost earlier = evaluator.result();
        match evaluator.advance(manager, depth) {
            None => {
                break ;
            },
            Some(event) => {
                events.push(event);
                proof {
                    if earlier is Ok {
                        if failed(event) {
                            assert(reports(
                                evaluator.result()->Err_0,
                                events@[done.len() as int],
                            ));
                        }
                    } else {
                        let k = choose|k: int|
                            {
                                &&& 0 <= k < done.len()
                                &&& reports(earlier->Err_0, #[trigger] done[k])
                                &&& forall|j: int| 0 <= j < k ==> !failed(#[trigger] done[j])
                            };
                        assert(reports(evaluator.result()->Err_0, events@[k]));
                    }
                }
            },
        }
    }
    Evaluation { events, result: evaluator.finish() }
}

/// A statement that names a command by an alias is dispatched as the same
/// statement with the command's own name, whatever the case of either, as
/// long as the command's name is not an alias too.
pub proof fn lemma_alias_acts_as_target<C: ?Sized>(
    m: ManagerView<C>,
    i: int,
    alias: Seq<char>,
    target: Seq<char>,
    args: Seq<Seq<char>>,
)
    requires
        m.wf(),
        0 <= i < m.aliases.len(),
        lowercase(alias) == m.aliases[i].0,
        lowercase(target) == m.aliases[i].1,
        first_index(m.alias_names(), m.aliases[i].1) is None,
    ensures
        m.canonical(alias) == m.canonical(target),
        m.lookup(alias) == m.lookup(target),
        decide(m, alias, args) == decide(m, target, args),
{
    crate::keyed::lemma_distinct_first_index(m.alias_names(), i);
}

/// A command that declares a number of arguments above zero is called
/// exactly when it is given that many, and with them; given any other
/// number it is not called and the mismatch is reported.
pub proof fn lemma_arity_gate<C: ?Sized>(m: ManagerView<C>, key: Seq<char>, args: Seq<Seq<char>>)
    requires
        m.index_of(key) matches Some(i) && (m.entries[i].arity matches Some(n) && n > 0),
    ensures
        args.len() == m.entries[m.index_of(key)->0].arity->0 ==> dispatch(m, key, args) == (
        StepView::Invoke { index: m.index_of(key)->0, name: key, args: Some(args), ignored: 0 }),
        args.len() != m.entries[m.index_of(key)->0].arity->0 ==> dispatch(m, key, args) == (
        StepView::ArityMismatch {
            name: key,
            expected: m.entries[m.index_of(key)->0].arity->0,
            received: args.len(),
        }),
{
}

/// A blank input has an empty plan on every registry, so that evaluating
/// it any number of times calls no command and reports nothing.
pub proof fn lemma_blank_plan<C: ?Sized>(m: ManagerView<C>, input: Seq<char>)
    requires
        is_blank(input),
    ensures
        plan_of(m, input) == Seq::<StepView>::empty(),
{
}

} // verus!
