//! Service operations as plans of outside steps, and the state machine that
//! walks a plan: it hands out one action at a time and decides, from the
//! outcome of each action, whether the operation goes on, ends in success or
//! ends in an error.

use vstd::prelude::*;

verus! {

/// A program and its arguments, to be run by the caller.
#[derive(Clone, Debug, PartialEq, Eq)]
pub struct CommandLine {
    pub program: String,
    pub args: Vec<String>,
}

pub struct CommandLineView {
    pub program: Seq<char>,
    pub args: Seq<Seq<char>>,
}

pub open spec fn strings_view(v: Seq<String>) -> Seq<Seq<char>> {
    v.map_values(|s: String| s@)
}

impl View for CommandLine {
    type V = CommandLineView;

    open spec fn view(&self) -> CommandLineView {
        CommandLineView { program: self.program@, args: strings_view(self.args@) }
    }
}

/// What happens when a command cannot be executed at all.
#[derive(Clone, Debug, PartialEq, Eq)]
pub enum OnExecError {
    /// The operation goes on.
    Ignore,
    /// The operation ends with this prefix followed by the error text.
    Fail(String),
}

/// What the report of an inactive service says.
#[derive(Clone, Debug, PartialEq, Eq)]
pub enum Inactive {
    /// This header, then the command's stdout and stderr.
    WithOutput(String),
    /// This fixed text.
    Fixed(String),
}

/// What happens once a command has run, by its exit status.
#[derive(Clone, Debug, PartialEq, Eq)]
pub enum OnStatus {
    /// The exit status does not matter.
    Ignore,
    /// A failed status ends the operation with this prefix and the stderr text.
    FailWithStderr(String),
    /// The operation ends here with a status report: on success this header
    /// followed by stdout, otherwise the inactive report.
    Report { active: String, inactive: Inactive },
    /// On success the next step is skipped.
    SkipNextOnSuccess,
    /// One of two notes is added to the messages, by the exit status.
    Announce { ok: String, failed: String },
}

/// One step of a service operation.
#[derive(Clone, Debug, PartialEq, Eq)]
pub enum Step {
    /// Create a directory and its parents; a failure is ignored.
    MakeDirs(String),
    /// Write a file; a failure ends the operation with the prefix and the error.
    WriteFile { path: String, contents: String, err_prefix: String },
    /// Mark a file executable (mode 0755); a failure ends the operation.
    MakeExecutable(String),
    /// Run a command.
    Run { command: CommandLine, on_error: OnExecError, on_status: OnStatus },
    /// If the path does not exist the operation ends successfully with this note.
    IfExists { path: String, absent: String },
    /// Remove a file; a failure ends the operation.
    Remove(String),
    /// The operation ends with this error before any outside work.
    Fail(String),
}

/// The steps of an operation and the messages it prints when all steps succeed.
#[derive(Clone, Debug, PartialEq, Eq)]
pub struct Plan {
    pub steps: Vec<Step>,
    pub done_messages: Vec<String>,
}

pub enum OnExecErrorView {
    Ignore,
    Fail(Seq<char>),
}

pub enum InactiveView {
    WithOutput(Seq<char>),
    Fixed(Seq<char>),
}

pub enum OnStatusView {
    Ignore,
    FailWithStderr(Seq<char>),
    Report { active: Seq<char>, inactive: InactiveView },
    SkipNextOnSuccess,
    Announce { ok: Seq<char>, failed: Seq<char> },
}

pub enum StepView {
    MakeDirs(Seq<char>),
    WriteFile { path: Seq<char>, contents: Seq<char>, err_prefix: Seq<char> },
    MakeExecutable(Seq<char>),
    Run { command: CommandLineView, on_error: OnExecErrorView, on_status: OnStatusView },
    IfExists { path: Seq<char>, absent: Seq<char> },
    Remove(Seq<char>),
    Fail(Seq<char>),
}

pub struct PlanView {
    pub steps: Seq<StepView>,
    pub done_messages: Seq<Seq<char>>,
}

impl View for OnExecError {
    type V = OnExecErrorView;

    open spec fn view(&self) -> OnExecErrorView {
        match self {
            OnExecError::Ignore => OnExecErrorView::Ignore,
            OnExecError::Fail(p) => OnExecErrorView::Fail(p@),
        }
    }
}

impl View for Inactive {
    type V = InactiveView;

    open spec fn view(&self) -> InactiveView {
        match self {
            Inactive::WithOutput(h) => InactiveView::WithOutput(h@),
            Inactive::Fixed(t) => InactiveView::Fixed(t@),
        }
    }
}

impl View for OnStatus {
    type V = OnStatusView;

    open spec fn view(&self) -> OnStatusView {
        match self {
            OnStatus::Ignore => OnStatusView::Ignore,
            OnStatus::FailWithStderr(p) => OnStatusView::FailWithStderr(p@),
            OnStatus::Report { active, inactive } => OnStatusView::Report {
                active: active@,
                inactive: inactive@,
            },
            OnStatus::SkipNextOnSuccess => OnStatusView::SkipNextOnSuccess,
            OnStatus::Announce { ok, failed } => OnStatusView::Announce { ok: ok@, failed: failed@ },
        }
    }
}

impl View for Step {
    type V = StepView;

    open spec fn view(&self) -> StepView {
        match self {
            Step::MakeDirs(p) => StepView::MakeDirs(p@),
            Step::WriteFile { path, contents, err_prefix } => StepView::WriteFile {
                path: path@,
                contents: contents@,
                err_prefix: err_prefix@,
            },
            Step::MakeExecutable(p) => StepView::MakeExecutable(p@),
            Step::Run { command, on_error, on_status } => StepView::Run {
                command: command@,
                on_error: on_error@,
                on_status: on_status@,
            },
            Step::IfExists { path, absent } => StepView::IfExists { path: path@, absent: absent@ },
            Step::Remove(p) => StepView::Remove(p@),
            Step::Fail(m) => StepView::Fail(m@),
        }
    }
}

impl View for Plan {
    type V = PlanView;

    open spec fn view(&self) -> PlanView {
        PlanView {
            steps: self.steps@.map_values(|s: Step| s@),
            done_messages: strings_view(self.done_messages@),
        }
    }
}

/// What a command run reported: its exit status and its output as text.
#[derive(Clone, Debug, PartialEq, Eq)]
pub struct CommandOutput {
    pub success: bool,
    pub stdout: String,
    pub stderr: String,
}

/// The outcome of the action that was handed out last.
#[derive(Debug, PartialEq, Eq)]
pub enum Event {
    DirsMade,
    Wrote(Result<(), String>),
    Ran(Result<CommandOutput, String>),
    Exists(bool),
    Removed(Result<(), String>),
}

pub enum EventView {
    DirsMade,
    Wrote(Result<(), Seq<char>>),
    Ran(Result<(bool, Seq<char>, Seq<char>), Seq<char>>),
    Exists(bool),
    Removed(Result<(), Seq<char>>),
}

impl View for Event {
    type V = EventView;

    open spec fn view(&self) -> EventView {
        match self {
            Event::DirsMade => EventView::DirsMade,
            Event::Wrote(Ok(())) => EventView::Wrote(Ok(())),
            Event::Wrote(Err(e)) => EventView::Wrote(Err(e@)),
            Event::Ran(Ok(o)) => EventView::Ran(Ok((o.success, o.stdout@, o.stderr@))),
            Event::Ran(Err(e)) => EventView::Ran(Err(e@)),
            Event::Exists(b) => EventView::Exists(*b),
            Event::Removed(Ok(())) => EventView::Removed(Ok(())),
            Event::Removed(Err(e)) => EventView::Removed(Err(e@)),
        }
    }
}

/// How an operation ended: its result and the messages to print.
#[derive(Debug, PartialEq, Eq)]
pub struct Outcome {
    pub result: Result<String, String>,
    pub messages: Vec<String>,
}

/// The next piece of outside work, or the end of the operation.
#[derive(Debug, PartialEq, Eq)]
pub enum Action {
    MakeDirs(String),
    WriteFile { path: String, contents: String },
    MakeExecutable(String),
    Run(CommandLine),
    CheckExists(String),
    Remove(String),
    Finish(Outcome),
}

pub enum ActionView {
    MakeDirs(Seq<char>),
    WriteFile { path: Seq<char>, contents: Seq<char> },
    MakeExecutable(Seq<char>),
    Run(CommandLineView),
    CheckExists(Seq<char>),
    Remove(Seq<char>),
    Finish { result: Result<Seq<char>, Seq<char>>, messages: Seq<Seq<char>> },
}

impl View for Action {
    type V = ActionView;

    open spec fn view(&self) -> ActionView {
        match self {
            Action::MakeDirs(p) => ActionView::MakeDirs(p@),
            Action::WriteFile { path, contents } => ActionView::WriteFile {
                path: path@,
                contents: contents@,
            },
            Action::MakeExecutable(p) => ActionView::MakeExecutable(p@),
            Action::Run(c) => ActionView::Run(c@),
            Action::CheckExists(p) => ActionView::CheckExists(p@),
            Action::Remove(p) => ActionView::Remove(p@),
            Action::Finish(o) => ActionView::Finish {
                result: match o.result {
                    Ok(v) => Ok(v@),
                    Err(e) => Err(e@),
                },
                messages: strings_view(o.messages@),
            },
        }
    }
}

/// The action that starts step `pc` of `plan`, with `notes` gathered so far.
pub open spec fn issue(plan: PlanView, pc: int, notes: Seq<Seq<char>>) -> ActionView {
    if pc >= plan.steps.len() {
        ActionView::Finish { result: Ok(Seq::empty()), messages: notes + plan.done_messages }
    } else {
        match plan.steps[pc] {
            StepView::MakeDirs(p) => ActionView::MakeDirs(p),
            StepView::WriteFile { path, contents, .. } => ActionView::WriteFile { path, contents },
            StepView::MakeExecutable(p) => ActionView::MakeExecutable(p),
            StepView::Run { command, .. } => ActionView::Run(command),
            StepView::IfExists { path, .. } => ActionView::CheckExists(path),
            StepView::Remove(p) => ActionView::Remove(p),
            StepView::Fail(m) => ActionView::Finish { result: Err(m), messages: Seq::empty() },
        }
    }
}

/// Whether an event is the outcome of the kind of work that a step hands out.
pub open spec fn fits(step: StepView, event: EventView) -> bool {
    match step {
        StepView::MakeDirs(_) => event is DirsMade,
        StepView::WriteFile { .. } => event is Wrote,
        StepView::MakeExecutable(_) => event is Wrote,
        StepView::Run { .. } => event is Ran,
        StepView::IfExists { .. } => event is Exists,
        StepView::Remove(_) => event is Removed,
        StepView::Fail(_) => false,
    }
}

/// How a step reacts to the outcome of its work.
pub enum Reaction {
    Continue,
    SkipNext,
    Note(Seq<char>),
    Finish(Result<Seq<char>, Seq<char>>),
    Absent(Seq<char>),
}

pub open spec fn react(step: StepView, event: EventView) -> Reaction {
    match (step, event) {
        (StepView::WriteFile { err_prefix, .. }, EventView::Wrote(Err(e))) => Reaction::Finish(
            Err(err_prefix + e),
        ),
        (StepView::MakeExecutable(_), EventView::Wrote(Err(e))) => Reaction::Finish(Err(e)),
        (StepView::Run { on_error, .. }, EventView::Ran(Err(e))) => match on_error {
            OnExecErrorView::Ignore => Reaction::Continue,
            OnExecErrorView::Fail(p) => Reaction::Finish(Err(p + e)),
        },
        (StepView::Run { on_status, .. }, EventView::Ran(Ok((success, stdout, stderr)))) => {
            match on_status {
                OnStatusView::Ignore => Reaction::Continue,
                OnStatusView::FailWithStderr(p) => if success {
                    Reaction::Continue
                } else {
                    Reaction::Finish(Err(p + stderr))
                },
                OnStatusView::Report { active, inactive } => if success {
                    Reaction::Finish(Ok(active + stdout))
                } else {
                    match inactive {
                        InactiveView::WithOutput(h) => Reaction::Finish(Ok(h + stdout + stderr)),
                        InactiveView::Fixed(t) => Reaction::Finish(Ok(t)),
                    }
                },
                OnStatusView::SkipNextOnSuccess => if success {
                    Reaction::SkipNext
                } else {
                    Reaction::Continue
                },
                OnStatusView::Announce { ok, failed } => if success {
                    Reaction::Note(ok)
                } else {
                    Reaction::Note(failed)
                },
            }
        },
        (StepView::IfExists { absent, .. }, EventView::Exists(false)) => Reaction::Absent(absent),
        (StepView::Remove(_), EventView::Removed(Err(e))) => Reaction::Finish(Err(e)),
        _ => Reaction::Continue,
    }
}

/// A plan being carried out: `pc` is the step whose work is outstanding.
pub struct ServiceRun {
    pub plan: Plan,
    pub pc: usize,
    pub notes: Vec<String>,
    pub finished: bool,
}

impl ServiceRun {
    pub open spec fn notes_view(&self) -> Seq<Seq<char>> {
        strings_view(self.notes@)
    }

    /// The step whose outcome the run waits for.
    pub open spec fn current(&self) -> StepView {
        self.plan@.steps[self.pc as int]
    }

    /// Whether the run waits for the outcome of some step.
    pub open spec fn accepts_some_event(&self) -> bool {
        !self.finished && self.pc < self.plan@.steps.len() && !(self.current() is Fail)
    }

    /// Whether `event` is an outcome the run can take now.
    pub open spec fn accepts(&self, event: EventView) -> bool {
        &&& !self.finished
        &&& self.pc < self.plan@.steps.len()
        &&& fits(self.current(), event)
    }
}

/// Owned copies of `parts`, in order.
pub fn words(parts: Vec<&str>) -> (res: Vec<String>)
    ensures
        strings_view(res@) == parts@.map_values(|s: &str| s@),
{
    let mut res: Vec<String> = Vec::new();
    for i in 0..parts.len()
        invariant
            res@.len() == i,
            forall|k: int| 0 <= k < i ==> #[trigger] res@[k]@ == parts@[k]@,
    {
        res.push(String::from_str(parts[i]));
    }
    assert(strings_view(res@) =~= parts@.map_values(|s: &str| s@));
    res
}

fn copy_strings(v: &Vec<String>) -> (res: Vec<String>)
    ensures
        strings_view(res@) == strings_view(v@),
{
    let mut res: Vec<String> = Vec::new();
    for i in 0..v.len()
        invariant
            res@.len() == i,
            forall|k: int| 0 <= k < i ==> #[trigger] res@[k]@ == v@[k]@,
    {
        res.push(v[i].clone());
    }
    assert(strings_view(res@) =~= strings_view(v@));
    res
}

fn copy_command(c: &CommandLine) -> (res: CommandLine)
    ensures
        res@ == c@,
{
    CommandLine { program: c.program.clone(), args: copy_strings(&c.args) }
}

/// The notes followed by the plan's closing messages.
fn success_messages(notes: &Vec<String>, done: &Vec<String>) -> (messages: Vec<String>)
    ensures
        strings_view(messages@) == strings_view(notes@) + strings_view(done@),
{
    let mut messages = copy_strings(notes);
    let ghost before = messages@;
    let mut i: usize = 0;
    while i < done.len()
        invariant
            i <= done.len(),
            messages@.len() == before.len() + i,
            forall|k: int| 0 <= k < before.len() ==> #[trigger] messages@[k]@ == before[k]@,
            forall|k: int|
                0 <= k < i ==> #[trigger] messages@[before.len() + k]@ == done@[k]@,
        decreases done.len() - i,
    {
        messages.push(done[i].clone());
        i = i + 1;
    }
    proof {
        assert(strings_view(before) == strings_view(notes@));
        assert(strings_view(messages@) =~= strings_view(before) + strings_view(done@)) by {
            assert forall|k: int| 0 <= k < messages@.len() implies strings_view(messages@)[k]
                == (strings_view(before) + strings_view(done@))[k] by {
                if k >= before.len() {
                    let j = k - before.len();
                    assert(messages@[before.len() + j]@ == done@[j]@);
                }
            }
        }
    }
    messages
}

/// The action that starts step `pc`, or the end of the run.
fn issue_at(plan: &Plan, pc: usize, notes: &Vec<String>) -> (action: Action)
    ensures
        action@ == issue(plan@, pc as int, strings_view(notes@)),
{
    if pc >= plan.steps.len() {
        let messages = success_messages(notes, &plan.done_messages);
        return Action::Finish(Outcome { result: Ok(String::new()), messages });
    }
    assert(plan@.steps[pc as int] == plan.steps@[pc as int]@);
    assert(strings_view(Seq::<String>::empty()) =~= Seq::empty());
    match &plan.steps[pc] {
        Step::MakeDirs(p) => Action::MakeDirs(p.clone()),
        Step::WriteFile { path, contents, .. } => Action::WriteFile {
            path: path.clone(),
            contents: contents.clone(),
        },
        Step::MakeExecutable(p) => Action::MakeExecutable(p.clone()),
        Step::Run { command, .. } => Action::Run(copy_command(command)),
        Step::IfExists { path, .. } => Action::CheckExists(path.clone()),
        Step::Remove(p) => Action::Remove(p.clone()),
        Step::Fail(m) => Action::Finish(Outcome { result: Err(m.clone()), messages: Vec::new() }),
    }
}


/// The executable counterpart of `Reaction`.
#[derive(Debug, PartialEq, Eq)]
pub enum StepReaction {
    Continue,
    SkipNext,
    Note(String),
    Finish(Result<String, String>),
    Absent(String),
}

pub open spec fn reaction_view(r: StepReaction) -> Reaction {
    match r {
        StepReaction::Continue => Reaction::Continue,
        StepReaction::SkipNext => Reaction::SkipNext,
        StepReaction::Note(m) => Reaction::Note(m@),
        StepReaction::Finish(Ok(v)) => Reaction::Finish(Ok(v@)),
        StepReaction::Finish(Err(e)) => Reaction::Finish(Err(e@)),
        StepReaction::Absent(m) => Reaction::Absent(m@),
    }
}

fn join(a: &String, b: &String) -> (res: String)
    ensures
        res@ == a@ + b@,
{
    a.clone().concat(b.as_str())
}

/// How `step` reacts to `event`.
pub fn reaction(step: &Step, event: &Event) -> (r: StepReaction)
    ensures
        reaction_view(r) == react(step@, event@),
{
    match (step, event) {
        (Step::WriteFile { err_prefix, .. }, Event::Wrote(Err(e))) => StepReaction::Finish(
            Err(join(err_prefix, e)),
        ),
        (Step::MakeExecutable(_), Event::Wrote(Err(e))) => StepReaction::Finish(Err(e.clone())),
        (Step::Run { on_error, .. }, Event::Ran(Err(e))) => match on_error {
            OnExecError::Ignore => StepReaction::Continue,
            OnExecError::Fail(p) => StepReaction::Finish(Err(join(p, e))),
        },
        (Step::Run { on_status, .. }, Event::Ran(Ok(out))) => match on_status {
            OnStatus::Ignore => StepReaction::Continue,
            OnStatus::FailWithStderr(p) => if out.success {
                StepReaction::Continue
            } else {
                StepReaction::Finish(Err(join(p, &out.stderr)))
            },
            OnStatus::Report { active, inactive } => if out.success {
                StepReaction::Finish(Ok(join(active, &out.stdout)))
            } else {
                match inactive {
                    Inactive::WithOutput(h) => StepReaction::Finish(
                        Ok(join(&join(h, &out.stdout), &out.stderr)),
                    ),
                    Inactive::Fixed(t) => StepReaction::Finish(Ok(t.clone())),
                }
            },
            OnStatus::SkipNextOnSuccess => if out.success {
                StepReaction::SkipNext
            } else {
                StepReaction::Continue
            },
            OnStatus::Announce { ok, failed } => if out.success {
                StepReaction::Note(ok.clone())
            } else {
                StepReaction::Note(failed.clone())
            },
        },
        (Step::IfExists { absent, .. }, Event::Exists(false)) => StepReaction::Absent(
            absent.clone(),
        ),
        (Step::Remove(_), Event::Removed(Err(e))) => StepReaction::Finish(Err(e.clone())),
        _ => StepReaction::Continue,
    }
}

impl ServiceRun {
    /// Whether `event` is an outcome the run can take now, as `resume` asks.
    pub fn accepts_event(&self, event: &Event) -> (b: bool)
        ensures
            b == self.accepts(event@),
    {
        if self.finished || self.pc >= self.plan.steps.len() {
            return false;
        }
        assert(self.plan@.steps[self.pc as int] == self.plan.steps@[self.pc as int]@);
        match (&self.plan.steps[self.pc], event) {
            (Step::MakeDirs(_), Event::DirsMade) => true,
            (Step::WriteFile { .. }, Event::Wrote(_)) => true,
            (Step::MakeExecutable(_), Event::Wrote(_)) => true,
            (Step::Run { .. }, Event::Ran(_)) => true,
            (Step::IfExists { .. }, Event::Exists(_)) => true,
            (Step::Remove(_), Event::Removed(_)) => true,
            _ => false,
        }
    }

    /// Starts carrying out `plan`: the run and its first action.
    pub fn begin(plan: Plan) -> (res: (ServiceRun, Action))
        ensures
            res.0.plan@ == plan@,
            res.0.pc == 0,
            res.0.notes@.len() == 0,
            res.1@ == issue(plan@, 0, Seq::empty()),
            res.0.finished == (res.1@ is Finish),
            !res.0.finished ==> res.0.accepts_some_event(),
    {
        let notes: Vec<String> = Vec::new();
        assert(strings_view(notes@) =~= Seq::empty());
        let action = issue_at(&plan, 0, &notes);
        let finished = match &action {
            Action::Finish(_) => true,
            _ => false,
        };
        (ServiceRun { plan, pc: 0, notes, finished }, action)
    }

    /// Takes the outcome of the outstanding action and hands out the next one.
    /// Every call either ends the run or moves it past at least one step, so a
    /// run hands out at most one action per step and a final one.
    pub fn resume(&mut self, event: Event) -> (action: Action)
        requires
            old(self).accepts(event@),
        ensures
            final(self).plan@ == old(self).plan@,
            final(self).finished == (action@ is Finish),
            final(self).finished || final(self).pc > old(self).pc,
            final(self).pc <= final(self).plan@.steps.len(),
            !final(self).finished ==> final(self).accepts_some_event(),
            ({
                let plan = old(self).plan@;
                let pc = old(self).pc as int;
                let notes = old(self).notes_view();
                match react(old(self).current(), event@) {
                    Reaction::Continue => {
                        &&& final(self).pc == pc + 1
                        &&& final(self).notes_view() == notes
                        &&& action@ == issue(plan, pc + 1, notes)
                    },
                    Reaction::SkipNext => {
                        &&& final(self).pc == (if pc + 2 <= plan.steps.len() {
                            pc + 2
                        } else {
                            plan.steps.len() as int
                        })
                        &&& final(self).notes_view() == notes
                        &&& action@ == issue(plan, pc + 2, notes)
                    },
                    Reaction::Note(m) => {
                        &&& final(self).pc == pc + 1
                        &&& final(self).notes_view() == notes.push(m)
                        &&& action@ == issue(plan, pc + 1, notes.push(m))
                    },
                    Reaction::Finish(Ok(v)) => action@ == ActionView::Finish {
                        result: Ok(v),
                        messages: notes + plan.done_messages,
                    },
                    Reaction::Finish(Err(e)) => action@ == ActionView::Finish {
                        result: Err(e),
                        messages: Seq::empty(),
                    },
                    Reaction::Absent(m) => action@ == ActionView::Finish {
                        result: Ok(Seq::empty()),
                        messages: notes.push(m),
                    },
                }
            }),
    {
        assert(self.plan@.steps[self.pc as int] == self.plan.steps@[self.pc as int]@);
        let pc = self.pc;
        let n = self.plan.steps.len();
        assert(pc < n);
        let r = reaction(&self.plan.steps[self.pc], &event);
        let action = match r {
            StepReaction::Continue => {
                self.pc = pc + 1;
                issue_at(&self.plan, self.pc, &self.notes)
            },
            StepReaction::SkipNext => {
                self.pc = pc + 1;
                if self.pc < self.plan.steps.len() {
                    self.pc = self.pc + 1;
                }
                issue_at(&self.plan, self.pc, &self.notes)
            },
            StepReaction::Note(m) => {
                self.notes.push(m);
                proof {
                    assert(strings_view(self.notes@) =~= old(self).notes_view().push(m@));
                }
                self.pc = pc + 1;
                issue_at(&self.plan, self.pc, &self.notes)
            },
            StepReaction::Finish(Ok(v)) => {
                let messages = success_messages(&self.notes, &self.plan.done_messages);
                Action::Finish(Outcome { result: Ok(v), messages })
            },
            StepReaction::Finish(Err(e)) => {
                assert(strings_view(Seq::<String>::empty()) =~= Seq::empty());
                Action::Finish(Outcome { result: Err(e), messages: Vec::new() })
            },
            StepReaction::Absent(m) => {
                let mut messages = copy_strings(&self.notes);
                messages.push(m);
                proof {
                    assert(strings_view(messages@) =~= old(self).notes_view().push(m@));
                }
                Action::Finish(Outcome { result: Ok(String::new()), messages })
            },
        };
        self.finished = match &action {
            Action::Finish(_) => true,
            _ => false,
        };
        action
    }
}

} // verus!
