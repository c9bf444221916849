//! Playbooks, batches of playbooks, and the decisions that run a batch.
//!
//! Running a batch alternates outside work (writing a playbook to a new file,
//! running `ansible-playbook`) with decisions. A [`PlaybookRun`] holds the
//! decisions: it says what to do next, the caller does it and reports back
//! with a [`BatchEvent`], until the run says it is finished.
use vstd::prelude::*;

use crate::ansible::{inventory_args, push_arg, push_common_arguments_for_playbooks, verbosity_args};
use crate::settings::{opt_view, ClusterSettings};

verus! {

/// The text of one playbook.
#[derive(Debug)]
pub struct AnsiblePlaybook {
    file_contents: String,
}

impl View for AnsiblePlaybook {
    type V = Seq<char>;

    closed spec fn view(&self) -> Seq<char> {
        self.file_contents@
    }
}

impl AnsiblePlaybook {
    /// A playbook with the text `file_contents`.
    pub fn load(file_contents: &str) -> (r: AnsiblePlaybook)
        ensures
            r@ == file_contents@,
    {
        AnsiblePlaybook { file_contents: String::from_str(file_contents) }
    }

    /// The text of the playbook.
    pub fn contents(&self) -> (r: &str)
        ensures
            r@ == self@,
    {
        self.file_contents.as_str()
    }
}

/// Playbooks to be run together, in the order they were added.
#[derive(Debug)]
pub struct AnsibleAggregatePlaybook {
    playbooks: Vec<AnsiblePlaybook>,
}

impl View for AnsibleAggregatePlaybook {
    type V = Seq<Seq<char>>;

    closed spec fn view(&self) -> Seq<Seq<char>> {
        Seq::new(self.playbooks@.len(), |i: int| self.playbooks@[i]@)
    }
}

impl AnsibleAggregatePlaybook {
    /// An empty batch.
    pub fn new() -> (r: AnsibleAggregatePlaybook)
        ensures
            r@ == Seq::<Seq<char>>::empty(),
    {
        let r = AnsibleAggregatePlaybook { playbooks: Vec::new() };
        assert(r@ =~= Seq::<Seq<char>>::empty());
        r
    }

    /// Adds `playbook` after those already in the batch.
    pub fn add_playbook(&mut self, playbook: AnsiblePlaybook)
        ensures
            final(self)@ == old(self)@.push(playbook@),
    {
        self.playbooks.push(playbook);
        assert(self@ =~= old(self)@.push(playbook@));
    }

    /// Number of playbooks in the batch.
    pub fn len(&self) -> (r: usize)
        ensures
            r == self@.len(),
    {
        self.playbooks.len()
    }

    /// The texts of the playbooks, in order.
    pub fn contents(&self) -> (r: Vec<String>)
        ensures
            r.deep_view() == self@,
    {
        let mut out: Vec<String> = Vec::new();
        let mut i: usize = 0;
        while i < self.playbooks.len()
            invariant
                i <= self.playbooks@.len(),
                out.deep_view() == self@.subrange(0, i as int),
            decreases self.playbooks@.len() - i,
        {
            push_arg(&mut out, String::from_str(self.playbooks[i].contents()));
            i = i + 1;
            assert(out.deep_view() =~= self@.subrange(0, i as int));
        }
        assert(self@.subrange(0, i as int) =~= self@);
        out
    }
}

/// How the playbooks of a batch are run.
#[derive(PartialEq, Eq, Structural, Clone, Copy, Debug)]
pub enum BatchShape {
    /// Every playbook is written out first, then one run takes all of them.
    Combined,
    /// Each playbook is written out and run on its own, in order, and the
    /// first failure ends the batch.
    Sequential,
}

/// Where a run of a batch stands.
#[derive(PartialEq, Eq, Structural, Clone, Copy, Debug)]
pub enum Phase {
    /// Waiting for the path of the next playbook written out.
    Materializing,
    /// Waiting for the outcome of a run of `ansible-playbook`.
    Running,
    /// Over, with the outcome of the batch.
    Done(bool),
}

/// What the caller reports back.
#[derive(Debug)]
pub enum BatchEvent {
    /// The playbook asked for was written to the file at this path.
    Materialized(String),
    /// The run asked for has exited, successfully or not.
    Exited(bool),
}

/// An event as the contracts see it.
pub enum EventView {
    Materialized(Seq<char>),
    Exited(bool),
}

impl View for BatchEvent {
    type V = EventView;

    open spec fn view(&self) -> EventView {
        match self {
            BatchEvent::Materialized(p) => EventView::Materialized(p@),
            BatchEvent::Exited(ok) => EventView::Exited(*ok),
        }
    }
}

/// What the caller is asked to do next.
#[derive(Debug, PartialEq, Eq)]
pub enum BatchStep {
    /// Write `contents` to a new, uniquely named file and report its path.
    Materialize { index: usize, contents: String },
    /// Run `ansible-playbook` with `arguments` and report whether it succeeded.
    Invoke { arguments: Vec<String> },
    /// Nothing is left to do; `success` is the outcome of the batch.
    Finished { success: bool },
}

/// A step as the contracts see it.
pub enum StepView {
    Materialize { index: nat, contents: Seq<char> },
    Invoke { arguments: Seq<Seq<char>> },
    Finished { success: bool },
}

impl View for BatchStep {
    type V = StepView;

    open spec fn view(&self) -> StepView {
        match self {
            BatchStep::Materialize { index, contents } => StepView::Materialize {
                index: *index as nat,
                contents: contents@,
            },
            BatchStep::Invoke { arguments } => StepView::Invoke { arguments: arguments.deep_view() },
            BatchStep::Finished { success } => StepView::Finished { success: *success },
        }
    }
}

/// A run of a batch as the contracts see it.
pub struct RunView {
    pub shape: BatchShape,
    /// Texts of the playbooks, in order.
    pub units: Seq<Seq<char>>,
    /// Arguments that every run of `ansible-playbook` starts with.
    pub base: Seq<Seq<char>>,
    /// Number of playbooks written out so far.
    pub next: nat,
    /// Paths written out and not yet run.
    pub paths: Seq<Seq<char>>,
    pub phase: Phase,
}

/// The arguments that every run of `ansible-playbook` starts with: verbosity
/// flag, the request for elevated privileges, inventory.
pub open spec fn playbook_base_arguments(verbose: u64, inventory: Option<Seq<char>>) -> Seq<
    Seq<char>,
> {
    verbosity_args(verbose) + seq!["-K"@] + inventory_args(inventory)
}

/// The run of a batch before anything was done.
pub open spec fn start_state(shape: BatchShape, units: Seq<Seq<char>>, base: Seq<Seq<char>>) -> RunView {
    RunView {
        shape,
        units,
        base,
        next: 0,
        paths: Seq::empty(),
        phase: if units.len() > 0 {
            Phase::Materializing
        } else if shape == BatchShape::Combined {
            Phase::Running
        } else {
            Phase::Done(true)
        },
    }
}

/// The run after event `e`. An event that the run does not wait for leaves
/// it as it is.
pub open spec fn advance_state(s: RunView, e: EventView) -> RunView {
    match (s.phase, e) {
        (Phase::Materializing, EventView::Materialized(p)) => {
            let next = s.next + 1;
            RunView {
                next,
                paths: s.paths.push(p),
                phase: if s.shape == BatchShape::Combined && next < s.units.len() {
                    Phase::Materializing
                } else {
                    Phase::Running
                },
                ..s
            }
        },
        (Phase::Running, EventView::Exited(ok)) => {
            if s.shape == BatchShape::Combined || !ok {
                RunView { phase: Phase::Done(ok), ..s }
            } else if s.next < s.units.len() {
                RunView { paths: Seq::empty(), phase: Phase::Materializing, ..s }
            } else {
                RunView { phase: Phase::Done(true), ..s }
            }
        },
        _ => s,
    }
}

/// The run after the events `es`, in order.
pub open spec fn drive(s: RunView, es: Seq<EventView>) -> RunView
    decreases es.len(),
{
    if es.len() == 0 {
        s
    } else {
        advance_state(drive(s, es.drop_last()), es.last())
    }
}

/// What a run in state `s` asks the caller to do.
pub open spec fn pending(s: RunView) -> StepView {
    match s.phase {
        Phase::Materializing => StepView::Materialize { index: s.next, contents: s.units[s.next as int] },
        Phase::Running => StepView::Invoke { arguments: s.base + s.paths },
        Phase::Done(ok) => StepView::Finished { success: ok },
    }
}

/// The run is in a state it can reach.
pub open spec fn run_wf(s: RunView) -> bool {
    &&& s.next <= s.units.len()
    &&& s.phase == Phase::Materializing ==> s.next < s.units.len()
}

/// The events that report the paths `ps`, in order.
pub open spec fn materialized_events(ps: Seq<Seq<char>>) -> Seq<EventView> {
    Seq::new(ps.len(), |i: int| EventView::Materialized(ps[i]))
}

/// A finished run stays finished, whatever is reported afterwards.
pub proof fn lemma_finished_is_final(s: RunView, es: Seq<EventView>)
    requires
        s.phase is Done,
    ensures
        drive(s, es) == s,
    decreases es.len(),
{
    if es.len() > 0 {
        lemma_finished_is_final(s, es.drop_last());
    }
}

/// In a sequential run, when the first playbook fails, the run ends with that
/// failure: no later playbook is written out or run, whatever is reported
/// afterwards.
pub proof fn lemma_sequential_stops_at_first_failure(
    units: Seq<Seq<char>>,
    base: Seq<Seq<char>>,
    first_path: Seq<char>,
    later: Seq<EventView>,
)
    requires
        units.len() >= 1,
    ensures
        ({
            let s0 = start_state(BatchShape::Sequential, units, base);
            let s1 = advance_state(s0, EventView::Materialized(first_path));
            let s2 = advance_state(s1, EventView::Exited(false));
            &&& pending(s0) == (StepView::Materialize { index: 0, contents: units[0] })
            &&& pending(s1) == (StepView::Invoke { arguments: base + seq![first_path] })
            &&& pending(drive(s2, later)) == (StepView::Finished { success: false })
        }),
{
    let s0 = start_state(BatchShape::Sequential, units, base);
    let s1 = advance_state(s0, EventView::Materialized(first_path));
    let s2 = advance_state(s1, EventView::Exited(false));
    assert(Seq::<Seq<char>>::empty().push(first_path) =~= seq![first_path]);
    lemma_finished_is_final(s2, later);
}

/// The state of a combined run after the first `i` paths were reported.
proof fn lemma_combined_after_paths(
    units: Seq<Seq<char>>,
    base: Seq<Seq<char>>,
    ps: Seq<Seq<char>>,
    i: int,
)
    requires
        ps.len() == units.len(),
        0 <= i <= ps.len(),
    ensures
        drive(
            start_state(BatchShape::Combined, units, base),
            materialized_events(ps.subrange(0, i)),
        ) == (RunView {
            shape: BatchShape::Combined,
            units,
            base,
            next: i as nat,
            paths: ps.subrange(0, i),
            phase: if i < ps.len() {
                Phase::Materializing
            } else {
                Phase::Running
            },
        }),
    decreases i,
{
    let s0 = start_state(BatchShape::Combined, units, base);
    if i == 0 {
        assert(materialized_events(ps.subrange(0, 0)) =~= Seq::<EventView>::empty());
        assert(ps.subrange(0, 0) =~= Seq::<Seq<char>>::empty());
    } else {
        lemma_combined_after_paths(units, base, ps, i - 1);
        let es = materialized_events(ps.subrange(0, i));
        assert(es.drop_last() =~= materialized_events(ps.subrange(0, i - 1)));
        assert(es.last() == EventView::Materialized(ps[i - 1]));
        assert(ps.subrange(0, i - 1).push(ps[i - 1]) =~= ps.subrange(0, i));
    }
}

/// A combined run of `n` playbooks asks for them to be written out one after
/// the other, then for exactly one run of `ansible-playbook` with all `n`
/// paths in the order of the batch, and the outcome of that run is the
/// outcome of the batch.
pub proof fn lemma_combined_runs_once(
    units: Seq<Seq<char>>,
    base: Seq<Seq<char>>,
    ps: Seq<Seq<char>>,
    ok: bool,
    later: Seq<EventView>,
)
    requires
        ps.len() == units.len(),
    ensures
        ({
            let s0 = start_state(BatchShape::Combined, units, base);
            let ready = drive(s0, materialized_events(ps));
            &&& forall|i: int|
                0 <= i < ps.len() ==> pending(
                    #[trigger] drive(s0, materialized_events(ps.subrange(0, i))),
                ) == (StepView::Materialize { index: i as nat, contents: units[i] })
            &&& pending(ready) == (StepView::Invoke { arguments: base + ps })
            &&& pending(drive(advance_state(ready, EventView::Exited(ok)), later)) == (
            StepView::Finished { success: ok })
        }),
{
    let s0 = start_state(BatchShape::Combined, units, base);
    assert forall|i: int| 0 <= i < ps.len() implies pending(
        #[trigger] drive(s0, materialized_events(ps.subrange(0, i))),
    ) == (StepView::Materialize { index: i as nat, contents: units[i] }) by {
        lemma_combined_after_paths(units, base, ps, i);
    }
    lemma_combined_after_paths(units, base, ps, ps.len() as int);
    assert(ps.subrange(0, ps.len() as int) =~= ps);
    let ready = drive(s0, materialized_events(ps));
    lemma_finished_is_final(advance_state(ready, EventView::Exited(ok)), later);
}

/// The decisions of one run of a batch of playbooks.
#[derive(Debug)]
pub struct PlaybookRun {
    shape: BatchShape,
    units: Vec<String>,
    base: Vec<String>,
    next: usize,
    paths: Vec<String>,
    phase: Phase,
}

impl View for PlaybookRun {
    type V = RunView;

    closed spec fn view(&self) -> RunView {
        RunView {
            shape: self.shape,
            units: self.units.deep_view(),
            base: self.base.deep_view(),
            next: self.next as nat,
            paths: self.paths.deep_view(),
            phase: self.phase,
        }
    }
}

/// `a` followed by `b`.
fn concat_args(a: &Vec<String>, b: &Vec<String>) -> (r: Vec<String>)
    ensures
        r.deep_view() == a.deep_view() + b.deep_view(),
{
    let mut out: Vec<String> = Vec::new();
    let mut i: usize = 0;
    while i < a.len()
        invariant
            i <= a@.len(),
            out.deep_view() == a.deep_view().subrange(0, i as int),
        decreases a@.len() - i,
    {
        push_arg(&mut out, a[i].clone());
        i = i + 1;
        assert(out.deep_view() =~= a.deep_view().subrange(0, i as int));
    }
    let mut j: usize = 0;
    while j < b.len()
        invariant
            j <= b@.len(),
            out.deep_view() == a.deep_view() + b.deep_view().subrange(0, j as int),
        decreases b@.len() - j,
    {
        push_arg(&mut out, b[j].clone());
        j = j + 1;
        assert(out.deep_view() =~= a.deep_view() + b.deep_view().subrange(0, j as int));
    }
    assert(b.deep_view().subrange(0, j as int) =~= b.deep_view());
    out
}

impl PlaybookRun {
    /// Starts a run of `batch` in the given shape, with the verbosity and the
    /// inventory of `settings`; returns the run and its first step.
    pub fn start(batch: &AnsibleAggregatePlaybook, settings: &ClusterSettings, shape: BatchShape)
        -> (r: (PlaybookRun, BatchStep))
        ensures
            r.0@ == start_state(
                shape,
                batch@,
                playbook_base_arguments(settings.verbose, opt_view(settings.inventory)),
            ),
            run_wf(r.0@),
            r.1@ == pending(r.0@),
    {
        let units = batch.contents();
        let mut base: Vec<String> = Vec::new();
        push_common_arguments_for_playbooks(&mut base, settings);
        assert(base.deep_view() =~= playbook_base_arguments(
            settings.verbose,
            opt_view(settings.inventory),
        ));
        let phase = if units.len() > 0 {
            Phase::Materializing
        } else if shape == BatchShape::Combined {
            Phase::Running
        } else {
            Phase::Done(true)
        };
        let run = PlaybookRun { shape, units, base, next: 0, paths: Vec::new(), phase };
        assert(run@.paths =~= Seq::<Seq<char>>::empty());
        let step = run.pending_step();
        (run, step)
    }

    /// What the run asks the caller to do now.
    pub fn pending_step(&self) -> (r: BatchStep)
        requires
            run_wf(self@),
        ensures
            r@ == pending(self@),
    {
        match self.phase {
            Phase::Materializing => BatchStep::Materialize {
                index: self.next,
                contents: self.units[self.next].clone(),
            },
            Phase::Running => BatchStep::Invoke { arguments: concat_args(&self.base, &self.paths) },
            Phase::Done(ok) => BatchStep::Finished { success: ok },
        }
    }

    /// Takes the caller's report of the last step into account and returns
    /// the next step.
    pub fn advance(&mut self, event: BatchEvent) -> (r: BatchStep)
        requires
            run_wf(old(self)@),
        ensures
            final(self)@ == advance_state(old(self)@, event@),
            run_wf(final(self)@),
            r@ == pending(final(self)@),
    {
        match event {
            BatchEvent::Materialized(p) => {
                let n = self.units.len();
                if self.phase == Phase::Materializing {
                    self.next = self.next + 1;
                    push_arg(&mut self.paths, p);
                    if self.shape == BatchShape::Combined && self.next < n {
                        self.phase = Phase::Materializing;
                    } else {
                        self.phase = Phase::Running;
                    }
                }
            },
            BatchEvent::Exited(ok) => {
                if self.phase == Phase::Running {
                    if self.shape == BatchShape::Combined || !ok {
                        self.phase = Phase::Done(ok);
                    } else if self.next < self.units.len() {
                        self.paths = Vec::new();
                        assert(self.paths.deep_view() =~= Seq::<Seq<char>>::empty());
                        self.phase = Phase::Materializing;
                    } else {
                        self.phase = Phase::Done(true);
                    }
                }
            },
        }
        self.pending_step()
    }

    /// The run is over.
    pub fn is_finished(&self) -> (r: bool)
        ensures
            r == (self@.phase is Done),
    {
        match self.phase {
            Phase::Done(_) => true,
            _ => false,
        }
    }
}

} // verus!
