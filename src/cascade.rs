//! The cascade that tries clipboard backends one after another.
//!
//! [`Cascade`] holds the decisions only. Its owner performs each [`Action`]
//! it asks for (a search-path lookup, running a writer or reader, the
//! in-process library) and hands back what happened as an [`Event`]; the
//! cascade then names the next action, until it asks to finish.
use vstd::prelude::*;

use crate::clipboard::{
    candidate_list, candidates, lemma_candidates_ordered, rank, reader_of, reader_tool,
    verify_non_empty, verify_spec, writer_of, writer_tool, Backend, Candidate,
    DisplayEnvironment, Platform, Tool, VerifyOutcome,
};

verus! {

/// Where the cascade stands on its current candidate.
#[derive(Clone, Copy, Debug, PartialEq, Eq, Structural)]
pub enum Stage {
    /// Looking up the backend's writer on the search path.
    CheckWriter,
    /// Running the writer with the text.
    Write,
    /// Looking up the backend's reader on the search path.
    CheckReader,
    /// Running the reader to see what the clipboard holds.
    Read,
    /// Setting the text through the in-process library.
    Library,
    Succeeded,
    Failed,
}

/// Why an attempt did not put the text on the clipboard.
#[derive(Debug)]
pub enum Failure {
    /// The writer could not be run, or exited unsuccessfully.
    WriteFailed(Backend, String),
    /// The writer reported success but the clipboard read back empty.
    VerifyFailed(Backend),
    /// The in-process library could not open the clipboard or set the text.
    Library(String),
}

/// What happened when the owner performed the last action.
#[derive(Debug)]
pub enum Event {
    /// Whether the tool asked about is on the search path.
    Available(bool),
    /// How the write went.
    WriteDone(Result<(), String>),
    /// How many bytes the reader printed, or `None` where it could not be run.
    ReadDone(Option<usize>),
}

/// What the cascade asks its owner to do next.
#[derive(Clone, Copy, Debug, PartialEq, Eq, Structural)]
pub enum Action {
    CheckTool(Tool),
    Write(Backend),
    ReadBack(Backend),
    WriteLibrary,
    /// The cascade is over: `true` where the text was placed.
    Finish(bool),
}

/// The error of a cascade in which every attempt failed.
#[derive(Debug)]
pub struct CascadeError {
    /// The most recent failure, which is the library's.
    pub last: Failure,
}

pub struct CascadeView {
    pub plan: Seq<Candidate>,
    pub pos: int,
    pub stage: Stage,
    pub last_error: Option<Failure>,
}

/// A cascade over a fixed plan of candidates.
pub struct Cascade {
    plan: Vec<Candidate>,
    pos: usize,
    stage: Stage,
    last_error: Option<Failure>,
}

impl View for Cascade {
    type V = CascadeView;

    closed spec fn view(&self) -> CascadeView {
        CascadeView {
            plan: self.plan@,
            pos: self.pos as int,
            stage: self.stage,
            last_error: self.last_error,
        }
    }
}

/// A plan ends with the library and holds only backends before it.
pub open spec fn wf_plan(plan: Seq<Candidate>) -> bool {
    &&& plan.len() > 0
    &&& plan.last() == Candidate::Library
    &&& forall|i: int| 0 <= i < plan.len() - 1 ==> #[trigger] plan[i] is Cli
}

pub open spec fn backend_at(v: CascadeView) -> Backend {
    v.plan[v.pos]->Cli_0
}

pub open spec fn well_formed(v: CascadeView) -> bool {
    &&& wf_plan(v.plan)
    &&& 0 <= v.pos < v.plan.len()
    &&& match v.stage {
        Stage::CheckWriter | Stage::Write => v.plan[v.pos] is Cli,
        Stage::CheckReader | Stage::Read => v.plan[v.pos] is Cli && reader_of(backend_at(v)) is Some,
        Stage::Library => v.plan[v.pos] is Library,
        Stage::Succeeded => true,
        Stage::Failed => v.last_error is Some && v.last_error->Some_0 is Library,
    }
}

/// The stage in which a candidate is first taken up.
pub open spec fn entry_stage(c: Candidate) -> Stage {
    match c {
        Candidate::Cli(_) => Stage::CheckWriter,
        Candidate::Library => Stage::Library,
    }
}

pub open spec fn with_stage(v: CascadeView, stage: Stage) -> CascadeView {
    CascadeView { plan: v.plan, pos: v.pos, stage, last_error: v.last_error }
}

/// Leaves the current candidate for the next one, keeping `last_error`.
pub open spec fn move_on(v: CascadeView, last_error: Option<Failure>) -> CascadeView {
    CascadeView {
        plan: v.plan,
        pos: v.pos + 1,
        stage: entry_stage(v.plan[v.pos + 1]),
        last_error,
    }
}

pub open spec fn finished(v: CascadeView) -> bool {
    v.stage == Stage::Succeeded || v.stage == Stage::Failed
}

/// How one event moves the cascade. An event that does not answer the
/// pending action leaves it as it is.
pub open spec fn next(v: CascadeView, e: Event) -> CascadeView {
    let b = backend_at(v);
    match v.stage {
        Stage::CheckWriter => match e {
            Event::Available(found) => if found {
                with_stage(v, Stage::Write)
            } else {
                move_on(v, v.last_error)
            },
            _ => v,
        },
        Stage::Write => match e {
            Event::WriteDone(Ok(_)) => if reader_of(b) is Some {
                with_stage(v, Stage::CheckReader)
            } else {
                with_stage(v, Stage::Succeeded)
            },
            Event::WriteDone(Err(m)) => move_on(v, Some(Failure::WriteFailed(b, m))),
            _ => v,
        },
        Stage::CheckReader => match e {
            Event::Available(found) => if found {
                with_stage(v, Stage::Read)
            } else {
                with_stage(v, Stage::Succeeded)
            },
            _ => v,
        },
        Stage::Read => match e {
            Event::ReadDone(captured) => if verify_spec(true, captured) == VerifyOutcome::Empty {
                move_on(v, Some(Failure::VerifyFailed(b)))
            } else {
                with_stage(v, Stage::Succeeded)
            },
            _ => v,
        },
        Stage::Library => match e {
            Event::WriteDone(Ok(_)) => with_stage(v, Stage::Succeeded),
            Event::WriteDone(Err(m)) => CascadeView {
                plan: v.plan,
                pos: v.pos,
                stage: Stage::Failed,
                last_error: Some(Failure::Library(m)),
            },
            _ => v,
        },
        Stage::Succeeded | Stage::Failed => v,
    }
}

/// The action that a cascade in a given state asks for.
pub open spec fn pending(v: CascadeView) -> Action {
    let b = backend_at(v);
    match v.stage {
        Stage::CheckWriter => Action::CheckTool(writer_of(b)),
        Stage::Write => Action::Write(b),
        Stage::CheckReader => Action::CheckTool(reader_of(b)->Some_0),
        Stage::Read => Action::ReadBack(b),
        Stage::Library => Action::WriteLibrary,
        Stage::Succeeded => Action::Finish(true),
        Stage::Failed => Action::Finish(false),
    }
}

/// The state after a sequence of events.
pub open spec fn run(v: CascadeView, events: Seq<Event>) -> CascadeView
    decreases events.len(),
{
    if events.len() == 0 {
        v
    } else {
        run(next(v, events[0]), events.drop_first())
    }
}

/// Leaving a backend keeps the cascade well formed: a backend is never the
/// last candidate.
pub proof fn lemma_move_on_well_formed(v: CascadeView, last_error: Option<Failure>)
    requires
        well_formed(v),
        v.plan[v.pos] is Cli,
    ensures
        well_formed(move_on(v, last_error)),
        move_on(v, last_error).pos == v.pos + 1,
        !finished(move_on(v, last_error)),
{
    assert(v.pos < v.plan.len() - 1);
}

/// Once a cascade has finished, no event moves it, so nothing more is
/// invoked.
pub proof fn lemma_finished_stays(v: CascadeView, events: Seq<Event>)
    requires
        finished(v),
    ensures
        run(v, events) == v,
    decreases events.len(),
{
    if events.len() > 0 {
        lemma_finished_stays(next(v, events[0]), events.drop_first());
    }
}

/// When the backend being taken up is found, its write succeeds and its
/// read-back, where it has one, shows content, the cascade succeeds on that
/// backend and invokes no later candidate, whatever follows.
pub proof fn lemma_first_verified_write_wins(v: CascadeView, n: usize, later: Seq<Event>)
    requires
        well_formed(v),
        v.stage == Stage::CheckWriter,
        n > 0,
    ensures
        ({
            let es = if reader_of(backend_at(v)) is Some {
                seq![
                    Event::Available(true),
                    Event::WriteDone(Ok(())),
                    Event::Available(true),
                    Event::ReadDone(Some(n)),
                ]
            } else {
                seq![Event::Available(true), Event::WriteDone(Ok(()))]
            };
            let w = run(v, es);
            &&& w.stage == Stage::Succeeded
            &&& w.pos == v.pos
            &&& run(w, later) == w
            &&& pending(run(w, later)) == Action::Finish(true)
        }),
{
    let e1 = Event::Available(true);
    let e2 = Event::WriteDone(Ok(()));
    let e3 = Event::Available(true);
    let e4 = Event::ReadDone(Some(n));
    let v1 = next(v, e1);
    let v2 = next(v1, e2);
    if reader_of(backend_at(v)) is Some {
        let es = seq![e1, e2, e3, e4];
        let v3 = next(v2, e3);
        let v4 = next(v3, e4);
        assert(es.drop_first() =~= seq![e2, e3, e4]);
        assert(es.drop_first().drop_first() =~= seq![e3, e4]);
        assert(es.drop_first().drop_first().drop_first() =~= seq![e4]);
        assert(es.drop_first().drop_first().drop_first().drop_first() =~= Seq::<Event>::empty());
        assert(run(v3, seq![e4]) == run(v4, Seq::<Event>::empty()));
        assert(run(v2, seq![e3, e4]) == run(v3, seq![e4]));
        assert(run(v1, seq![e2, e3, e4]) == run(v2, seq![e3, e4]));
        assert(run(v, es) == run(v1, seq![e2, e3, e4]));
        assert(run(v, es) == v4);
        lemma_finished_stays(v4, later);
    } else {
        let es = seq![e1, e2];
        assert(es.drop_first() =~= seq![e2]);
        assert(es.drop_first().drop_first() =~= Seq::<Event>::empty());
        assert(run(v1, seq![e2]) == run(v2, Seq::<Event>::empty()));
        assert(run(v, es) == run(v1, seq![e2]));
        assert(run(v, es) == v2);
        lemma_finished_stays(v2, later);
    }
}

/// A failed write does not end the cascade: the failure is recorded and the
/// next candidate is taken up.
pub proof fn lemma_write_failure_moves_on(v: CascadeView, m: String)
    requires
        well_formed(v),
        v.stage == Stage::Write,
    ensures
        ({
            let w = next(v, Event::WriteDone(Err(m)));
            &&& well_formed(w)
            &&& !finished(w)
            &&& w.pos == v.pos + 1
            &&& w.stage == entry_stage(v.plan[v.pos + 1])
            &&& w.last_error == Some(Failure::WriteFailed(backend_at(v), m))
        }),
{
    lemma_move_on_well_formed(v, Some(Failure::WriteFailed(backend_at(v), m)));
}

/// A write whose read-back comes out empty is not taken as success: the
/// cascade records it and takes up the next candidate.
pub proof fn lemma_empty_read_back_moves_on(v: CascadeView)
    requires
        well_formed(v),
        v.stage == Stage::Read,
    ensures
        ({
            let w = next(v, Event::ReadDone(Some(0)));
            &&& well_formed(w)
            &&& !finished(w)
            &&& w.pos == v.pos + 1
            &&& w.stage == entry_stage(v.plan[v.pos + 1])
            &&& w.last_error == Some(Failure::VerifyFailed(backend_at(v)))
        }),
{
    lemma_move_on_well_formed(v, Some(Failure::VerifyFailed(backend_at(v))));
}

/// A read-back that cannot be made, because the reader is missing or could
/// not be run, is inconclusive, and the write it follows is accepted.
pub proof fn lemma_inconclusive_read_back_accepts(v: CascadeView, captured: Option<usize>)
    requires
        well_formed(v),
    ensures
        verify_spec(false, captured) == VerifyOutcome::Inconclusive,
        verify_spec(true, None) == VerifyOutcome::Inconclusive,
        v.stage == Stage::CheckReader ==> next(v, Event::Available(false)).stage
            == Stage::Succeeded,
        v.stage == Stage::Read ==> next(v, Event::ReadDone(None)).stage == Stage::Succeeded,
{
}

/// When the library, the last candidate, fails as well, the cascade fails
/// and reports that failure, the most recent one.
pub proof fn lemma_library_failure_fails(v: CascadeView, m: String)
    requires
        well_formed(v),
        v.stage == Stage::Library,
    ensures
        ({
            let w = next(v, Event::WriteDone(Err(m)));
            &&& well_formed(w)
            &&& w.stage == Stage::Failed
            &&& w.last_error == Some(Failure::Library(m))
            &&& pending(w) == Action::Finish(false)
        }),
{
}

/// Whether an event answers the pending action without placing the text: a
/// writer looked up (found or not), a failed write, a reader found, an empty
/// read-back, or a failed library write.
pub open spec fn setback(v: CascadeView, e: Event) -> bool {
    match v.stage {
        Stage::CheckWriter => e is Available,
        Stage::Write | Stage::Library => e is WriteDone && e->WriteDone_0 is Err,
        Stage::CheckReader => e == Event::Available(true),
        Stage::Read => e == Event::ReadDone(Some(0)),
        Stage::Succeeded | Stage::Failed => false,
    }
}

pub open spec fn stage_rank(s: Stage) -> int {
    match s {
        Stage::Write => 1,
        Stage::CheckReader => 2,
        Stage::Read => 3,
        _ => 0,
    }
}

/// An upper bound on the events a cascade still takes to finish.
pub open spec fn steps_left(v: CascadeView) -> int {
    if finished(v) {
        0
    } else {
        4 * (v.plan.len() - v.pos) - stage_rank(v.stage)
    }
}

proof fn lemma_setback_step(v: CascadeView, e: Event)
    requires
        well_formed(v),
        setback(v, e),
    ensures
        well_formed(next(v, e)),
        next(v, e).stage != Stage::Succeeded,
        steps_left(next(v, e)) < steps_left(v),
        finished(next(v, e)) ==> next(v, e).stage == Stage::Failed,
{
    if v.plan[v.pos] is Cli {
        assert(v.pos < v.plan.len() - 1);
    }
}

proof fn lemma_run_take_step(v: CascadeView, es: Seq<Event>, i: int)
    requires
        0 <= i < es.len(),
    ensures
        run(v, es.take(i + 1)) == run(next(v, es[0]), es.drop_first().take(i)),
{
    assert(es.take(i + 1).drop_first() =~= es.drop_first().take(i));
}

/// A cascade that meets only setbacks never succeeds, and once it has met
/// as many as it has steps left it has failed, on the library's error: so
/// where every backend is skipped or fails and the library fails as well,
/// the cascade reports that last failure.
pub proof fn lemma_setbacks_fail(v: CascadeView, es: Seq<Event>)
    requires
        well_formed(v),
        forall|i: int|
            0 <= i < es.len() && !finished(run(v, es.take(i))) ==> setback(
                #[trigger] run(v, es.take(i)),
                es[i],
            ),
    ensures
        well_formed(run(v, es)),
        run(v, es).stage != Stage::Succeeded || v.stage == Stage::Succeeded,
        es.len() >= steps_left(v) && v.stage != Stage::Succeeded ==> run(v, es).stage
            == Stage::Failed,
        run(v, es).stage == Stage::Failed ==> run(v, es).last_error is Some
            && run(v, es).last_error->Some_0 is Library,
    decreases es.len(),
{
    if es.len() == 0 {
        if v.stage != Stage::Succeeded && v.stage != Stage::Failed {
            if v.plan[v.pos] is Cli {
                assert(v.pos < v.plan.len() - 1);
            }
        }
    } else if finished(v) {
        lemma_finished_stays(v, es);
    } else {
        assert(es.take(0) =~= Seq::<Event>::empty());
        assert(run(v, es.take(0)) == v);
        assert(setback(run(v, es.take(0)), es[0]));
        let v1 = next(v, es[0]);
        lemma_setback_step(v, es[0]);
        let rest = es.drop_first();
        assert forall|i: int|
            0 <= i < rest.len() && !finished(run(v1, rest.take(i))) implies setback(
            #[trigger] run(v1, rest.take(i)),
            rest[i],
        ) by {
            lemma_run_take_step(v, es, i);
            assert(run(v, es.take(i + 1)) == run(v1, rest.take(i)));
            assert(rest[i] == es[i + 1]);
        }
        lemma_setbacks_fail(v1, rest);
        assert(run(v, es) == run(v1, rest));
    }
}

impl Cascade {
    pub open spec fn wf(&self) -> bool {
        well_formed(self@)
    }

    /// A cascade over the candidates of a session, at its first candidate.
    pub fn new(env: DisplayEnvironment, platform: Platform) -> (r: Cascade)
        ensures
            r.wf(),
            r@.plan == candidate_list(env, platform),
            r@.pos == 0,
            r@.stage == entry_stage(r@.plan[0]),
            r@.last_error is None,
    {
        let plan = candidates(env, platform);
        proof {
            lemma_candidates_ordered(env, platform);
            let l = plan@;
            assert forall|i: int| 0 <= i < l.len() - 1 implies #[trigger] l[i] is Cli by {
                assert(rank(l[i]) < rank(l[l.len() - 1]));
            }
        }
        let stage = match plan[0] {
            Candidate::Cli(_) => Stage::CheckWriter,
            Candidate::Library => Stage::Library,
        };
        Cascade { plan, pos: 0, stage, last_error: None }
    }

    fn current_backend(&self) -> (r: Backend)
        requires
            self.wf(),
            self@.plan[self@.pos] is Cli,
        ensures
            r == backend_at(self@),
    {
        match self.plan[self.pos] {
            Candidate::Cli(b) => b,
            Candidate::Library => Backend::WlCopy,
        }
    }

    /// Takes up the next candidate.
    fn advance(&mut self)
        requires
            old(self).wf(),
            old(self)@.plan[old(self)@.pos] is Cli,
        ensures
            final(self)@ == move_on(old(self)@, old(self)@.last_error),
            final(self).wf(),
    {
        let ghost v = self@;
        let len = self.plan.len();
        assert(v.pos < v.plan.len() - 1);
        assert(self.pos + 1 < len);
        self.pos = self.pos + 1;
        self.stage = match self.plan[self.pos] {
            Candidate::Cli(_) => Stage::CheckWriter,
            Candidate::Library => Stage::Library,
        };
    }

    /// What the cascade asks for now.
    pub fn action(&self) -> (r: Action)
        requires
            self.wf(),
        ensures
            r == pending(self@),
    {
        match self.stage {
            Stage::CheckWriter => Action::CheckTool(writer_tool(self.current_backend())),
            Stage::Write => Action::Write(self.current_backend()),
            Stage::CheckReader => {
                let b = self.current_backend();
                match reader_tool(b) {
                    Some(t) => Action::CheckTool(t),
                    None => Action::Finish(true),
                }
            },
            Stage::Read => Action::ReadBack(self.current_backend()),
            Stage::Library => Action::WriteLibrary,
            Stage::Succeeded => Action::Finish(true),
            Stage::Failed => Action::Finish(false),
        }
    }

    /// Takes in what happened and returns the next action.
    pub fn step(&mut self, event: Event) -> (r: Action)
        requires
            old(self).wf(),
        ensures
            final(self).wf(),
            final(self)@ == next(old(self)@, event),
            r == pending(final(self)@),
    {
        match self.stage {
            Stage::CheckWriter => {
                if let Event::Available(found) = event {
                    if found {
                        self.stage = Stage::Write;
                    } else {
                        self.advance();
                    }
                }
            },
            Stage::Write => {
                let b = self.current_backend();
                match event {
                    Event::WriteDone(Ok(())) => {
                        if reader_tool(b).is_some() {
                            self.stage = Stage::CheckReader;
                        } else {
                            self.stage = Stage::Succeeded;
                        }
                    },
                    Event::WriteDone(Err(m)) => {
                        self.last_error = Some(Failure::WriteFailed(b, m));
                        self.advance();
                    },
                    _ => {},
                }
            },
            Stage::CheckReader => {
                if let Event::Available(found) = event {
                    if found {
                        self.stage = Stage::Read;
                    } else {
                        self.stage = Stage::Succeeded;
                    }
                }
            },
            Stage::Read => {
                let b = self.current_backend();
                if let Event::ReadDone(captured) = event {
                    if verify_non_empty(true, captured) == VerifyOutcome::Empty {
                        self.last_error = Some(Failure::VerifyFailed(b));
                        self.advance();
                    } else {
                        self.stage = Stage::Succeeded;
                    }
                }
            },
            Stage::Library => {
                match event {
                    Event::WriteDone(Ok(())) => {
                        self.stage = Stage::Succeeded;
                    },
                    Event::WriteDone(Err(m)) => {
                        self.last_error = Some(Failure::Library(m));
                        self.stage = Stage::Failed;
                    },
                    _ => {},
                }
            },
            Stage::Succeeded | Stage::Failed => {},
        }
        self.action()
    }

    /// The result of a finished cascade: `Ok` where the text was placed,
    /// otherwise the last failure; `None` while it still runs.
    pub fn outcome(self) -> (r: Option<Result<(), CascadeError>>)
        requires
            self.wf(),
        ensures
            self@.stage == Stage::Succeeded <==> r == Some(Ok::<(), CascadeError>(())),
            self@.stage == Stage::Failed <==> (r is Some && r->Some_0 is Err),
            !finished(self@) <==> r is None,
            self@.stage == Stage::Failed ==> r->Some_0->Err_0.last == self@.last_error->Some_0,
    {
        match self.stage {
            Stage::Succeeded => Some(Ok(())),
            Stage::Failed => match self.last_error {
                Some(last) => Some(Err(CascadeError { last })),
                None => None,
            },
            _ => None,
        }
    }
}

} // verus!
