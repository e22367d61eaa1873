//! The decisions of merging one segment into one file. The caller performs
//! each action (open, read, append) and reports what happened; a failure
//! ends the merge of that file alone.

use vstd::prelude::*;

verus! {

/// What became of one candidate file.
#[derive(Debug, Clone, Copy, PartialEq, Eq, Structural)]
pub enum MergeOutcome {
    /// The segment was appended to the file.
    Merged,
    /// No non-empty segment was found for the file; it was not touched.
    Skipped,
    /// Opening, reading or appending failed; the file was left as it was.
    Failed,
}

/// Where the merge of one file stands.
#[derive(Debug, Clone, Copy, PartialEq, Eq, Structural)]
pub enum MergeStage {
    Opening,
    Reading,
    Appending,
    Done(MergeOutcome),
}

/// What the caller reports after performing an action.
#[derive(Debug)]
pub enum MergeEvent {
    /// The file was opened for reading and appending.
    Opened,
    /// The file's current content was read.
    Read(String),
    /// The segment was appended at the end of the file.
    Appended,
    /// The action failed.
    Failed,
}

/// What the caller is to do next.
#[derive(Debug)]
pub enum MergeAction {
    /// Open the file for reading and appending.
    Open,
    /// Read the file's current content.
    Read,
    /// Append this text at the end of the file.
    Append(String),
    /// Nothing more: the merge of this file has this outcome.
    Finish(MergeOutcome),
}

/// The model of a merge: the segment to append, the stage, and the file's
/// content as far as the merge has seen it (after the read, and then after
/// the append).
pub struct MergeModel {
    pub segment: Seq<char>,
    pub stage: MergeStage,
    pub content: Option<Seq<char>>,
}

/// The merge of one segment into one file.
pub struct FileMerge {
    segment: String,
    stage: MergeStage,
    content: Ghost<Option<Seq<char>>>,
}

impl View for FileMerge {
    type V = MergeModel;

    closed spec fn view(&self) -> MergeModel {
        MergeModel { segment: self.segment@, stage: self.stage, content: self.content@ }
    }
}

/// A merge about to start: a non-empty segment is to be appended, anything
/// else leaves the file skipped.
pub open spec fn start_of(segment: Option<Seq<char>>) -> MergeModel {
    match segment {
        Some(s) if s.len() > 0 => MergeModel { segment: s, stage: MergeStage::Opening, content: None },
        _ => MergeModel {
            segment: Seq::empty(),
            stage: MergeStage::Done(MergeOutcome::Skipped),
            content: None,
        },
    }
}

/// The merge after one reported event. An event that does not answer the
/// pending action counts as a failure; a finished merge stays as it is.
pub open spec fn after(m: MergeModel, e: MergeEvent) -> MergeModel {
    match m.stage {
        MergeStage::Done(_) => m,
        MergeStage::Opening => match e {
            MergeEvent::Opened => MergeModel { stage: MergeStage::Reading, ..m },
            _ => MergeModel { stage: MergeStage::Done(MergeOutcome::Failed), ..m },
        },
        MergeStage::Reading => match e {
            MergeEvent::Read(x) => MergeModel {
                stage: MergeStage::Appending,
                content: Some(x@),
                ..m
            },
            _ => MergeModel { stage: MergeStage::Done(MergeOutcome::Failed), ..m },
        },
        MergeStage::Appending => match e {
            MergeEvent::Appended => MergeModel {
                stage: MergeStage::Done(MergeOutcome::Merged),
                content: Some(m.content.unwrap_or(Seq::empty()) + m.segment),
                ..m
            },
            _ => MergeModel { stage: MergeStage::Done(MergeOutcome::Failed), ..m },
        },
    }
}

/// Whether `a` is the action that the merge `m` asks for.
pub open spec fn asks(m: MergeModel, a: MergeAction) -> bool {
    match m.stage {
        MergeStage::Opening => a is Open,
        MergeStage::Reading => a is Read,
        MergeStage::Appending => a matches MergeAction::Append(s) && s@ == m.segment,
        MergeStage::Done(o) => a == MergeAction::Finish(o),
    }
}

/// A model that a merge can be in: a merge that goes on has a segment, and
/// one that appends has read the file.
pub open spec fn well_formed(m: MergeModel) -> bool {
    &&& !(m.stage is Done) ==> m.segment.len() > 0
    &&& m.stage is Appending ==> m.content is Some
}

impl FileMerge {
    /// Starts the merge of `segment`; a missing or empty one leaves the file
    /// skipped.
    pub fn new(segment: Option<String>) -> (r: FileMerge)
        ensures
            r@ == start_of(match segment {
                Some(s) => Some(s@),
                None => None,
            }),
            well_formed(r@),
    {
        match segment {
            Some(s) => {
                if s.as_str().is_empty() {
                    FileMerge {
                        segment: String::new(),
                        stage: MergeStage::Done(MergeOutcome::Skipped),
                        content: Ghost(None),
                    }
                } else {
                    FileMerge { segment: s, stage: MergeStage::Opening, content: Ghost(None) }
                }
            },
            None => FileMerge {
                segment: String::new(),
                stage: MergeStage::Done(MergeOutcome::Skipped),
                content: Ghost(None),
            },
        }
    }

    /// The action the caller is to perform next.
    pub fn next_action(&self) -> (a: MergeAction)
        ensures
            asks(self@, a),
    {
        match self.stage {
            MergeStage::Opening => MergeAction::Open,
            MergeStage::Reading => MergeAction::Read,
            MergeStage::Appending => MergeAction::Append(self.segment.clone()),
            MergeStage::Done(o) => MergeAction::Finish(o),
        }
    }

    /// Takes in what happened when the caller performed the pending action.
    pub fn step(&mut self, e: MergeEvent)
        requires
            well_formed(old(self)@),
        ensures
            final(self)@ == after(old(self)@, e),
            well_formed(final(self)@),
    {
        match self.stage {
            MergeStage::Done(_) => {},
            MergeStage::Opening => {
                match e {
                    MergeEvent::Opened => self.stage = MergeStage::Reading,
                    _ => self.stage = MergeStage::Done(MergeOutcome::Failed),
                }
            },
            MergeStage::Reading => {
                match e {
                    MergeEvent::Read(x) => {
                        self.stage = MergeStage::Appending;
                        self.content = Ghost(Some(x@));
                    },
                    _ => self.stage = MergeStage::Done(MergeOutcome::Failed),
                }
            },
            MergeStage::Appending => {
                match e {
                    MergeEvent::Appended => {
                        self.stage = MergeStage::Done(MergeOutcome::Merged);
                        self.content = Ghost(Some(self.content@.unwrap_or(Seq::empty()) + self.segment@));
                    },
                    _ => self.stage = MergeStage::Done(MergeOutcome::Failed),
                }
            },
        }
    }

    /// The outcome, once the merge is finished.
    pub fn outcome(&self) -> (r: Option<MergeOutcome>)
        ensures
            r == (match self@.stage {
                MergeStage::Done(o) => Some(o),
                _ => None,
            }),
    {
        match self.stage {
            MergeStage::Done(o) => Some(o),
            _ => None,
        }
    }
}

/// The merge after a whole run of reported events.
pub open spec fn run(m: MergeModel, events: Seq<MergeEvent>) -> MergeModel
    decreases events.len(),
{
    if events.len() == 0 {
        m
    } else {
        run(after(m, events[0]), events.drop_first())
    }
}

/// The outcome of a model; one not yet finished counts as failed.
pub open spec fn outcome_of(m: MergeModel) -> MergeOutcome {
    match m.stage {
        MergeStage::Done(o) => o,
        _ => MergeOutcome::Failed,
    }
}

/// The outcomes of a session: for each candidate file, its segment and the
/// events its merge received, merged one after another.
pub open spec fn session_outcomes(
    files: Seq<(Option<Seq<char>>, Seq<MergeEvent>)>,
) -> Seq<MergeOutcome> {
    Seq::new(files.len(), |i: int| outcome_of(run(start_of(files[i].0), files[i].1)))
}

/// The three events of a merge that succeeds, after reading `existing`.
pub open spec fn clean_run(existing: String) -> Seq<MergeEvent> {
    seq![MergeEvent::Opened, MergeEvent::Read(existing), MergeEvent::Appended]
}

/// Appending, not overwriting: merging a non-empty segment into a file that
/// holds `existing` leaves it holding `existing` followed by the segment,
/// which is never the segment alone when `existing` is not empty.
pub proof fn lemma_merge_appends(segment: Seq<char>, existing: String)
    requires
        segment.len() > 0,
    ensures
        run(start_of(Some(segment)), clean_run(existing)).stage
            == MergeStage::Done(MergeOutcome::Merged),
        run(start_of(Some(segment)), clean_run(existing)).content == Some(existing@ + segment),
        existing@.len() > 0 ==> run(start_of(Some(segment)), clean_run(existing)).content
            != Some(segment),
{
    let evs = clean_run(existing);
    let m0 = start_of(Some(segment));
    let m1 = after(m0, MergeEvent::Opened);
    let m2 = after(m1, MergeEvent::Read(existing));
    let m3 = after(m2, MergeEvent::Appended);
    assert(evs.drop_first() =~= seq![MergeEvent::Read(existing), MergeEvent::Appended]);
    assert(evs.drop_first().drop_first() =~= seq![MergeEvent::Appended]);
    assert(evs.drop_first().drop_first().drop_first() =~= Seq::<MergeEvent>::empty());
    assert(run(m3, Seq::empty()) == m3);
    assert(run(m2, seq![MergeEvent::Appended]) == m3);
    assert(run(m1, evs.drop_first()) == m3);
    assert(run(m0, evs) == m3);
    if existing@.len() > 0 {
        assert((existing@ + segment).len() != segment.len());
    }
}

/// Merging is not idempotent: merging the segment that `blob` holds for a
/// stem twice into a file that held `existing` leaves the segment in it
/// twice, the second merge having read what the first one left.
pub proof fn lemma_merge_twice(
    blob: Seq<char>,
    stem: Seq<char>,
    existing: String,
    between: String,
)
    requires
        crate::extract::segment_of(blob, stem) matches Some(s) && s.len() > 0,
        Some(between@) == run(
            start_of(crate::extract::segment_of(blob, stem)),
            clean_run(existing),
        ).content,
    ensures
        run(start_of(crate::extract::segment_of(blob, stem)), clean_run(between)).content
            == Some(existing@ + crate::extract::segment_of(blob, stem).unwrap()
            + crate::extract::segment_of(blob, stem).unwrap()),
{
    let s = crate::extract::segment_of(blob, stem).unwrap();
    lemma_merge_appends(s, existing);
    lemma_merge_appends(s, between);
}

/// Failures stay with their file: whatever happens to the merge of file
/// `j`, the session still gives one outcome per file, and every other file
/// keeps its outcome.
pub proof fn lemma_failure_isolated(
    files: Seq<(Option<Seq<char>>, Seq<MergeEvent>)>,
    j: int,
    events: Seq<MergeEvent>,
)
    requires
        0 <= j < files.len(),
    ensures
        session_outcomes(files.update(j, (files[j].0, events))).len() == files.len(),
        forall|i: int|
            0 <= i < files.len() && i != j ==> #[trigger] session_outcomes(
                files.update(j, (files[j].0, events)),
            )[i] == session_outcomes(files)[i],
{
}

/// A merge that fails at once leaves the file unread and unchanged.
pub proof fn lemma_failed_open(segment: Seq<char>)
    requires
        segment.len() > 0,
    ensures
        run(start_of(Some(segment)), seq![MergeEvent::Failed]).stage
            == MergeStage::Done(MergeOutcome::Failed),
        run(start_of(Some(segment)), seq![MergeEvent::Failed]).content is None,
{
    let m1 = after(start_of(Some(segment)), MergeEvent::Failed);
    assert(seq![MergeEvent::Failed].drop_first() =~= Seq::<MergeEvent>::empty());
    assert(run(m1, Seq::empty()) == m1);
}

} // verus!
