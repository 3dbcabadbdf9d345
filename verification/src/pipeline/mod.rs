pub mod handler;
pub mod input;
pub mod output;

use crate::eap::EapPacketError;
use vstd::prelude::*;
use vstd::string::StringExecFns;

verus! {

/// What a pipeline step asks the pipeline to do next.
#[derive(Debug, PartialEq, Eq)]
pub enum RadiusPipelineStepAction<A> {
    DiscardTarget,
    NextStep,
    AcceptStep(A),
}

/// Why reading a received packet in a pipeline stage failed.
#[derive(Debug, Copy, Clone, PartialEq, Eq, Structural)]
pub enum RadiusPipelineError {
    EapPacket(EapPacketError),
}

impl From<EapPacketError> for RadiusPipelineError {
    fn from(error: EapPacketError) -> (pipeline_error: Self)
        ensures
            pipeline_error == RadiusPipelineError::EapPacket(error),
    {
        RadiusPipelineError::EapPacket(error)
    }
}

impl vstd::std_specs::convert::FromSpecImpl<EapPacketError> for RadiusPipelineError {
    open spec fn obeys_from_spec() -> bool {
        true
    }

    open spec fn from_spec(error: EapPacketError) -> RadiusPipelineError {
        RadiusPipelineError::EapPacket(error)
    }
}

/// The decimal digits of a number.
pub open spec fn decimal(n: nat) -> Seq<char>
    decreases n,
{
    if n < 10 {
        seq![(n + 48) as char]
    } else {
        decimal(n / 10).push(((n % 10) + 48) as char)
    }
}

/// The name of a phase with a number of its own: `OTHER (` and the number in decimal and `)`.
pub open spec fn other_phase_name(code: usize) -> Seq<char> {
    "OTHER ("@ + decimal(code as nat) + ")"@
}

/// The decimal digit `digit` as text.
fn digit_text(digit: usize) -> (text: &'static str)
    requires
        digit < 10,
    ensures
        text@ == seq![(digit + 48) as char],
{
    match digit {
        0 => {
            proof {
                reveal_strlit("0");
            }
            "0"
        },
        1 => {
            proof {
                reveal_strlit("1");
            }
            "1"
        },
        2 => {
            proof {
                reveal_strlit("2");
            }
            "2"
        },
        3 => {
            proof {
                reveal_strlit("3");
            }
            "3"
        },
        4 => {
            proof {
                reveal_strlit("4");
            }
            "4"
        },
        5 => {
            proof {
                reveal_strlit("5");
            }
            "5"
        },
        6 => {
            proof {
                reveal_strlit("6");
            }
            "6"
        },
        7 => {
            proof {
                reveal_strlit("7");
            }
            "7"
        },
        8 => {
            proof {
                reveal_strlit("8");
            }
            "8"
        },
        _ => {
            proof {
                reveal_strlit("9");
            }
            "9"
        },
    }
}

/// Appends the decimal digits of `n` to `text`.
fn append_decimal(text: &mut String, n: usize)
    ensures
        final(text)@ == old(text)@ + decimal(n as nat),
    decreases n,
{
    if n >= 10 {
        append_decimal(text, n / 10);
    }
    text.append(digit_text(n % 10));
    assert(text@ =~= old(text)@ + decimal(n as nat)) by {
        if n >= 10 {
            assert(decimal(n as nat) == decimal((n / 10) as nat).push(((n % 10) + 48) as char));
        }
    }
}

/// The name of a phase with a number of its own.
pub(crate) fn format_other_phase_name(code: usize) -> (name: String)
    ensures
        name@ == other_phase_name(code),
{
    let mut name = "OTHER (".to_owned();
    append_decimal(&mut name, code);
    name.append(")");
    name
}

/// The code of a pipeline phase: phases run in the order of their keys.
pub trait RadiusPipelinePhaseCode {
    /// Where the phase stands among the phases of its pipeline.
    spec fn spec_order_key(&self) -> int;

    fn order_key(&self) -> (key: u128)
        ensures
            key == self.spec_order_key(),
    ;

    fn name(&self) -> String;
}

/// Marks what a pipeline can hand back when a step accepts.
pub trait RadiusPipelineAcceptItem {}

impl RadiusPipelineAcceptItem for () {}

/// A step's outcome with the accepted item taken by its view.
pub open spec fn outcome_view<A: View, E>(
    outcome: Result<RadiusPipelineStepAction<A>, E>,
) -> Result<RadiusPipelineStepAction<A::V>, E> {
    match outcome {
        Ok(RadiusPipelineStepAction::DiscardTarget) => Ok(RadiusPipelineStepAction::DiscardTarget),
        Ok(RadiusPipelineStepAction::NextStep) => Ok(RadiusPipelineStepAction::NextStep),
        Ok(RadiusPipelineStepAction::AcceptStep(item)) => Ok(
            RadiusPipelineStepAction::AcceptStep(item@),
        ),
        Err(error) => Err(error),
    }
}

/// A pipeline's result with the accepted item taken by its view.
pub open spec fn result_view<A: View, E>(result: Result<Option<A>, E>) -> Result<Option<A::V>, E> {
    match result {
        Ok(Some(item)) => Ok(Some(item@)),
        Ok(None) => Ok(None),
        Err(error) => Err(error),
    }
}

/// One step of a pipeline: it works on a target, reads a context, and tells the pipeline
/// whether to go on, to stop, or to stop with an item.
pub trait RadiusPipelineStep: View + Sized {
    type Target: View;
    type Context: View;
    type Accept: View;
    type Error;

    /// The key of the phase the step belongs to.
    spec fn spec_phase_key(state: Self::V) -> int;

    /// The kind of the step: a phase holds at most one step of each kind.
    spec fn spec_kind(state: Self::V) -> int;

    /// The inputs on which the step can run.
    spec fn spec_ready(
        state: Self::V,
        target: <Self::Target as View>::V,
        context: <Self::Context as View>::V,
    ) -> bool;

    /// What running the step does: its new state, the new target, and its outcome.
    spec fn spec_process(
        state: Self::V,
        target: <Self::Target as View>::V,
        context: <Self::Context as View>::V,
    ) -> (Self::V, <Self::Target as View>::V, Result<
        RadiusPipelineStepAction<<Self::Accept as View>::V>,
        Self::Error,
    >);

    /// Running a step keeps its phase and its kind.
    proof fn lemma_process_keeps_key(
        state: Self::V,
        target: <Self::Target as View>::V,
        context: <Self::Context as View>::V,
    )
        ensures
            Self::spec_phase_key(Self::spec_process(state, target, context).0)
                == Self::spec_phase_key(state),
            Self::spec_kind(Self::spec_process(state, target, context).0) == Self::spec_kind(
                state,
            ),
    ;

    fn name(&self) -> String;

    fn phase_key(&self) -> (key: u128)
        ensures
            key == Self::spec_phase_key(self@),
    ;

    fn kind(&self) -> (kind: u64)
        ensures
            kind == Self::spec_kind(self@),
    ;

    fn process(&mut self, target: &mut Self::Target, context: &Self::Context) -> (outcome: Result<
        RadiusPipelineStepAction<Self::Accept>,
        Self::Error,
    >)
        requires
            Self::spec_ready(old(self)@, old(target)@, context@),
        ensures
            (final(self)@, final(target)@, outcome_view(outcome)) == Self::spec_process(
                old(self)@,
                old(target)@,
                context@,
            ),
    ;
}

/// What running the steps in order does: each step runs on the target the one before left,
/// until one discards the target, accepts, or fails; the steps after it do not run.
pub open spec fn pipeline_run<S: RadiusPipelineStep>(
    steps: Seq<S::V>,
    target: <S::Target as View>::V,
    context: <S::Context as View>::V,
) -> (Seq<S::V>, <S::Target as View>::V, Result<Option<<S::Accept as View>::V>, S::Error>)
    decreases steps.len(),
{
    if steps.len() == 0 {
        (steps, target, Ok(None))
    } else {
        let (first, next_target, outcome) = S::spec_process(steps[0], target, context);
        match outcome {
            Ok(RadiusPipelineStepAction::NextStep) => {
                let (rest, last_target, result) = pipeline_run::<S>(
                    steps.drop_first(),
                    next_target,
                    context,
                );
                (seq![first] + rest, last_target, result)
            },
            Ok(RadiusPipelineStepAction::DiscardTarget) => (
                steps.update(0, first),
                next_target,
                Ok(None),
            ),
            Ok(RadiusPipelineStepAction::AcceptStep(item)) => (
                steps.update(0, first),
                next_target,
                Ok(Some(item)),
            ),
            Err(error) => (steps.update(0, first), next_target, Err(error)),
        }
    }
}

/// Every step that the run reaches can run on what it is given.
pub open spec fn pipeline_ready<S: RadiusPipelineStep>(
    steps: Seq<S::V>,
    target: <S::Target as View>::V,
    context: <S::Context as View>::V,
) -> bool
    decreases steps.len(),
{
    steps.len() == 0 || {
        &&& S::spec_ready(steps[0], target, context)
        &&& (S::spec_process(steps[0], target, context).2 matches Ok(
            RadiusPipelineStepAction::NextStep,
        ) ==> pipeline_ready::<S>(
            steps.drop_first(),
            S::spec_process(steps[0], target, context).1,
            context,
        ))
    }
}

/// The steps stand in the order of their phases, and no phase holds two steps of one kind.
pub open spec fn steps_well_formed<S: RadiusPipelineStep>(steps: Seq<S::V>) -> bool {
    &&& forall|i: int, j: int|
        0 <= i < j < steps.len() ==> S::spec_phase_key(#[trigger] steps[i]) <= S::spec_phase_key(
            #[trigger] steps[j],
        )
    &&& forall|i: int, j: int|
        0 <= i < j < steps.len() ==> !(S::spec_phase_key(#[trigger] steps[i]) == S::spec_phase_key(
            #[trigger] steps[j],
        ) && S::spec_kind(steps[i]) == S::spec_kind(steps[j]))
}

/// The number of steps whose phase comes no later than `key`: where a step of that phase
/// goes.
pub open spec fn insertion_point<S: RadiusPipelineStep>(steps: Seq<S::V>, key: int) -> int
    decreases steps.len(),
{
    if steps.len() == 0 {
        0
    } else if S::spec_phase_key(steps.last()) <= key {
        steps.len() as int
    } else {
        insertion_point::<S>(steps.drop_last(), key)
    }
}

/// Whether a step of this phase and kind is there already.
pub open spec fn has_step<S: RadiusPipelineStep>(steps: Seq<S::V>, key: int, kind: int) -> bool {
    exists|i: int|
        0 <= i < steps.len() && S::spec_phase_key(#[trigger] steps[i]) == key && S::spec_kind(
            steps[i],
        ) == kind
}

/// A run keeps the number of steps and each step's phase and kind, so steps that stood in
/// phase order with no two of one kind in a phase still do.
pub proof fn lemma_pipeline_run_keeps_well_formed<S: RadiusPipelineStep>(
    steps: Seq<S::V>,
    target: <S::Target as View>::V,
    context: <S::Context as View>::V,
)
    requires
        steps_well_formed::<S>(steps),
    ensures
        pipeline_run::<S>(steps, target, context).0.len() == steps.len(),
        forall|i: int|
            0 <= i < steps.len() ==> S::spec_phase_key(
                #[trigger] pipeline_run::<S>(steps, target, context).0[i],
            ) == S::spec_phase_key(steps[i]) && S::spec_kind(
                pipeline_run::<S>(steps, target, context).0[i],
            ) == S::spec_kind(steps[i]),
        steps_well_formed::<S>(pipeline_run::<S>(steps, target, context).0),
    decreases steps.len(),
{
    if steps.len() > 0 {
        let (first, next_target, outcome) = S::spec_process(steps[0], target, context);
        S::lemma_process_keeps_key(steps[0], target, context);
        let result = pipeline_run::<S>(steps, target, context).0;
        if outcome matches Ok(RadiusPipelineStepAction::NextStep) {
            let rest = steps.drop_first();
            assert(steps_well_formed::<S>(rest)) by {
                assert forall|i: int, j: int| 0 <= i < j < rest.len() implies S::spec_phase_key(
                    #[trigger] rest[i],
                ) <= S::spec_phase_key(#[trigger] rest[j]) by {
                    assert(rest[i] == steps[i + 1] && rest[j] == steps[j + 1]);
                }
                assert forall|i: int, j: int| 0 <= i < j < rest.len() implies !(S::spec_phase_key(
                    #[trigger] rest[i],
                ) == S::spec_phase_key(#[trigger] rest[j]) && S::spec_kind(rest[i]) == S::spec_kind(
                    rest[j],
                )) by {
                    assert(rest[i] == steps[i + 1] && rest[j] == steps[j + 1]);
                }
            }
            lemma_pipeline_run_keeps_well_formed::<S>(rest, next_target, context);
            let tail = pipeline_run::<S>(rest, next_target, context).0;
            assert(result == seq![first] + tail);
            assert forall|i: int| 0 <= i < steps.len() implies S::spec_phase_key(
                #[trigger] result[i],
            ) == S::spec_phase_key(steps[i]) && S::spec_kind(result[i]) == S::spec_kind(
                steps[i],
            ) by {
                if i > 0 {
                    assert(result[i] == tail[i - 1]);
                    assert(rest[i - 1] == steps[i]);
                }
            }
        } else {
            assert(result == steps.update(0, first));
        }
        assert forall|i: int, j: int| 0 <= i < j < result.len() implies S::spec_phase_key(
            #[trigger] result[i],
        ) <= S::spec_phase_key(#[trigger] result[j]) by {
            assert(S::spec_phase_key(result[i]) == S::spec_phase_key(steps[i]));
            assert(S::spec_phase_key(result[j]) == S::spec_phase_key(steps[j]));
        }
        assert forall|i: int, j: int| 0 <= i < j < result.len() implies !(S::spec_phase_key(
            #[trigger] result[i],
        ) == S::spec_phase_key(#[trigger] result[j]) && S::spec_kind(result[i]) == S::spec_kind(
            result[j],
        )) by {
            assert(S::spec_phase_key(result[i]) == S::spec_phase_key(steps[i]));
            assert(S::spec_phase_key(result[j]) == S::spec_phase_key(steps[j]));
        }
    }
}

/// A named sequence of steps, run phase by phase.
pub struct RadiusPipeline<S: RadiusPipelineStep> {
    name: String,
    steps: Vec<S>,
}

impl<S: RadiusPipelineStep> View for RadiusPipeline<S> {
    type V = Seq<S::V>;

    /// The states of the steps, in the order in which they run.
    closed spec fn view(&self) -> Seq<S::V> {
        self.steps@.map_values(|step: S| step@)
    }
}

impl<S: RadiusPipelineStep> RadiusPipeline<S> {
    /// The pipeline's name.
    pub closed spec fn spec_name(&self) -> Seq<char> {
        self.name@
    }

    pub fn new(name: &str) -> (pipeline: Self)
        ensures
            pipeline@ == Seq::<S::V>::empty(),
            pipeline.spec_name() == name@,
    {
        let pipeline = Self { name: name.to_owned(), steps: Vec::new() };
        assert(pipeline@ =~= Seq::<S::V>::empty());
        pipeline
    }

    pub fn name(&self) -> (name: &str)
        ensures
            name@ == self.spec_name(),
    {
        self.name.as_str()
    }

    /// Adds a step after the steps of its phase and of earlier phases and hands back the
    /// pipeline for more; hands the step back, changing nothing, when its phase holds a step of
    /// its kind already.
    pub fn insert_step(&mut self, pipeline_step: S) -> (result: Result<&mut Self, S>)
        requires
            steps_well_formed::<S>(old(self)@),
        ensures
            has_step::<S>(old(self)@, S::spec_phase_key(pipeline_step@), S::spec_kind(pipeline_step@))
                ==> (result matches Err(step) && step == pipeline_step && final(self)@ == old(self)@
                && final(self).spec_name() == old(self).spec_name()),
            !has_step::<S>(old(self)@, S::spec_phase_key(pipeline_step@), S::spec_kind(pipeline_step@))
                ==> (result matches Ok(pipeline) && pipeline@ == old(self)@.insert(
                insertion_point::<S>(old(self)@, S::spec_phase_key(pipeline_step@)),
                pipeline_step@,
            ) && steps_well_formed::<S>(pipeline@) && pipeline.spec_name() == old(self).spec_name()),
            result matches Ok(pipeline) ==> final(self)@ == final(pipeline)@ && final(self).spec_name()
                == final(pipeline).spec_name(),
    {
        let key = pipeline_step.phase_key();
        let kind = pipeline_step.kind();
        let ghost steps = self@;
        let mut i: usize = 0;
        while i < self.steps.len()
            invariant
                i <= self.steps@.len(),
                self@ == steps,
                steps == self.steps@.map_values(|step: S| step@),
                steps_well_formed::<S>(steps),
                key == S::spec_phase_key(pipeline_step@),
                kind == S::spec_kind(pipeline_step@),
                forall|j: int|
                    0 <= j < i ==> !(S::spec_phase_key(#[trigger] steps[j]) == key && S::spec_kind(
                        steps[j],
                    ) == kind),
            decreases self.steps@.len() - i,
        {
            assert(steps[i as int] == self.steps@[i as int]@);
            if self.steps[i].phase_key() == key && self.steps[i].kind() == kind {
                assert(S::spec_phase_key(steps[i as int]) == key && S::spec_kind(steps[i as int]) == kind);
                return Err(pipeline_step);
            }
            i = i + 1;
        }
        assert(!has_step::<S>(steps, key as int, kind as int));
        let mut position: usize = self.steps.len();
        assert(steps.take(position as int) =~= steps);
        while position > 0 && self.steps[position - 1].phase_key() > key
            invariant
                position <= self.steps@.len(),
                self@ == steps,
                steps == self.steps@.map_values(|step: S| step@),
                insertion_point::<S>(steps, key as int) == insertion_point::<S>(
                    steps.take(position as int),
                    key as int,
                ),
                forall|j: int| position <= j < steps.len() ==> S::spec_phase_key(#[trigger] steps[j]) > key,
            decreases position,
        {
            assert(steps[position - 1] == self.steps@[position - 1]@);
            assert(steps.take(position as int).drop_last() =~= steps.take(position - 1));
            position = position - 1;
        }
        proof {
            if position > 0 {
                assert(steps[position - 1] == self.steps@[position - 1]@);
            }
            assert(insertion_point::<S>(steps.take(position as int), key as int) == position);
        }
        self.steps.insert(position, pipeline_step);
        assert(self@ =~= steps.insert(position as int, pipeline_step@));
        Ok(self)
    }

    /// Runs the steps in order on `target` until one discards the target, accepts, or fails:
    /// the item of an accepting step comes back in `Some`, a discarded target or a run
    /// through all steps gives `None`, and a step's error comes back as the error.
    pub fn process(&mut self, target: &mut S::Target, context: &S::Context) -> (result: Result<
        Option<S::Accept>,
        S::Error,
    >)
        requires
            pipeline_ready::<S>(old(self)@, old(target)@, context@),
        ensures
            (final(self)@, final(target)@, result_view(result)) == pipeline_run::<S>(
                old(self)@,
                old(target)@,
                context@,
            ),
            final(self).spec_name() == old(self).spec_name(),
            steps_well_formed::<S>(old(self)@) ==> steps_well_formed::<S>(final(self)@),
    {
        let ghost steps = self@;
        let ghost initial_target = target@;
        proof {
            if steps_well_formed::<S>(steps) {
                lemma_pipeline_run_keeps_well_formed::<S>(steps, initial_target, context@);
            }
            assert(steps.skip(0) =~= steps);
        }
        let ghost mut done: Seq<S::V> = Seq::empty();
        let mut i: usize = 0;
        while i < self.steps.len()
            invariant
                i <= self.steps@.len(),
                self.steps@.len() == steps.len(),
                done.len() == i,
                self@ == done + steps.skip(i as int),
                self.spec_name() == old(self).spec_name(),
                steps == old(self)@,
                initial_target == old(target)@,
                steps_well_formed::<S>(steps) ==> steps_well_formed::<S>(
                    pipeline_run::<S>(steps, initial_target, context@).0,
                ),
                pipeline_ready::<S>(steps.skip(i as int), target@, context@),
                pipeline_run::<S>(steps, initial_target, context@) == ({
                    let (rest, last_target, result) = pipeline_run::<S>(
                        steps.skip(i as int),
                        target@,
                        context@,
                    );
                    (done + rest, last_target, result)
                }),
            decreases steps.len() - i,
        {
            let ghost before = self@;
            let ghost current_target = target@;
            assert(steps.skip(i as int)[0] == steps[i as int]);
            assert(before[i as int] == steps[i as int]);
            assert(self.steps@[i as int]@ == steps[i as int]);
            let outcome = self.steps[i].process(target, context);
            let ghost processed = S::spec_process(steps[i as int], current_target, context@);
            assert(self@ =~= before.update(i as int, processed.0));
            assert(steps.skip(i as int).drop_first() =~= steps.skip(i + 1));
            match outcome {
                Ok(RadiusPipelineStepAction::NextStep) => {
                    proof {
                        assert(done.push(processed.0) + steps.skip(i + 1) =~= self@);
                        let (rest, last_target, result) = pipeline_run::<S>(
                            steps.skip(i + 1),
                            target@,
                            context@,
                        );
                        assert(done + (seq![processed.0] + rest) =~= done.push(processed.0) + rest);
                        done = done.push(processed.0);
                    }
                    i = i + 1;
                },
                Ok(RadiusPipelineStepAction::DiscardTarget) => {
                    assert(done + steps.skip(i as int).update(0, processed.0) =~= self@);
                    assert(processed.2 matches Ok(RadiusPipelineStepAction::DiscardTarget));
                    assert(pipeline_run::<S>(steps.skip(i as int), current_target, context@) == (
                        steps.skip(i as int).update(0, processed.0),
                        target@,
                        Ok::<Option<<S::Accept as View>::V>, S::Error>(None),
                    ));
                    return Ok(None);
                },
                Ok(RadiusPipelineStepAction::AcceptStep(item)) => {
                    assert(done + steps.skip(i as int).update(0, processed.0) =~= self@);
                    assert(processed.2 == Ok::<
                        RadiusPipelineStepAction<<S::Accept as View>::V>,
                        S::Error,
                    >(RadiusPipelineStepAction::AcceptStep(item@)));
                    assert(pipeline_run::<S>(steps.skip(i as int), current_target, context@) == (
                        steps.skip(i as int).update(0, processed.0),
                        target@,
                        Ok::<Option<<S::Accept as View>::V>, S::Error>(Some(item@)),
                    ));
                    return Ok(Some(item));
                },
                Err(error) => {
                    assert(done + steps.skip(i as int).update(0, processed.0) =~= self@);
                    assert(processed.2 == Err::<RadiusPipelineStepAction<<S::Accept as View>::V>, S::Error>(error));
                    assert(pipeline_run::<S>(steps.skip(i as int), current_target, context@) == (
                        steps.skip(i as int).update(0, processed.0),
                        target@,
                        Err::<Option<<S::Accept as View>::V>, S::Error>(error),
                    ));
                    return Err(error);
                },
            }
        }
        assert(steps.skip(i as int) =~= Seq::<S::V>::empty());
        assert(done + Seq::<S::V>::empty() =~= done);
        Ok(None)
    }
}

} // verus!
