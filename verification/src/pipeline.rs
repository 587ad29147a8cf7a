//! The pipeline orchestrator: for one path and one direction it selects the active stages,
//! decides whether the result can be streamed, runs the stages in order and wraps what
//! comes out.

use vstd::prelude::*;
use crate::bytes::bytes_equal;
use crate::driver::{
    driver_step, law_first_driver_wins, select, selected, step_of, Direction, Driver, DriverError,
    DriverOutput, DriverPayload, DriverStep,
};
use crate::eol::{
    has_only_crlf, is_bare_lf, law_bare_lf_breaks_round_trip, law_uniform_crlf_round_trips,
    round_trips, to_git_text, to_worktree_text, Policy,
};
use crate::ident::{blob_id, collapse_keywords, collapsed, compute_blob_id, expand_keywords, expanded};
use crate::output::{outcome_view, ConversionOutput, Error, Failure, OutputView};

pub use crate::eol::CrlfRoundTripCheck;

verus! {

/// Which of the built-in text stages a pipeline is configured with.
#[derive(Clone, Copy, Debug, PartialEq, Eq, Structural)]
pub struct BuiltinStages {
    /// Line-ending normalization.
    pub line_endings: bool,
    /// Keyword expansion.
    pub keywords: bool,
}

/// What the attributes of one path ask of the pipeline.
#[derive(Clone, Debug, PartialEq, Eq)]
pub struct ResolvedAttributes {
    /// The name of the driver to run, if the path has a filter attribute.
    pub driver_name: Option<String>,
    /// The line-ending policy, if the path is text to be normalized.
    pub eol_policy: Option<Policy>,
    /// Whether keywords are expanded in the path's content.
    pub keyword_expand: bool,
}

/// The attributes of a path could not be resolved.
#[derive(Clone, Copy, Debug, PartialEq, Eq, Structural)]
pub struct AttributeError;

/// The object store holds nothing under the id it was asked for.
#[derive(Clone, Copy, Debug, PartialEq, Eq, Structural)]
pub struct NotFound;

/// One unit of transformation.
#[derive(Clone, Copy, Debug, PartialEq, Eq, Structural)]
pub enum Stage {
    /// The configured driver with this index.
    Driver(usize),
    /// Line-ending normalization under a policy.
    LineEndings(Policy),
    /// Keyword expansion.
    Keywords,
}

/// The stages that are active for one path and one direction.
#[derive(Clone, Copy, Debug, PartialEq, Eq, Structural)]
pub struct Plan {
    /// The index of the selected driver.
    pub driver: Option<usize>,
    /// The policy of line-ending normalization, where it is active.
    pub eol: Option<Policy>,
    /// Whether keyword expansion is active.
    pub keywords: bool,
}

/// The configuration of a conversion session: the drivers in their order, the built-in
/// stages, the round-trip policy, and the capability that runs a driver. It does not change
/// once it is built.
///
/// The capability gets the driver, the direction, the path, the content and whether a stream
/// is accepted as the answer.
pub struct Pipeline<D> {
    drivers: Vec<Driver>,
    builtin: BuiltinStages,
    round_trip_check: CrlfRoundTripCheck,
    invoke: D,
}

impl Stage {
    /// Whether the stage is a built-in text transform, which needs the whole content in memory.
    pub open spec fn is_builtin(&self) -> bool {
        !(self is Driver)
    }

    /// Tells whether the stage buffers: a built-in text transform must see the whole content,
    /// while a driver may pass a stream on.
    pub fn is_buffering(&self) -> (b: bool)
        ensures
            b == self.is_builtin(),
    {
        match self {
            Stage::Driver(_) => false,
            _ => true,
        }
    }
}

impl Plan {
    /// Whether no stage is active.
    pub open spec fn is_empty(&self) -> bool {
        self.driver is None && self.eol is None && !self.keywords
    }

    /// Whether a built-in text stage is active.
    pub open spec fn has_builtin(&self) -> bool {
        self.eol is Some || self.keywords
    }

    /// Whether every active stage is a driver, so that a stream can be handed on.
    pub open spec fn streaming_capable(&self) -> bool {
        self.driver is Some && !self.has_builtin()
    }

    /// The active stages in the order in which `direction` runs them: on the way into the
    /// repository the driver, line endings, keywords; on the way out the reverse.
    pub open spec fn stages(&self, direction: Direction) -> Seq<Stage> {
        let driver = match self.driver {
            Some(handle) => seq![Stage::Driver(handle)],
            None => Seq::<Stage>::empty(),
        };
        let eol = match self.eol {
            Some(policy) => seq![Stage::LineEndings(policy)],
            None => Seq::<Stage>::empty(),
        };
        let keywords = if self.keywords {
            seq![Stage::Keywords]
        } else {
            Seq::<Stage>::empty()
        };
        match direction {
            Direction::Clean => driver + eol + keywords,
            Direction::Smudge => keywords + eol + driver,
        }
    }

    /// Tells whether no stage is active.
    pub fn no_stage(&self) -> (b: bool)
        ensures
            b == self.is_empty(),
    {
        self.driver.is_none() && self.eol.is_none() && !self.keywords
    }

    /// Tells whether a built-in text stage is active.
    pub fn buffers(&self) -> (b: bool)
        ensures
            b == self.has_builtin(),
    {
        self.eol.is_some() || self.keywords
    }

    /// Tells whether the result can be a stream: only a driver is active.
    pub fn can_stream(&self) -> (b: bool)
        ensures
            b == self.streaming_capable(),
    {
        self.driver.is_some() && !self.buffers()
    }

    /// Lists the active stages in the order in which `direction` runs them.
    pub fn ordered_stages(&self, direction: Direction) -> (list: Vec<Stage>)
        ensures
            list@ == self.stages(direction),
    {
        let mut list: Vec<Stage> = Vec::new();
        match direction {
            Direction::Clean => {
                if let Some(handle) = self.driver {
                    list.push(Stage::Driver(handle));
                }
                if let Some(policy) = self.eol {
                    list.push(Stage::LineEndings(policy));
                }
                if self.keywords {
                    list.push(Stage::Keywords);
                }
            },
            Direction::Smudge => {
                if self.keywords {
                    list.push(Stage::Keywords);
                }
                if let Some(policy) = self.eol {
                    list.push(Stage::LineEndings(policy));
                }
                if let Some(handle) = self.driver {
                    list.push(Stage::Driver(handle));
                }
            },
        }
        assert(list@ =~= self.stages(direction));
        list
    }
}

/// The stored form of `x` after the built-in stages of `plan`, or the failure of the
/// round-trip check on `x`. Line endings are normalized first, then keywords are collapsed.
pub open spec fn git_text(check: CrlfRoundTripCheck, plan: Plan, path: Seq<char>, x: Seq<u8>) -> Result<
    Seq<u8>,
    Failure,
> {
    match plan.eol {
        Some(policy) => if check == CrlfRoundTripCheck::Fail && !round_trips(x, policy) {
            Err(Failure::RoundTripMismatch(path))
        } else if plan.keywords {
            Ok(collapsed(to_git_text(x, policy)))
        } else {
            Ok(to_git_text(x, policy))
        },
        None => if plan.keywords {
            Ok(collapsed(x))
        } else {
            Ok(x)
        },
    }
}

/// Whether a built-in stage of `plan` alters the bytes it is given on the way from `x` to the
/// stored form.
pub open spec fn git_text_altered(plan: Plan, x: Seq<u8>) -> bool {
    match plan.eol {
        Some(policy) => to_git_text(x, policy) != x || (plan.keywords && collapsed(
            to_git_text(x, policy),
        ) != to_git_text(x, policy)),
        None => plan.keywords && collapsed(x) != x,
    }
}

/// The worktree form of `x` after the built-in stages of `plan`: keywords are expanded with
/// `identifier` first, then line endings are converted.
pub open spec fn worktree_text(plan: Plan, x: Seq<u8>, identifier: Seq<u8>) -> Seq<u8> {
    let y = if plan.keywords {
        expanded(x, identifier)
    } else {
        x
    };
    if plan.eol is Some {
        to_worktree_text(y)
    } else {
        y
    }
}

/// Whether a built-in stage of `plan` alters the bytes it is given on the way from `x` to the
/// worktree form.
pub open spec fn worktree_text_altered(plan: Plan, x: Seq<u8>, identifier: Seq<u8>) -> bool {
    let y = if plan.keywords {
        expanded(x, identifier)
    } else {
        x
    };
    y != x || (plan.eol is Some && to_worktree_text(y) != y)
}

/// What a conversion into the repository yields for `input` once the driver stage came to
/// `step`.
///
/// A failing driver aborts. A stream is handed on untouched. Content that the driver altered
/// runs through the built-in stages and is materialized. Where the driver had no part, the
/// built-in stages run on `input`; if none of them alters a byte the input itself is the
/// result, otherwise the new content is materialized.
pub open spec fn to_git_outcome<S>(
    check: CrlfRoundTripCheck,
    plan: Plan,
    path: Seq<char>,
    input: Seq<u8>,
    step: DriverStep<S>,
) -> Result<OutputView<S>, Failure> {
    match step {
        DriverStep::Unavailable => Err(Failure::DriverUnavailable),
        DriverStep::Io => Err(Failure::DriverIo),
        DriverStep::Stream(stream) => if plan.has_builtin() {
            Err(Failure::DriverIo)
        } else {
            Ok(OutputView::Streamed(stream))
        },
        DriverStep::Buffer(bytes) => match git_text(check, plan, path, bytes@) {
            Ok(text) => Ok(OutputView::Materialized(text)),
            Err(failure) => Err(failure),
        },
        _ => match git_text(check, plan, path, input) {
            Ok(text) => if git_text_altered(plan, input) {
                Ok(OutputView::Materialized(text))
            } else {
                Ok(OutputView::Unchanged(input))
            },
            Err(failure) => Err(failure),
        },
    }
}

/// What a conversion into the worktree yields for `input` once the built-in stages made
/// `text` of it, altering it or not, and the driver stage, which runs last, came to `step`.
pub open spec fn to_worktree_outcome<S>(
    plan: Plan,
    input: Seq<u8>,
    text: Seq<u8>,
    altered: bool,
    step: DriverStep<S>,
) -> Result<OutputView<S>, Failure> {
    match step {
        DriverStep::Unavailable => Err(Failure::DriverUnavailable),
        DriverStep::Io => Err(Failure::DriverIo),
        DriverStep::Stream(stream) => if plan.has_builtin() {
            Err(Failure::DriverIo)
        } else {
            Ok(OutputView::Streamed(stream))
        },
        DriverStep::Buffer(bytes) => Ok(OutputView::Materialized(bytes@)),
        _ => if altered {
            Ok(OutputView::Materialized(text))
        } else {
            Ok(OutputView::Unchanged(input))
        },
    }
}

/// Runs the built-in stages of `plan` on `x` on the way into the repository.
///
/// The result is `None` where no stage altered a byte, so that the caller can keep what it
/// has; otherwise it holds the new content.
pub fn apply_git_text(check: CrlfRoundTripCheck, plan: Plan, path: &str, x: &[u8]) -> (res: Result<
    Option<Vec<u8>>,
    Error,
>)
    ensures
        match git_text(check, plan, path@, x@) {
            Err(failure) => res matches Err(e) && e@ == failure,
            Ok(text) => if git_text_altered(plan, x@) {
                res matches Ok(Some(bytes)) && bytes@ == text
            } else {
                res matches Ok(None) && text == x@
            },
        },
{
    let mut current: Option<Vec<u8>> = None;
    if let Some(policy) = plan.eol {
        match crate::eol::convert_to_git(x, policy, check) {
            Err(_) => {
                return Err(Error::RoundTripMismatch { path: path.to_owned() });
            },
            Ok(out) => {
                if !bytes_equal(out.as_slice(), x) {
                    current = Some(out);
                }
            },
        }
    }
    if plan.keywords {
        let next = match &current {
            Some(bytes) => {
                let out = collapse_keywords(bytes.as_slice());
                if bytes_equal(out.as_slice(), bytes.as_slice()) {
                    None
                } else {
                    Some(out)
                }
            },
            None => {
                let out = collapse_keywords(x);
                if bytes_equal(out.as_slice(), x) {
                    None
                } else {
                    Some(out)
                }
            },
        };
        if next.is_some() {
            current = next;
        }
    }
    Ok(current)
}

/// Runs the built-in stages of `plan` on `x` on the way into the worktree, expanding keywords
/// with `identifier`.
///
/// The result is `None` where no stage altered a byte; otherwise it holds the new content.
pub fn apply_worktree_text(plan: Plan, x: &[u8], identifier: &[u8]) -> (res: Option<Vec<u8>>)
    ensures
        if worktree_text_altered(plan, x@, identifier@) {
            res matches Some(bytes) && bytes@ == worktree_text(plan, x@, identifier@)
        } else {
            res is None && worktree_text(plan, x@, identifier@) == x@
        },
{
    let mut current: Option<Vec<u8>> = None;
    if plan.keywords {
        let out = expand_keywords(x, identifier);
        if !bytes_equal(out.as_slice(), x) {
            current = Some(out);
        }
    }
    if plan.eol.is_some() {
        let next = match &current {
            Some(bytes) => {
                let out = crate::eol::convert_to_worktree(bytes.as_slice());
                if bytes_equal(out.as_slice(), bytes.as_slice()) {
                    None
                } else {
                    Some(out)
                }
            },
            None => {
                let out = crate::eol::convert_to_worktree(x);
                if bytes_equal(out.as_slice(), x) {
                    None
                } else {
                    Some(out)
                }
            },
        };
        if next.is_some() {
            current = next;
        }
    }
    current
}

/// Completes a conversion into the repository once the driver stage came to `step`: runs the
/// built-in stages where they are due and wraps the result.
pub fn finish_to_git<'a, S>(
    check: CrlfRoundTripCheck,
    plan: Plan,
    path: &str,
    input: &'a [u8],
    step: DriverStep<S>,
) -> (res: Result<ConversionOutput<'a, S>, Error>)
    ensures
        outcome_view(res) == to_git_outcome(check, plan, path@, input@, step),
{
    match step {
        DriverStep::Unavailable => Err(Error::DriverUnavailable),
        DriverStep::Io => Err(Error::DriverIo),
        DriverStep::Stream(stream) => {
            if plan.buffers() {
                Err(Error::DriverIo)
            } else {
                Ok(ConversionOutput::Streamed(stream))
            }
        },
        DriverStep::Buffer(bytes) => {
            match apply_git_text(check, plan, path, bytes.as_slice()) {
                Err(e) => Err(e),
                Ok(Some(text)) => Ok(ConversionOutput::Materialized(text)),
                Ok(None) => Ok(ConversionOutput::Materialized(bytes)),
            }
        },
        _ => {
            match apply_git_text(check, plan, path, input) {
                Err(e) => Err(e),
                Ok(Some(text)) => Ok(ConversionOutput::Materialized(text)),
                Ok(None) => Ok(ConversionOutput::Unchanged(input)),
            }
        },
    }
}

/// Completes a conversion into the worktree once the built-in stages made `text` of the
/// input, `None` where they altered nothing, and the driver stage came to `step`.
pub fn finish_to_worktree<'a, S>(
    plan: Plan,
    input: &'a [u8],
    text: Option<Vec<u8>>,
    step: DriverStep<S>,
) -> (res: Result<ConversionOutput<'a, S>, Error>)
    ensures
        outcome_view(res) == to_worktree_outcome(
            plan,
            input@,
            match text {
                Some(bytes) => bytes@,
                None => input@,
            },
            text is Some,
            step,
        ),
{
    match step {
        DriverStep::Unavailable => Err(Error::DriverUnavailable),
        DriverStep::Io => Err(Error::DriverIo),
        DriverStep::Stream(stream) => {
            if plan.buffers() {
                Err(Error::DriverIo)
            } else {
                Ok(ConversionOutput::Streamed(stream))
            }
        },
        DriverStep::Buffer(bytes) => Ok(ConversionOutput::Materialized(bytes)),
        _ => {
            match text {
                Some(bytes) => Ok(ConversionOutput::Materialized(bytes)),
                None => Ok(ConversionOutput::Unchanged(input)),
            }
        },
    }
}

impl<D> Pipeline<D> {
    /// The configured drivers, in their order; the first of a name wins.
    pub closed spec fn configured_drivers(&self) -> Seq<Driver> {
        self.drivers@
    }

    /// The built-in stages that are switched on.
    pub closed spec fn configured_builtin(&self) -> BuiltinStages {
        self.builtin
    }

    /// Whether line-ending normalization is verified to be reversible.
    pub closed spec fn configured_check(&self) -> CrlfRoundTripCheck {
        self.round_trip_check
    }

    /// The capability that runs a driver.
    pub closed spec fn invoker(&self) -> D {
        self.invoke
    }

    /// Whether any stage is configured for `direction`: a built-in stage, or a driver with a
    /// program for it.
    pub open spec fn has_stages(&self, direction: Direction) -> bool {
        self.configured_builtin().line_endings || self.configured_builtin().keywords
            || exists|i: int|
            0 <= i < self.configured_drivers().len() && (#[trigger] self.configured_drivers()[i]).supports(
                direction,
            )
    }

    /// The stages that `attrs` activates for `direction`: the first driver of the resolved
    /// name with a program for the direction; line endings where the stage is configured and
    /// the path has a policy; keywords where the stage is configured and the path asks for it.
    pub open spec fn plan(&self, attrs: ResolvedAttributes, direction: Direction) -> Plan {
        Plan {
            driver: match attrs.driver_name {
                Some(name) => selected(self.configured_drivers(), name@, direction),
                None => None,
            },
            eol: if self.configured_builtin().line_endings {
                attrs.eol_policy
            } else {
                None
            },
            keywords: self.configured_builtin().keywords && attrs.keyword_expand,
        }
    }

    /// Puts a configuration together.
    pub fn new(
        drivers: Vec<Driver>,
        builtin: BuiltinStages,
        round_trip_check: CrlfRoundTripCheck,
        invoke: D,
    ) -> (pipeline: Self)
        ensures
            pipeline.configured_drivers() == drivers@,
            pipeline.configured_builtin() == builtin,
            pipeline.configured_check() == round_trip_check,
            pipeline.invoker() == invoke,
    {
        Pipeline { drivers, builtin, round_trip_check, invoke }
    }

    /// The configured drivers, in their order.
    pub fn drivers(&self) -> (drivers: &Vec<Driver>)
        ensures
            drivers@ == self.configured_drivers(),
    {
        &self.drivers
    }

    /// The built-in stages that are switched on.
    pub fn builtin(&self) -> (builtin: BuiltinStages)
        ensures
            builtin == self.configured_builtin(),
    {
        self.builtin
    }

    /// The round-trip policy.
    pub fn round_trip_check(&self) -> (check: CrlfRoundTripCheck)
        ensures
            check == self.configured_check(),
    {
        self.round_trip_check
    }

    /// Tells whether any stage is configured for `direction`.
    pub fn is_configured(&self, direction: Direction) -> (b: bool)
        ensures
            b == self.has_stages(direction),
    {
        if self.builtin.line_endings || self.builtin.keywords {
            return true;
        }
        let mut i: usize = 0;
        while i < self.drivers.len()
            invariant
                i <= self.drivers.len(),
                forall|j: int| 0 <= j < i ==> !(#[trigger] self.drivers[j]).supports(direction),
            decreases self.drivers.len() - i,
        {
            if self.drivers[i].has_program(direction) {
                assert(self.configured_drivers()[i as int].supports(direction));
                return true;
            }
            i += 1;
        }
        false
    }

    /// Selects the stages that are active for a path with the attributes `attrs`.
    pub fn select_stages(&self, attrs: &ResolvedAttributes, direction: Direction) -> (plan: Plan)
        ensures
            plan == self.plan(*attrs, direction),
            plan.driver matches Some(handle) ==> handle < self.configured_drivers().len()
                && self.configured_drivers()[handle as int].supports(direction),
    {
        let driver = match &attrs.driver_name {
            Some(name) => select(&self.drivers, name, direction),
            None => None,
        };
        let eol = if self.builtin.line_endings {
            attrs.eol_policy
        } else {
            None
        };
        Plan { driver, eol, keywords: self.builtin.keywords && attrs.keyword_expand }
    }
}

impl<S, D> Pipeline<D> where
    D: Fn(&Driver, Direction, &str, &[u8], bool) -> Result<DriverOutput<S>, DriverError>,
{
    /// Whether the driver capability may be called for every configured driver in `direction`,
    /// whatever the content and whether or not a stream is accepted.
    pub open spec fn drivers_callable(&self, direction: Direction, path: &str) -> bool {
        forall|i: int, content: &[u8], allow_stream: bool|
            0 <= i < self.configured_drivers().len() && self.configured_drivers()[i].supports(
                direction,
            ) ==> #[trigger] call_requires(
                self.invoker(),
                (&self.configured_drivers()[i], direction, path, content, allow_stream),
            )
    }

    /// Whether `step` is what the driver stage of `plan` comes to on `content`: inactive
    /// without a driver, else the meaning of some answer of the driver capability.
    pub open spec fn driver_stage(
        &self,
        plan: Plan,
        direction: Direction,
        path: &str,
        content: Seq<u8>,
        step: DriverStep<S>,
    ) -> bool {
        match plan.driver {
            None => step == DriverStep::<S>::Inactive,
            Some(handle) => exists|bytes: &[u8], answer: Result<DriverOutput<S>, DriverError>|
                bytes@ == content && #[trigger] call_ensures(
                    self.invoker(),
                    (
                        &self.configured_drivers()[handle as int],
                        direction,
                        path,
                        bytes,
                        plan.streaming_capable(),
                    ),
                    answer,
                ) && step == step_of(answer, content, plan.streaming_capable()),
        }
    }

    /// Whether `res` is what a conversion of `input` into the repository yields when the
    /// attribute adapter answered `attrs`.
    pub open spec fn to_git_explained(
        &self,
        input: Seq<u8>,
        path: &str,
        attrs: Result<ResolvedAttributes, AttributeError>,
        res: Result<OutputView<S>, Failure>,
    ) -> bool {
        match attrs {
            Err(_) => res == Err::<OutputView<S>, Failure>(Failure::AttributeResolutionFailed),
            Ok(resolved) => {
                let plan = self.plan(resolved, Direction::Clean);
                if plan.is_empty() {
                    res == Ok::<OutputView<S>, Failure>(OutputView::Unchanged(input))
                } else {
                    exists|step: DriverStep<S>| #[trigger]
                        self.driver_stage(plan, Direction::Clean, path, input, step) && res
                            == to_git_outcome(self.configured_check(), plan, path@, input, step)
                }
            },
        }
    }

    /// Whether `res` is what a conversion of `input` into the worktree yields for the active
    /// stages `plan` when keywords, where they are active, were expanded with `identifier`.
    pub open spec fn to_worktree_explained(
        &self,
        plan: Plan,
        input: Seq<u8>,
        path: &str,
        identifier: Seq<u8>,
        res: Result<OutputView<S>, Failure>,
    ) -> bool {
        exists|step: DriverStep<S>| #[trigger]
            self.driver_stage(
                plan,
                Direction::Smudge,
                path,
                worktree_text(plan, input, identifier),
                step,
            ) && res == to_worktree_outcome(
                plan,
                input,
                worktree_text(plan, input, identifier),
                worktree_text_altered(plan, input, identifier),
                step,
            )
    }

    /// Whether the attribute adapter can give `path` attributes that activate keyword
    /// expansion on the way into the worktree.
    pub open spec fn may_expand_keywords<A>(&self, path: &str, attributes: A) -> bool where
        A: FnOnce(&str) -> Result<ResolvedAttributes, AttributeError>,
    {
        exists|resolved: ResolvedAttributes| #[trigger]
            call_ensures(attributes, (path,), Ok::<ResolvedAttributes, AttributeError>(resolved))
                && self.plan(resolved, Direction::Smudge).keywords
    }

    /// Whether `found` is an answer of the object lookup to the content id of `input`.
    pub open spec fn looked_up<L>(
        input: Seq<u8>,
        lookup: L,
        found: Result<Vec<u8>, NotFound>,
    ) -> bool where L: FnOnce(&[u8]) -> Result<Vec<u8>, NotFound> {
        exists|key: &[u8]|
            blob_id(input) == Some(key@) && #[trigger] call_ensures(lookup, (key,), found)
    }

    /// Runs the driver stage of `plan` on `content`.
    fn run_driver(&self, plan: Plan, direction: Direction, path: &str, content: &[u8]) -> (step:
        DriverStep<S>)
        requires
            self.drivers_callable(direction, path),
            plan.driver matches Some(handle) ==> handle < self.configured_drivers().len()
                && self.configured_drivers()[handle as int].supports(direction),
        ensures
            self.driver_stage(plan, direction, path, content@, step),
    {
        match plan.driver {
            None => DriverStep::Inactive,
            Some(handle) => {
                let allow_stream = plan.can_stream();
                let driver = &self.drivers[handle];
                assert(call_requires(
                    self.invoker(),
                    (&self.configured_drivers()[handle as int], direction, path, content, allow_stream),
                ));
                let answer = (self.invoke)(driver, direction, path, content, allow_stream);
                let ghost given = answer;
                let step = driver_step(answer, content, allow_stream);
                assert(call_ensures(
                    self.invoker(),
                    (&self.configured_drivers()[handle as int], direction, path, content, allow_stream),
                    given,
                ));
                step
            },
        }
    }

    /// Converts the worktree content `input` of `path` to the form stored in the repository.
    ///
    /// Without a stage configured for cleaning the input comes back at once and `attributes`
    /// is not called. Otherwise `attributes` resolves the path once; where it selects no stage
    /// the input comes back unchanged. Else the driver runs first, then line endings are
    /// normalized and keywords collapsed. `lookup` is never called in this direction.
    pub fn convert_to_git<'a, A, L>(
        &self,
        input: &'a [u8],
        path: &str,
        attributes: A,
        lookup: L,
    ) -> (res: Result<ConversionOutput<'a, S>, Error>) where
        A: FnOnce(&str) -> Result<ResolvedAttributes, AttributeError>,
        L: FnOnce(&[u8]) -> Result<Vec<u8>, NotFound>,

        requires
            self.has_stages(Direction::Clean) ==> call_requires(attributes, (path,)),
            self.drivers_callable(Direction::Clean, path),
        ensures
            !self.has_stages(Direction::Clean) ==> outcome_view(res) == Ok::<OutputView<S>, Failure>(
                OutputView::Unchanged(input@),
            ),
            self.has_stages(Direction::Clean) ==> exists|attrs: Result<ResolvedAttributes, AttributeError>|
                #[trigger] call_ensures(attributes, (path,), attrs) && self.to_git_explained(
                    input@,
                    path,
                    attrs,
                    outcome_view(res),
                ),
    {
        if !self.is_configured(Direction::Clean) {
            return Ok(ConversionOutput::Unchanged(input));
        }
        let resolved = attributes(path);
        let ghost attrs = resolved;
        match resolved {
            Err(_) => Err(Error::AttributeResolutionFailed),
            Ok(resolved) => {
                let plan = self.select_stages(&resolved, Direction::Clean);
                if plan.no_stage() {
                    return Ok(ConversionOutput::Unchanged(input));
                }
                let step = self.run_driver(plan, Direction::Clean, path, input);
                let ghost reached = step;
                let res = finish_to_git(self.round_trip_check, plan, path, input, step);
                assert(self.driver_stage(plan, Direction::Clean, path, input@, reached));
                assert(self.to_git_explained(input@, path, attrs, outcome_view(res)));
                res
            },
        }
    }

    /// Converts the stored content `input` of `path` to its worktree form.
    ///
    /// Without a stage configured for smudging the input comes back at once and `attributes`
    /// is not called. Otherwise `attributes` resolves the path once; where it selects no stage
    /// the input comes back unchanged. Else keywords are expanded first, with the identifier
    /// that `lookup` returns for the content id of `input`; then line endings are converted;
    /// the driver runs last. `lookup` is called once where keyword expansion is active and not
    /// at all where it is not.
    pub fn convert_to_worktree<'a, A, L>(
        &self,
        input: &'a [u8],
        path: &str,
        attributes: A,
        lookup: L,
    ) -> (res: Result<ConversionOutput<'a, S>, Error>) where
        A: FnOnce(&str) -> Result<ResolvedAttributes, AttributeError>,
        L: FnOnce(&[u8]) -> Result<Vec<u8>, NotFound>,

        requires
            self.has_stages(Direction::Smudge) ==> call_requires(attributes, (path,)),
            self.drivers_callable(Direction::Smudge, path),
            self.may_expand_keywords(path, attributes) ==> forall|key: &[u8]| #[trigger]
                call_requires(lookup, (key,)),
        ensures
            !self.has_stages(Direction::Smudge) ==> outcome_view(res) == Ok::<OutputView<S>, Failure>(
                OutputView::Unchanged(input@),
            ),
            self.has_stages(Direction::Smudge) ==> exists|attrs: Result<ResolvedAttributes, AttributeError>|
                #[trigger] call_ensures(attributes, (path,), attrs) && match attrs {
                    Err(_) => outcome_view(res) == Err::<OutputView<S>, Failure>(
                        Failure::AttributeResolutionFailed,
                    ),
                    Ok(resolved) => {
                        let plan = self.plan(resolved, Direction::Smudge);
                        if plan.is_empty() {
                            outcome_view(res) == Ok::<OutputView<S>, Failure>(
                                OutputView::Unchanged(input@),
                            )
                        } else if !plan.keywords {
                            self.to_worktree_explained(
                                plan,
                                input@,
                                path,
                                Seq::<u8>::empty(),
                                outcome_view(res),
                            )
                        } else if blob_id(input@) is None {
                            outcome_view(res) == Err::<OutputView<S>, Failure>(
                                Failure::ObjectLookupFailed,
                            )
                        } else {
                            exists|found: Result<Vec<u8>, NotFound>| #[trigger]
                                Self::looked_up(input@, lookup, found) && match found {
                                    Err(_) => outcome_view(res) == Err::<OutputView<S>, Failure>(
                                        Failure::ObjectLookupFailed,
                                    ),
                                    Ok(identifier) => self.to_worktree_explained(
                                        plan,
                                        input@,
                                        path,
                                        identifier@,
                                        outcome_view(res),
                                    ),
                                }
                        }
                    },
                },
    {
        if !self.is_configured(Direction::Smudge) {
            return Ok(ConversionOutput::Unchanged(input));
        }
        let resolved = attributes(path);
        let ghost attrs = resolved;
        match resolved {
            Err(_) => Err(Error::AttributeResolutionFailed),
            Ok(resolved) => {
                let plan = self.select_stages(&resolved, Direction::Smudge);
                if plan.no_stage() {
                    return Ok(ConversionOutput::Unchanged(input));
                }
                if plan.keywords {
                    let id = match compute_blob_id(input) {
                        Some(id) => id,
                        None => {
                            return Err(Error::ObjectLookupFailed);
                        },
                    };
                    let answer = lookup(id.as_slice());
                    let ghost found = answer;
                    assert(Self::looked_up(input@, lookup, found));
                    match answer {
                        Err(_) => Err(Error::ObjectLookupFailed),
                        Ok(identifier) => self.smudge_with(
                            plan,
                            input,
                            path,
                            identifier.as_slice(),
                        ),
                    }
                } else {
                    let identifier: Vec<u8> = Vec::new();
                    self.smudge_with(plan, input, path, identifier.as_slice())
                }
            },
        }
    }

    /// Runs the stages of `plan` on stored content once the identifier for keyword expansion
    /// is at hand.
    fn smudge_with<'a>(&self, plan: Plan, input: &'a [u8], path: &str, identifier: &[u8]) -> (res:
        Result<ConversionOutput<'a, S>, Error>)
        requires
            self.drivers_callable(Direction::Smudge, path),
            plan.driver matches Some(handle) ==> handle < self.configured_drivers().len()
                && self.configured_drivers()[handle as int].supports(Direction::Smudge),
        ensures
            self.to_worktree_explained(plan, input@, path, identifier@, outcome_view(res)),
    {
        let text = apply_worktree_text(plan, input, identifier);
        let step = match &text {
            Some(bytes) => self.run_driver(plan, Direction::Smudge, path, bytes.as_slice()),
            None => self.run_driver(plan, Direction::Smudge, path, input),
        };
        let ghost reached = step;
        let res = finish_to_worktree(plan, input, text, step);
        assert(self.driver_stage(
            plan,
            Direction::Smudge,
            path,
            worktree_text(plan, input@, identifier@),
            reached,
        ));
        res
    }
}

/// Attributes that name no configured driver with a program for the direction and ask for no
/// built-in transform activate no stage, so that the input comes back unchanged.
pub proof fn law_no_match_selects_nothing<D>(
    pipeline: Pipeline<D>,
    attrs: ResolvedAttributes,
    direction: Direction,
)
    requires
        attrs.driver_name matches Some(name) ==> forall|i: int|
            0 <= i < pipeline.configured_drivers().len() ==> !(
            #[trigger] pipeline.configured_drivers()[i]).answers(name@, direction),
        attrs.eol_policy is None,
        !attrs.keyword_expand,
    ensures
        pipeline.plan(attrs, direction).is_empty(),
{
    if attrs.driver_name is Some {
        assert(pipeline.configured_drivers().len() == pipeline.drivers.len());
        law_first_driver_wins(pipeline.configured_drivers(), attrs.driver_name->0@, direction);
    }
}

/// A conversion can hand on a stream exactly when it has an active stage and every active
/// stage is a driver.
pub proof fn law_streaming_needs_drivers_only(plan: Plan, direction: Direction)
    ensures
        plan.streaming_capable() <==> plan.stages(direction).len() > 0 && forall|i: int|
            0 <= i < plan.stages(direction).len() ==> !(#[trigger] plan.stages(
                direction,
            )[i]).is_builtin(),
{
    let stages = plan.stages(direction);
    if plan.eol is Some {
        let at = match direction {
            Direction::Clean => if plan.driver is Some {
                1int
            } else {
                0int
            },
            Direction::Smudge => if plan.keywords {
                1int
            } else {
                0int
            },
        };
        assert(stages[at].is_builtin());
    } else if plan.keywords {
        let at = match direction {
            Direction::Clean => if plan.driver is Some {
                1int
            } else {
                0int
            },
            Direction::Smudge => 0int,
        };
        assert(stages[at].is_builtin());
    }
}

/// The stages run on the way into the worktree in the reverse of the order in which they run
/// on the way into the repository.
pub proof fn law_smudge_reverses_clean(plan: Plan)
    ensures
        plan.stages(Direction::Smudge) == plan.stages(Direction::Clean).reverse(),
{
    assert(plan.stages(Direction::Smudge) =~= plan.stages(Direction::Clean).reverse());
}

/// What a built-in stage makes of the content `x` in `direction`; a driver is no text
/// transform and leaves `x` to its program.
pub open spec fn stage_text(stage: Stage, direction: Direction, x: Seq<u8>, identifier: Seq<u8>) -> Seq<
    u8,
> {
    match (stage, direction) {
        (Stage::LineEndings(policy), Direction::Clean) => to_git_text(x, policy),
        (Stage::LineEndings(_), Direction::Smudge) => to_worktree_text(x),
        (Stage::Keywords, Direction::Clean) => collapsed(x),
        (Stage::Keywords, Direction::Smudge) => expanded(x, identifier),
        (Stage::Driver(_), _) => x,
    }
}

/// The content `x` after the built-in stages among `stages` acted on it one after the other,
/// each on what the one before it made.
pub open spec fn staged_text(
    stages: Seq<Stage>,
    direction: Direction,
    x: Seq<u8>,
    identifier: Seq<u8>,
) -> Seq<u8>
    decreases stages.len(),
{
    if stages.len() == 0 {
        x
    } else {
        stage_text(
            stages.last(),
            direction,
            staged_text(stages.drop_last(), direction, x, identifier),
            identifier,
        )
    }
}

/// The built-in stages act in the order of the stage list, each on the output of the one
/// before it: that is what the text of a conversion is, in either direction.
pub proof fn law_text_follows_stage_order(
    plan: Plan,
    path: Seq<char>,
    x: Seq<u8>,
    identifier: Seq<u8>,
)
    requires
        plan.driver is None,
    ensures
        git_text(CrlfRoundTripCheck::Skip, plan, path, x) == Ok::<Seq<u8>, Failure>(
            staged_text(plan.stages(Direction::Clean), Direction::Clean, x, identifier),
        ),
        worktree_text(plan, x, identifier) == staged_text(
            plan.stages(Direction::Smudge),
            Direction::Smudge,
            x,
            identifier,
        ),
{
    reveal_with_fuel(staged_text, 3);
    let clean = plan.stages(Direction::Clean);
    let smudge = plan.stages(Direction::Smudge);
    if plan.eol is Some && plan.keywords {
        assert(clean.drop_last() =~= seq![Stage::LineEndings(plan.eol->0)]);
        assert(clean.drop_last().drop_last() =~= Seq::<Stage>::empty());
        assert(smudge.drop_last() =~= seq![Stage::Keywords]);
        assert(smudge.drop_last().drop_last() =~= Seq::<Stage>::empty());
    } else if plan.eol is Some || plan.keywords {
        assert(clean.drop_last() =~= Seq::<Stage>::empty());
        assert(smudge.drop_last() =~= Seq::<Stage>::empty());
    }
}

/// Where only a driver is active and it answers with a stream of altered content, the
/// conversion hands on that very stream, in either direction, and materializes nothing.
pub proof fn law_driver_stream_is_handed_on<S>(
    check: CrlfRoundTripCheck,
    plan: Plan,
    path: Seq<char>,
    input: Seq<u8>,
    text: Seq<u8>,
    altered: bool,
    answer: Result<DriverOutput<S>, DriverError>,
    stream: S,
)
    requires
        plan.streaming_capable(),
        answer matches Ok(output) && output.changed && output.payload == DriverPayload::Stream(
            stream,
        ),
    ensures
        to_git_outcome(check, plan, path, input, step_of(answer, input, plan.streaming_capable())) == Ok::<
            OutputView<S>,
            Failure,
        >(OutputView::Streamed(stream)),
        to_worktree_outcome(plan, input, text, altered, step_of(answer, text, plan.streaming_capable()))
            == Ok::<OutputView<S>, Failure>(OutputView::Streamed(stream)),
{
}

/// Where a built-in text stage is active, a conversion never hands on a stream: whatever the
/// driver stage came to, a result of altered content is a buffer in memory.
pub proof fn law_builtin_stage_materializes<S>(
    check: CrlfRoundTripCheck,
    plan: Plan,
    path: Seq<char>,
    input: Seq<u8>,
    text: Seq<u8>,
    altered: bool,
    step: DriverStep<S>,
)
    requires
        plan.has_builtin(),
    ensures
        to_git_outcome(check, plan, path, input, step) matches Ok(output) ==> !(output is Streamed)
            && (output.changed() ==> output is Materialized),
        to_worktree_outcome(plan, input, text, altered, step) matches Ok(output) ==> !(output
            is Streamed) && (output.changed() ==> output is Materialized),
{
}

/// Content that normalization cannot restore is refused with the path of its file where the
/// round trip is checked, and is normalized without any error where the check is skipped.
/// Content with mixed line endings is of that kind under plain normalization: a line feed at
/// `bare` that no carriage return precedes is enough.
pub proof fn law_round_trip_is_enforced<S>(
    plan: Plan,
    path: Seq<char>,
    input: Seq<u8>,
    policy: Policy,
    step: DriverStep<S>,
    bare: int,
)
    requires
        step is Inactive || step is NoEffect,
        plan.eol == Some(policy),
        !round_trips(input, policy) || (policy == Policy::Normalize && is_bare_lf(input, bare)),
    ensures
        to_git_outcome(CrlfRoundTripCheck::Fail, plan, path, input, step) == Err::<
            OutputView<S>,
            Failure,
        >(Failure::RoundTripMismatch(path)),
        to_git_outcome(CrlfRoundTripCheck::Skip, plan, path, input, step) matches Ok(output)
            && output.bytes() == Some(
            if plan.keywords {
                collapsed(to_git_text(input, policy))
            } else {
                to_git_text(input, policy)
            },
        ),
{
    if policy == Policy::Normalize && is_bare_lf(input, bare) {
        law_bare_lf_breaks_round_trip(input, bare);
    }
}

/// With line-ending normalization as the only active stage, content that round-trips comes
/// back byte for byte when it is converted into the repository and from there into the
/// worktree again. Content whose lines all end in CRLF round-trips under plain normalization.
pub proof fn law_clean_then_smudge_restores(
    check: CrlfRoundTripCheck,
    plan: Plan,
    path: Seq<char>,
    input: Seq<u8>,
    policy: Policy,
    identifier: Seq<u8>,
)
    requires
        plan.driver is None,
        plan.eol == Some(policy),
        !plan.keywords,
        round_trips(input, policy) || (policy == Policy::Normalize && has_only_crlf(input)),
    ensures
        to_git_outcome::<()>(check, plan, path, input, DriverStep::Inactive) matches Ok(stored)
            && stored.bytes() matches Some(clean) && to_worktree_outcome::<()>(
            plan,
            clean,
            worktree_text(plan, clean, identifier),
            worktree_text_altered(plan, clean, identifier),
            DriverStep::Inactive,
        ) matches Ok(restored) && restored.bytes() == Some(input),
{
    if policy == Policy::Normalize && has_only_crlf(input) {
        law_uniform_crlf_round_trips(input);
    }
}

} // verus!
