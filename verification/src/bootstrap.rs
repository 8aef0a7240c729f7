//! The order in which the loader is brought up.
//!
//! Bringing the loader up is a fixed sequence of stages, each of which may
//! fail. The stages themselves belong to the host: it runs the stage that
//! [`init`] names and hands back what came of it. The first failure ends the
//! sequence, and [`startup`] turns it into the report that the host shows
//! before it gives up.

use vstd::prelude::*;
use vstd::string::StringExecFns;

verus! {

/// The stages of initialization, in the order in which they run.
#[derive(Debug, Clone, Copy, PartialEq, Eq)]
pub enum InitStage {
    /// The console is opened.
    Console,
    /// The logger is set up.
    Logger,
    /// The hook that starts the managed runtime is installed.
    Hooks,
    /// The standard handles are detached from the console.
    NullHandles,
}

/// One step of initialization.
#[derive(Debug, PartialEq, Eq)]
pub enum InitStep {
    /// The host runs this stage and reports its outcome.
    Run(InitStage),
    /// Initialization is over; a failure carries the reason that the failed
    /// stage gave.
    Done(Result<(), String>),
}

impl InitStage {
    /// The place of the stage in the sequence, from zero.
    pub open spec fn position(self) -> int {
        match self {
            InitStage::Console => 0,
            InitStage::Logger => 1,
            InitStage::Hooks => 2,
            InitStage::NullHandles => 3,
        }
    }
}

/// The stages in the order in which they run.
pub open spec fn init_order() -> Seq<InitStage> {
    seq![InitStage::Console, InitStage::Logger, InitStage::Hooks, InitStage::NullHandles]
}

/// The step that follows when `finished` is the stage that has just run, with
/// its outcome, or `None` when nothing has run yet.
pub open spec fn init_next(finished: Option<(InitStage, Result<(), String>)>) -> InitStep {
    match finished {
        None => InitStep::Run(init_order()[0]),
        Some((_, Err(reason))) => InitStep::Done(Err(reason)),
        Some((stage, Ok(_))) => if stage.position() + 1 < init_order().len() {
            InitStep::Run(init_order()[stage.position() + 1])
        } else {
            InitStep::Done(Ok(()))
        },
    }
}

/// The file name of the executable into which the loader makes its way.
pub open spec fn host_executable() -> Seq<char> {
    "GenshinImpact.exe"@
}

/// The prefix that [`startup`] puts before the reason of a failure.
pub open spec fn failure_prefix() -> Seq<char> {
    "Failed to initialize MelonLoader: "@
}

/// Decides, when the library is attached to a process, whether the loader
/// starts in it.
///
/// `exe_name` is the file name of the process's executable, or `None` when
/// the host could not find it out. The loader starts only in the process
/// whose executable bears the name [`host_executable`], compared letter for
/// letter. Anywhere else the answer is `false`, and the host starts nothing.
pub fn init_filter(exe_name: Option<&str>) -> (attach: bool)
    ensures
        attach == (exe_name matches Some(name) && name@ == host_executable()),
{
    match exe_name {
        None => false,
        Some(name) => name.to_owned() == String::from_str("GenshinImpact.exe"),
    }
}

/// Says what initialization does next.
///
/// With `None` the first stage is to run. After a stage that succeeded the
/// next stage in the order is to run, and after the last one initialization
/// is done. After a stage that failed initialization is done at once, with
/// the reason of that stage unchanged: no later stage runs.
pub fn init(finished: Option<(InitStage, Result<(), String>)>) -> (step: InitStep)
    ensures
        step == init_next(finished),
        finished is None ==> step == InitStep::Run(InitStage::Console),
        finished matches Some((_, Err(reason))) ==> step == InitStep::Done(Err(reason)),
        finished matches Some((stage, Ok(_))) ==> step == (match stage {
            InitStage::Console => InitStep::Run(InitStage::Logger),
            InitStage::Logger => InitStep::Run(InitStage::Hooks),
            InitStage::Hooks => InitStep::Run(InitStage::NullHandles),
            InitStage::NullHandles => InitStep::Done(Ok(())),
        }),
{
    match finished {
        None => InitStep::Run(InitStage::Console),
        Some((_, Err(reason))) => InitStep::Done(Err(reason)),
        Some((stage, Ok(_))) => match stage {
            InitStage::Console => InitStep::Run(InitStage::Logger),
            InitStage::Logger => InitStep::Run(InitStage::Hooks),
            InitStage::Hooks => InitStep::Run(InitStage::NullHandles),
            InitStage::NullHandles => InitStep::Done(Ok(())),
        },
    }
}

/// Turns the outcome of initialization into the outcome of starting up.
///
/// Success stays success. A failure becomes the report for the host to show:
/// the reason with [`failure_prefix`] before it.
pub fn startup(outcome: Result<(), String>) -> (res: Result<(), String>)
    ensures
        outcome is Ok <==> res is Ok,
        outcome matches Err(reason) ==> (res matches Err(report) && report@ == failure_prefix()
            + reason@),
{
    match outcome {
        Ok(_) => Ok(()),
        Err(reason) => {
            let report = String::from_str("Failed to initialize MelonLoader: ").concat(
                reason.as_str(),
            );
            Err(report)
        },
    }
}

/// The stages that run from `step` on, in order, when each stage ends as
/// `outcomes` says and at most `limit` stages run.
pub open spec fn init_stages(
    step: InitStep,
    outcomes: spec_fn(InitStage) -> Result<(), String>,
    limit: nat,
) -> Seq<InitStage>
    decreases limit,
{
    match step {
        InitStep::Done(_) => Seq::empty(),
        InitStep::Run(stage) => if limit == 0 {
            Seq::empty()
        } else {
            seq![stage] + init_stages(
                init_next(Some((stage, outcomes(stage)))),
                outcomes,
                (limit - 1) as nat,
            )
        },
    }
}

/// The outcome of initialization from `step` on, when each stage ends as
/// `outcomes` says, if it is over within `limit` stages.
pub open spec fn init_result(
    step: InitStep,
    outcomes: spec_fn(InitStage) -> Result<(), String>,
    limit: nat,
) -> Option<Result<(), String>>
    decreases limit,
{
    match step {
        InitStep::Done(result) => Some(result),
        InitStep::Run(stage) => if limit == 0 {
            None
        } else {
            init_result(init_next(Some((stage, outcomes(stage)))), outcomes, (limit - 1) as nat)
        },
    }
}

/// The number of stages that run when each stage ends as `outcomes` says: all
/// of those before the first failure, and the one that fails.
pub open spec fn stages_run(outcomes: spec_fn(InitStage) -> Result<(), String>) -> nat {
    if outcomes(InitStage::Console) is Err {
        1
    } else if outcomes(InitStage::Logger) is Err {
        2
    } else if outcomes(InitStage::Hooks) is Err {
        3
    } else {
        4
    }
}

/// Initialization runs the stages in their order and stops with the first
/// one that fails. It succeeds exactly when all four stages succeed, and it
/// fails with the outcome of the stage that ran last.
pub proof fn lemma_init_run(outcomes: spec_fn(InitStage) -> Result<(), String>)
    ensures
        init_stages(init_next(None), outcomes, 4) == init_order().take(
            stages_run(outcomes) as int,
        ),
        stages_run(outcomes) == 4 && outcomes(InitStage::NullHandles) is Ok ==> init_result(
            init_next(None),
            outcomes,
            4,
        ) == Some(Ok::<(), String>(())),
        !(stages_run(outcomes) == 4 && outcomes(InitStage::NullHandles) is Ok) ==> init_result(
            init_next(None),
            outcomes,
            4,
        ) == Some(outcomes(init_order()[stages_run(outcomes) - 1])),
{
    reveal_with_fuel(init_stages, 5);
    reveal_with_fuel(init_result, 5);
    assert(init_stages(init_next(None), outcomes, 4) =~= init_order().take(
        stages_run(outcomes) as int,
    ));
}

} // verus!
