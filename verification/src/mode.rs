//! The mode selector: which of its three modes a run takes, and what the run
//! consists of in that mode.

use crate::config::Config;
use vstd::prelude::*;

verus! {

/// What a run does. The modes exclude one another; a run has one, chosen at
/// startup and kept.
#[derive(Clone, Copy, Debug, PartialEq, Eq, Structural)]
pub enum OperatingMode {
    /// Print the report once.
    View,
    /// Follow the chain's events.
    Subscribe,
    /// Scan and report, then stay up under supervision. The default.
    Flakes,
}

/// The three pieces of work that a mode can call for. What they do is not
/// this library's business; that they are called, and when, is.
#[derive(Clone, Copy, Debug, PartialEq, Eq, Structural)]
pub enum Collaborator {
    /// Prints the report.
    ViewReport,
    /// Subscribes to the chain's events.
    SubscribeToEvents,
    /// Scans the chain and reports.
    ScanAndReport,
}

/// One step of a run.
#[derive(Clone, Copy, Debug, PartialEq, Eq, Structural)]
pub enum LaunchStep {
    /// Call this collaborator and wait for it to return.
    Invoke(Collaborator),
    /// Make a cancellation signal and run under supervision until the
    /// supervisor says to leave.
    Supervise,
    /// End the process.
    Exit,
}

/// How often `step` occurs among `steps`.
pub open spec fn occurrences(steps: Seq<LaunchStep>, step: LaunchStep) -> nat
    decreases steps.len(),
{
    if steps.len() == 0 {
        0
    } else {
        let here: nat = if steps.last() == step {
            1
        } else {
            0
        };
        occurrences(steps.drop_last(), step) + here
    }
}

impl OperatingMode {
    /// The mode of a run with this configuration. `only_view` comes first,
    /// then `is_mode_era`; a run with neither flag takes the default.
    pub open spec fn of(config: Config) -> OperatingMode {
        if config.only_view {
            OperatingMode::View
        } else if config.is_mode_era {
            OperatingMode::Subscribe
        } else {
            OperatingMode::Flakes
        }
    }

    /// The collaborator that a run in this mode calls.
    pub open spec fn collaborator_spec(self) -> Collaborator {
        match self {
            OperatingMode::View => Collaborator::ViewReport,
            OperatingMode::Subscribe => Collaborator::SubscribeToEvents,
            OperatingMode::Flakes => Collaborator::ScanAndReport,
        }
    }

    /// Whether a run in this mode goes on under supervision once its
    /// collaborator has returned. Only the default mode does.
    pub open spec fn is_supervised_spec(self) -> bool {
        self == OperatingMode::Flakes
    }

    /// The steps of a run in this mode, in order: the call of the mode's
    /// collaborator, supervision where the mode has it, and the exit.
    pub open spec fn plan_spec(self) -> Seq<LaunchStep> {
        if self.is_supervised_spec() {
            seq![
                LaunchStep::Invoke(self.collaborator_spec()),
                LaunchStep::Supervise,
                LaunchStep::Exit,
            ]
        } else {
            seq![LaunchStep::Invoke(self.collaborator_spec()), LaunchStep::Exit]
        }
    }

    /// Selects the mode of a run from its configuration.
    pub fn select(config: &Config) -> (mode: OperatingMode)
        ensures
            mode == OperatingMode::of(*config),
    {
        if config.only_view {
            OperatingMode::View
        } else if config.is_mode_era {
            OperatingMode::Subscribe
        } else {
            OperatingMode::Flakes
        }
    }

    /// The collaborator that a run in this mode calls.
    pub fn collaborator(self) -> (collaborator: Collaborator)
        ensures
            collaborator == self.collaborator_spec(),
    {
        match self {
            OperatingMode::View => Collaborator::ViewReport,
            OperatingMode::Subscribe => Collaborator::SubscribeToEvents,
            OperatingMode::Flakes => Collaborator::ScanAndReport,
        }
    }

    /// Whether a run in this mode goes on under supervision.
    pub fn is_supervised(self) -> (supervised: bool)
        ensures
            supervised == self.is_supervised_spec(),
    {
        match self {
            OperatingMode::Flakes => true,
            _ => false,
        }
    }

    /// The steps of a run in this mode, in order.
    pub fn plan(self) -> (steps: Vec<LaunchStep>)
        ensures
            steps@ == self.plan_spec(),
    {
        let mut steps: Vec<LaunchStep> = Vec::new();
        steps.push(LaunchStep::Invoke(self.collaborator()));
        if self.is_supervised() {
            steps.push(LaunchStep::Supervise);
        }
        steps.push(LaunchStep::Exit);
        assert(steps@ =~= self.plan_spec());
        steps
    }
}

/// The plan of every mode calls the mode's own collaborator once and no
/// other, before anything else; it supervises once if the mode is supervised
/// and never if it is not; and it ends with the one exit.
pub proof fn lemma_plan_shape(mode: OperatingMode, other: Collaborator)
    ensures
        mode.plan_spec()[0] == LaunchStep::Invoke(mode.collaborator_spec()),
        mode.plan_spec().last() == LaunchStep::Exit,
        occurrences(mode.plan_spec(), LaunchStep::Invoke(other)) == (if other
            == mode.collaborator_spec() {
            1nat
        } else {
            0nat
        }),
        occurrences(mode.plan_spec(), LaunchStep::Supervise) == (if mode.is_supervised_spec() {
            1nat
        } else {
            0nat
        }),
        occurrences(mode.plan_spec(), LaunchStep::Exit) == 1,
        mode.is_supervised_spec() ==> mode.plan_spec()[1] == LaunchStep::Supervise,
{
    let plan = mode.plan_spec();
    lemma_occurrences_unfold(plan, LaunchStep::Invoke(other));
    lemma_occurrences_unfold(plan, LaunchStep::Supervise);
    lemma_occurrences_unfold(plan, LaunchStep::Exit);
}

/// Counts the occurrences of a step in a plan of two or three steps, one
/// step at a time.
proof fn lemma_occurrences_unfold(steps: Seq<LaunchStep>, step: LaunchStep)
    requires
        2 <= steps.len() <= 3,
    ensures
        occurrences(steps, step) == (if steps[0] == step {
            1nat
        } else {
            0nat
        }) + (if steps[1] == step {
            1nat
        } else {
            0nat
        }) + (if steps.len() == 3 && steps[2] == step {
            1nat
        } else {
            0nat
        }),
{
    reveal_with_fuel(occurrences, 4);
    if steps.len() == 3 {
        assert(steps.drop_last().drop_last().drop_last().len() == 0);
        assert(steps.drop_last().last() == steps[1]);
        assert(steps.drop_last().drop_last().last() == steps[0]);
    } else {
        assert(steps.drop_last().drop_last().len() == 0);
        assert(steps.drop_last().last() == steps[0]);
    }
}

/// With `only_view` set, whatever `is_mode_era` says, the run is a view run:
/// it calls the view collaborator once, calls no other, and never comes
/// under supervision.
pub proof fn lemma_view_comes_first(config: Config, other: Collaborator)
    requires
        config.only_view,
    ensures
        OperatingMode::of(config) == OperatingMode::View,
        OperatingMode::of(config).plan_spec() == seq![
            LaunchStep::Invoke(Collaborator::ViewReport),
            LaunchStep::Exit,
        ],
        occurrences(
            OperatingMode::of(config).plan_spec(),
            LaunchStep::Invoke(Collaborator::ViewReport),
        ) == 1,
        other != Collaborator::ViewReport ==> occurrences(
            OperatingMode::of(config).plan_spec(),
            LaunchStep::Invoke(other),
        ) == 0,
        occurrences(OperatingMode::of(config).plan_spec(), LaunchStep::Supervise) == 0,
        !OperatingMode::of(config).is_supervised_spec(),
{
    lemma_plan_shape(OperatingMode::View, other);
    lemma_plan_shape(OperatingMode::View, Collaborator::ViewReport);
}

/// With `only_view` clear and `is_mode_era` set, the run is a subscribe run:
/// it calls the subscribe collaborator once, calls no other, and never comes
/// under supervision.
pub proof fn lemma_era_comes_second(config: Config, other: Collaborator)
    requires
        !config.only_view,
        config.is_mode_era,
    ensures
        OperatingMode::of(config) == OperatingMode::Subscribe,
        OperatingMode::of(config).plan_spec() == seq![
            LaunchStep::Invoke(Collaborator::SubscribeToEvents),
            LaunchStep::Exit,
        ],
        occurrences(
            OperatingMode::of(config).plan_spec(),
            LaunchStep::Invoke(Collaborator::SubscribeToEvents),
        ) == 1,
        other != Collaborator::SubscribeToEvents ==> occurrences(
            OperatingMode::of(config).plan_spec(),
            LaunchStep::Invoke(other),
        ) == 0,
        occurrences(OperatingMode::of(config).plan_spec(), LaunchStep::Supervise) == 0,
        !OperatingMode::of(config).is_supervised_spec(),
{
    lemma_plan_shape(OperatingMode::Subscribe, other);
    lemma_plan_shape(OperatingMode::Subscribe, Collaborator::SubscribeToEvents);
}

/// With both flags clear the run takes the default mode: it calls the scan
/// collaborator once and no other, and then comes under supervision, once.
pub proof fn lemma_default_is_supervised(config: Config, other: Collaborator)
    requires
        !config.only_view,
        !config.is_mode_era,
    ensures
        OperatingMode::of(config) == OperatingMode::Flakes,
        OperatingMode::of(config).plan_spec() == seq![
            LaunchStep::Invoke(Collaborator::ScanAndReport),
            LaunchStep::Supervise,
            LaunchStep::Exit,
        ],
        occurrences(
            OperatingMode::of(config).plan_spec(),
            LaunchStep::Invoke(Collaborator::ScanAndReport),
        ) == 1,
        other != Collaborator::ScanAndReport ==> occurrences(
            OperatingMode::of(config).plan_spec(),
            LaunchStep::Invoke(other),
        ) == 0,
        occurrences(OperatingMode::of(config).plan_spec(), LaunchStep::Supervise) == 1,
        OperatingMode::of(config).is_supervised_spec(),
{
    lemma_plan_shape(OperatingMode::Flakes, other);
    lemma_plan_shape(OperatingMode::Flakes, Collaborator::ScanAndReport);
}

} // verus!
