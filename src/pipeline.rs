//! The deployment pipeline as a state machine: each call decides the next
//! outside action (download, transfer, install) from the outcome of the
//! last one, and stops at the first failure.

use vstd::prelude::*;

verus! {

/// Where the downloaded package is written on this machine.
pub const SCRATCH_PATH: &'static str = "/tmp/app.apk";

/// Where the package is placed on the device.
pub const DEVICE_PATH: &'static str = "/data/local/tmp/app.apk";

/// The address of the device bridge server, as four octets.
pub const DEVICE_HOST: [u8; 4] = [127, 0, 0, 1];

/// The port of the device bridge server.
pub const DEVICE_PORT: u16 = 5037;

/// An outside step that the caller must perform and report on.
#[derive(Clone, Copy, Debug, PartialEq, Eq, Structural)]
pub enum Action {
    /// Fetch the asset's bytes from the registry into the scratch file.
    Download { asset_id: i32 },
    /// Push the scratch file to the device path.
    Transfer,
    /// Run the device's package install on the device path.
    Install,
}

/// Why a run stopped.
#[derive(Debug, PartialEq, Eq)]
pub enum PipelineError {
    /// The release has no installable asset; nothing was attempted.
    NoInstallableAsset,
    DownloadFailed(String),
    TransferFailed(String),
    InstallFailed(String),
}

/// What a run asks of its caller next.
#[derive(Debug, PartialEq, Eq)]
pub enum Step {
    /// Perform this action and report its outcome.
    Perform(Action),
    /// The run is over, with this result.
    Done(Result<(), PipelineError>),
}

/// The action whose outcome a running pipeline waits for.
#[derive(Clone, Copy, Debug, PartialEq, Eq, Structural)]
pub enum Stage {
    Downloading,
    Transferring,
    Installing,
}

/// A run under way: the asset it installs and the stage it is at.
#[derive(Clone, Copy, Debug, PartialEq, Eq, Structural)]
pub struct Pipeline {
    pub asset_id: i32,
    pub stage: Stage,
}

/// The run that starts for an item with installable asset `asset`, and its
/// first step.
pub open spec fn start_spec(asset: Option<i32>) -> (Option<Pipeline>, Step) {
    match asset {
        None => (None, Step::Done(Err(PipelineError::NoInstallableAsset))),
        Some(id) => (
            Some(Pipeline { asset_id: id, stage: Stage::Downloading }),
            Step::Perform(Action::Download { asset_id: id }),
        ),
    }
}

/// The error for a failure at `stage` with cause `cause`.
pub open spec fn failure_at(stage: Stage, cause: String) -> PipelineError {
    match stage {
        Stage::Downloading => PipelineError::DownloadFailed(cause),
        Stage::Transferring => PipelineError::TransferFailed(cause),
        Stage::Installing => PipelineError::InstallFailed(cause),
    }
}

/// The run that continues from `p` once its action ended with `outcome`,
/// and its next step.
pub open spec fn advance_spec(p: Pipeline, outcome: Result<(), String>) -> (Option<Pipeline>, Step) {
    match outcome {
        Err(cause) => (None, Step::Done(Err(failure_at(p.stage, cause)))),
        Ok(()) => match p.stage {
            Stage::Downloading => (
                Some(Pipeline { stage: Stage::Transferring, ..p }),
                Step::Perform(Action::Transfer),
            ),
            Stage::Transferring => (
                Some(Pipeline { stage: Stage::Installing, ..p }),
                Step::Perform(Action::Install),
            ),
            Stage::Installing => (None, Step::Done(Ok(()))),
        },
    }
}

/// The actions that a step asks for.
pub open spec fn performed(step: Step) -> Seq<Action> {
    match step {
        Step::Perform(a) => seq![a],
        Step::Done(_) => seq![],
    }
}

/// The actions asked for when the run `p` is fed `outcomes` in order, until
/// it ends or the outcomes run out.
pub open spec fn actions_after(p: Option<Pipeline>, outcomes: Seq<Result<(), String>>) -> Seq<Action>
    decreases outcomes.len(),
{
    match p {
        None => seq![],
        Some(p) => if outcomes.len() == 0 {
            seq![]
        } else {
            let (q, step) = advance_spec(p, outcomes[0]);
            performed(step) + actions_after(q, outcomes.drop_first())
        },
    }
}

/// Every action a run asks for, from its start, for an item with
/// installable asset `asset`, when its actions end with `outcomes`.
pub open spec fn run_actions(asset: Option<i32>, outcomes: Seq<Result<(), String>>) -> Seq<Action> {
    let (p, step) = start_spec(asset);
    performed(step) + actions_after(p, outcomes)
}

impl Pipeline {
    /// Starts a run for an item whose installable asset is `asset`: a
    /// download of it, or at once `NoInstallableAsset` when there is none.
    pub fn start(asset: Option<i32>) -> (r: (Option<Pipeline>, Step))
        ensures
            r == start_spec(asset),
    {
        match asset {
            None => (None, Step::Done(Err(PipelineError::NoInstallableAsset))),
            Some(id) => (
                Some(Pipeline { asset_id: id, stage: Stage::Downloading }),
                Step::Perform(Action::Download { asset_id: id }),
            ),
        }
    }

    /// Takes the outcome of the action this run waits for: on success the
    /// next action, or the end of the run after the install; on failure the
    /// end of the run with the error of this stage.
    pub fn advance(&self, outcome: Result<(), String>) -> (r: (Option<Pipeline>, Step))
        ensures
            r == advance_spec(*self, outcome),
    {
        match outcome {
            Err(cause) => {
                let e = match self.stage {
                    Stage::Downloading => PipelineError::DownloadFailed(cause),
                    Stage::Transferring => PipelineError::TransferFailed(cause),
                    Stage::Installing => PipelineError::InstallFailed(cause),
                };
                (None, Step::Done(Err(e)))
            },
            Ok(()) => match self.stage {
                Stage::Downloading => (
                    Some(Pipeline { asset_id: self.asset_id, stage: Stage::Transferring }),
                    Step::Perform(Action::Transfer),
                ),
                Stage::Transferring => (
                    Some(Pipeline { asset_id: self.asset_id, stage: Stage::Installing }),
                    Step::Perform(Action::Install),
                ),
                Stage::Installing => (None, Step::Done(Ok(()))),
            },
        }
    }
}

/// A run for an item without an installable asset ends with
/// `NoInstallableAsset` and asks for no action at all, whatever outcomes
/// would be reported.
pub proof fn lemma_no_asset_no_actions(outcomes: Seq<Result<(), String>>)
    ensures
        start_spec(None).1 == Step::Done(Err(PipelineError::NoInstallableAsset)),
        run_actions(None, outcomes) == Seq::<Action>::empty(),
{
    assert(run_actions(None, outcomes) =~= Seq::<Action>::empty());
}

/// A run whose download fails asks for the download and nothing after it:
/// no transfer and no install.
pub proof fn lemma_download_failure_stops(asset_id: i32, outcomes: Seq<Result<(), String>>)
    requires
        outcomes.len() > 0,
        outcomes[0] is Err,
    ensures
        run_actions(Some(asset_id), outcomes) == seq![Action::Download { asset_id }],
{
    let p = Pipeline { asset_id, stage: Stage::Downloading };
    assert(advance_spec(p, outcomes[0]).0 is None);
    assert(actions_after(None, outcomes.drop_first()) =~= Seq::<Action>::empty());
    assert(actions_after(Some(p), outcomes) =~= Seq::<Action>::empty());
    assert(run_actions(Some(asset_id), outcomes) =~= seq![Action::Download { asset_id }]);
}

} // verus!
