//! The pipeline orchestrator: a strictly linear, single-pass sequence of
//! steps with no retries and no rollback. The orchestrator plans every step
//! up front from the configuration and the settings, hands the driver one
//! action at a time, and short-circuits on the first failure.

use vstd::prelude::*;
use vstd::string::StringExecFns;
use crate::checker::CheckStep;
use crate::error::BuildError;
use crate::options::BuildOptions;
use crate::scripts::{
    loader_script_body, loader_script_spec, patches_script_body, patches_script_spec,
    ssh_configuration_expression, ssh_expression_spec, taskit_script_body, taskit_script_spec,
    InterpreterTarget, ScriptBatch, ScriptFile, ScriptInvocation,
};
use crate::tasks::{DownloadTask, ExtractionTask, RelocationTask};
use crate::text::{join_path, join_path_spec};

verus! {

/// The externally resolved settings of a run: the workspace every file is
/// placed under, and the URLs of the two remote artifacts.
#[derive(Debug, Clone)]
pub struct Settings {
    /// The root directory of the build.
    pub workspace: String,
    /// The URL of the clean seed image archive.
    pub image_url: String,
    /// The URL of the interpreter runtime archive.
    pub vm_url: String,
}

impl Settings {
    /// Settings naming a workspace and the two artifact URLs.
    pub fn new(workspace: String, image_url: String, vm_url: String) -> (r: Settings)
        ensures
            r.workspace == workspace,
            r.image_url == image_url,
            r.vm_url == vm_url,
    {
        Settings { workspace, image_url, vm_url }
    }
}

/// Every step of one run, planned up front: the precondition check, the
/// download batch, the extraction batch, the relocations, the scripts to
/// materialize, and the two script batches to execute, in that order.
#[derive(Debug, Clone)]
pub struct BuildPlan {
    /// The precondition check.
    pub check: CheckStep,
    /// The downloads, executed as one all-or-nothing batch.
    pub downloads: Vec<DownloadTask>,
    /// The extractions, executed as one all-or-nothing batch.
    pub extractions: Vec<ExtractionTask>,
    /// The relocations of extracted files to their canonical places.
    pub relocations: Vec<RelocationTask>,
    /// The scripts written to the workspace.
    pub scripts: Vec<ScriptFile>,
    /// The batch run against the seed image to prepare it.
    pub prepare_batch: ScriptBatch,
    /// The batch run against the application image to load the application
    /// code, with the credential expression in front when keys are set.
    pub load_batch: ScriptBatch,
}

/// The views of a resolved key pair, private key first.
pub open spec fn key_views(ssh: Option<(String, String)>) -> Option<(Seq<char>, Seq<char>)> {
    match ssh {
        None => None,
        Some((private, public)) => Some((private@, public@)),
    }
}

/// What a correct plan for the given settings, options and resolved ssh keys
/// holds, step by step: the checked location, both artifact downloads, both
/// extractions, the three relocations, the three scripts with the
/// loader-selected final body, and the two script batches.
pub open spec fn plan_matches(
    p: BuildPlan,
    s: Settings,
    o: BuildOptions,
    ssh: Option<(Seq<char>, Seq<char>)>,
) -> bool {
    &&& p.check.target@ == join_path_spec(s.workspace@, "GlamorousToolkit.image"@)
    &&& p.check.overwrite == o.overwrite
    &&& p.downloads@.len() == 2
    &&& p.downloads@[0].url@ == s.image_url@
    &&& p.downloads@[0].directory@ == s.workspace@
    &&& p.downloads@[0].file_name@ == "pharo-image.zip"@
    &&& p.downloads@[1].url@ == s.vm_url@
    &&& p.downloads@[1].directory@ == s.workspace@
    &&& p.downloads@[1].file_name@ == "pharo-vm.zip"@
    &&& p.extractions@.len() == 2
    &&& p.extractions@[0].archive@ == join_path_spec(s.workspace@, "pharo-image.zip"@)
    &&& p.extractions@[0].destination@ == join_path_spec(s.workspace@, "pharo-image"@)
    &&& p.extractions@[1].archive@ == join_path_spec(s.workspace@, "pharo-vm.zip"@)
    &&& p.extractions@[1].destination@ == join_path_spec(s.workspace@, "pharo-vm"@)
    &&& p.relocations@.len() == 3
    &&& p.relocations@[0].pattern@ == "*.image"@
    &&& p.relocations@[0].directory@ == join_path_spec(s.workspace@, "pharo-image"@)
    &&& p.relocations@[0].destination@ == join_path_spec(s.workspace@, "GlamorousToolkit.image"@)
    &&& p.relocations@[0].keep_name == false
    &&& p.relocations@[1].pattern@ == "*.changes"@
    &&& p.relocations@[1].directory@ == join_path_spec(s.workspace@, "pharo-image"@)
    &&& p.relocations@[1].destination@ == join_path_spec(s.workspace@, "GlamorousToolkit.changes"@)
    &&& p.relocations@[1].keep_name == false
    &&& p.relocations@[2].pattern@ == "*.sources"@
    &&& p.relocations@[2].directory@ == join_path_spec(s.workspace@, "pharo-image"@)
    &&& p.relocations@[2].destination@ == s.workspace@
    &&& p.relocations@[2].keep_name == true
    &&& p.scripts@.len() == 3
    &&& p.scripts@[0].path@ == join_path_spec(s.workspace@, "load-patches.st"@)
    &&& p.scripts@[0].body@ == patches_script_spec()
    &&& p.scripts@[1].path@ == join_path_spec(s.workspace@, "load-taskit.st"@)
    &&& p.scripts@[1].body@ == taskit_script_spec()
    &&& p.scripts@[2].path@ == join_path_spec(s.workspace@, "load-gt.st"@)
    &&& p.scripts@[2].body@ == loader_script_spec(o.loader)
    &&& p.prepare_batch.scripts@.len() == 2
    &&& p.prepare_batch.scripts@[0] is File
    &&& p.prepare_batch.scripts@[0]->File_0@ == "load-patches.st"@
    &&& p.prepare_batch.scripts@[1] is File
    &&& p.prepare_batch.scripts@[1]->File_0@ == "load-taskit.st"@
    &&& p.prepare_batch.target is Seed
    &&& p.prepare_batch.persist == true
    &&& match ssh {
        None => {
            &&& p.load_batch.scripts@.len() == 1
            &&& p.load_batch.scripts@[0] is File
            &&& p.load_batch.scripts@[0]->File_0@ == "load-gt.st"@
        },
        Some((private, public)) => {
            &&& p.load_batch.scripts@.len() == 2
            &&& p.load_batch.scripts@[0] is Expression
            &&& p.load_batch.scripts@[0]->Expression_0@ == ssh_expression_spec(private, public)
            &&& p.load_batch.scripts@[1] is File
            &&& p.load_batch.scripts@[1]->File_0@ == "load-gt.st"@
        },
    }
    &&& p.load_batch.target is Application
    &&& p.load_batch.persist == true
}

/// Plans every step of a run from the settings, the options and an already
/// resolved ssh key pair. The credential expression is inserted in front of
/// the final batch exactly when a key pair is present.
pub fn plan_with_keys(settings: &Settings, options: &BuildOptions, ssh: Option<(String, String)>)
    -> (r: BuildPlan)
    ensures
        plan_matches(r, *settings, *options, key_views(ssh)),
{
    let workspace = &settings.workspace;
    let check = CheckStep {
        target: join_path(workspace.as_str(), "GlamorousToolkit.image"),
        overwrite: options.should_overwrite(),
    };
    let downloads: Vec<DownloadTask> = vec![
        DownloadTask::new(
            settings.image_url.clone(),
            workspace.clone(),
            String::from_str("pharo-image.zip"),
        ),
        DownloadTask::new(
            settings.vm_url.clone(),
            workspace.clone(),
            String::from_str("pharo-vm.zip"),
        ),
    ];
    let image_dir = join_path(workspace.as_str(), "pharo-image");
    let extractions: Vec<ExtractionTask> = vec![
        ExtractionTask::new(
            join_path(workspace.as_str(), "pharo-image.zip"),
            join_path(workspace.as_str(), "pharo-image"),
        ),
        ExtractionTask::new(
            join_path(workspace.as_str(), "pharo-vm.zip"),
            join_path(workspace.as_str(), "pharo-vm"),
        ),
    ];
    let relocations: Vec<RelocationTask> = vec![
        RelocationTask::new(
            String::from_str("*.image"),
            image_dir.clone(),
            join_path(workspace.as_str(), "GlamorousToolkit.image"),
        ),
        RelocationTask::new(
            String::from_str("*.changes"),
            image_dir.clone(),
            join_path(workspace.as_str(), "GlamorousToolkit.changes"),
        ),
        RelocationTask::new_into_directory(
            String::from_str("*.sources"),
            image_dir,
            workspace.clone(),
        ),
    ];
    let scripts: Vec<ScriptFile> = vec![
        ScriptFile {
            path: join_path(workspace.as_str(), "load-patches.st"),
            body: String::from_str(patches_script_body()),
        },
        ScriptFile {
            path: join_path(workspace.as_str(), "load-taskit.st"),
            body: String::from_str(taskit_script_body()),
        },
        ScriptFile {
            path: join_path(workspace.as_str(), "load-gt.st"),
            body: String::from_str(loader_script_body(options.loader)),
        },
    ];
    let prepare_batch = ScriptBatch {
        scripts: vec![
            ScriptInvocation::File(String::from_str("load-patches.st")),
            ScriptInvocation::File(String::from_str("load-taskit.st")),
        ],
        target: InterpreterTarget::Seed,
        persist: true,
    };
    let load_scripts: Vec<ScriptInvocation> = match ssh {
        None => vec![ScriptInvocation::File(String::from_str("load-gt.st"))],
        Some((private, public)) => vec![
            ScriptInvocation::Expression(ssh_configuration_expression(&private, &public)),
            ScriptInvocation::File(String::from_str("load-gt.st")),
        ],
    };
    let load_batch = ScriptBatch {
        scripts: load_scripts,
        target: InterpreterTarget::Application,
        persist: true,
    };
    BuildPlan { check, downloads, extractions, relocations, scripts, prepare_batch, load_batch }
}

/// The stages of a run. Each arrow of the pipeline moves from one stage to
/// the next; a failure leaves the run at the stage it had reached.
#[derive(Copy, Clone, Debug, PartialEq, Eq, Structural)]
pub enum Stage {
    /// Nothing has happened yet; the next action is the precondition check.
    Start,
    /// The precondition check passed.
    Checked,
    /// Both artifacts were downloaded.
    Fetched,
    /// Both archives were extracted.
    Extracted,
    /// The extracted files were moved to their canonical places.
    Placed,
    /// The scripts were written to the workspace.
    ScriptsMaterialized,
    /// The preparation batch ran against the seed image.
    PatchesLoaded,
    /// The load batch ran against the application image.
    BuiltImage,
    /// The run is complete and its duration was reported.
    Done,
}

/// The stage that follows a stage when its step succeeds.
pub open spec fn next_stage(s: Stage) -> Stage {
    match s {
        Stage::Start => Stage::Checked,
        Stage::Checked => Stage::Fetched,
        Stage::Fetched => Stage::Extracted,
        Stage::Extracted => Stage::Placed,
        Stage::Placed => Stage::ScriptsMaterialized,
        Stage::ScriptsMaterialized => Stage::PatchesLoaded,
        Stage::PatchesLoaded => Stage::BuiltImage,
        Stage::BuiltImage => Stage::Done,
        Stage::Done => Stage::Done,
    }
}

/// One primitive step the driver performs on the pipeline's behalf. The
/// driver performs exactly the action handed to it and reports the outcome;
/// it never reorders or skips.
#[derive(Debug)]
pub enum Action<'a> {
    /// Check the precondition, removing an existing installation only as
    /// `CheckStep` decides.
    Check(&'a CheckStep),
    /// Fetch every artifact of the batch; any failure fails the batch.
    Download(&'a Vec<DownloadTask>),
    /// Extract every archive of the batch; any failure fails the batch.
    Extract(&'a Vec<ExtractionTask>),
    /// Resolve and move every relocation, in order.
    Place(&'a Vec<RelocationTask>),
    /// Write every script to its path, creating parent directories.
    Materialize(&'a Vec<ScriptFile>),
    /// Run one script batch against its image.
    Run(&'a ScriptBatch),
    /// Report the elapsed wall-clock duration of the successful run.
    Report,
}

/// One run of the pipeline: the plan and the stage reached so far.
#[derive(Debug)]
pub struct PipelineRun {
    /// The steps of the run, planned up front.
    pub plan: BuildPlan,
    /// The stage the run has reached.
    pub stage: Stage,
}

impl PipelineRun {
    /// The next action the driver must perform, or nothing once the run is
    /// done. No action is handed out twice, and no action is handed out
    /// before every earlier stage has completed.
    pub fn next_action(&self) -> (r: Option<Action<'_>>)
        ensures
            r is Some <==> !(self.stage is Done),
            self.stage is Start ==> r->0 is Check && r->0->Check_0 == &self.plan.check,
            self.stage is Checked ==> r->0 is Download && r->0->Download_0 == &self.plan.downloads,
            self.stage is Fetched ==> r->0 is Extract && r->0->Extract_0 == &self.plan.extractions,
            self.stage is Extracted ==> r->0 is Place && r->0->Place_0 == &self.plan.relocations,
            self.stage is Placed ==> r->0 is Materialize && r->0->Materialize_0
                == &self.plan.scripts,
            self.stage is ScriptsMaterialized ==> r->0 is Run && r->0->Run_0
                == &self.plan.prepare_batch,
            self.stage is PatchesLoaded ==> r->0 is Run && r->0->Run_0 == &self.plan.load_batch,
            self.stage is BuiltImage ==> r->0 is Report,
    {
        match self.stage {
            Stage::Start => Some(Action::Check(&self.plan.check)),
            Stage::Checked => Some(Action::Download(&self.plan.downloads)),
            Stage::Fetched => Some(Action::Extract(&self.plan.extractions)),
            Stage::Extracted => Some(Action::Place(&self.plan.relocations)),
            Stage::Placed => Some(Action::Materialize(&self.plan.scripts)),
            Stage::ScriptsMaterialized => Some(Action::Run(&self.plan.prepare_batch)),
            Stage::PatchesLoaded => Some(Action::Run(&self.plan.load_batch)),
            Stage::BuiltImage => Some(Action::Report),
            Stage::Done => None,
        }
    }

    /// Advances the run by the outcome of the action last handed out: a
    /// success moves to the next stage, a failure aborts the run at its
    /// current stage and surfaces the error verbatim, so no later step is
    /// ever attempted after a failure.
    pub fn advance(&mut self, outcome: Result<(), BuildError>) -> (r: Result<(), BuildError>)
        ensures
            outcome is Ok ==> r is Ok && final(self).stage == next_stage(old(self).stage)
                && final(self).plan == old(self).plan,
            outcome is Err ==> r is Err && r->Err_0 == outcome->Err_0 && *final(self) == *old(self),
    {
        match outcome {
            Ok(_) => {
                self.stage = match self.stage {
                    Stage::Start => Stage::Checked,
                    Stage::Checked => Stage::Fetched,
                    Stage::Fetched => Stage::Extracted,
                    Stage::Extracted => Stage::Placed,
                    Stage::Placed => Stage::ScriptsMaterialized,
                    Stage::ScriptsMaterialized => Stage::PatchesLoaded,
                    Stage::PatchesLoaded => Stage::BuiltImage,
                    Stage::BuiltImage => Stage::Done,
                    Stage::Done => Stage::Done,
                };
                Ok(())
            },
            Err(e) => Err(e),
        }
    }

    /// Whether the run has completed every stage.
    pub fn is_done(&self) -> (r: bool)
        ensures
            r == (self.stage is Done),
    {
        match self.stage {
            Stage::Done => true,
            _ => false,
        }
    }
}

/// Owns the step ordering of a build run.
pub struct Builder;

impl Builder {
    /// A builder.
    pub fn new() -> (r: Builder) {
        Builder {  }
    }

    /// Validates the configuration and plans the whole run. The image seed
    /// selection and the ssh key pair are resolved here, before any network
    /// or disk side effect: a contradictory configuration or a missing key
    /// path aborts the run while it still stands at its first stage.
    pub fn prepare(&self, settings: &Settings, options: &BuildOptions) -> (r: Result<
        PipelineRun,
        BuildError,
    >)
        ensures
            r is Ok ==> r->Ok_0.stage is Start,
            r is Ok ==> exists|ssh: Option<(Seq<char>, Seq<char>)>|
                plan_matches(r->Ok_0.plan, *settings, *options, ssh) && (ssh is Some <==> (
                options.public_key is Some && options.private_key is Some)),
            (options.public_key is None && options.private_key is None && !(options.image_url
                is Some && options.image_path is Some) && (options.image_url is Some
                ==> crate::options::parsed_url(options.image_url->0@) is Some)) ==> r is Ok
                && plan_matches(r->Ok_0.plan, *settings, *options, None),
            (options.public_key is Some) != (options.private_key is Some) ==> r is Err,
            options.image_url is Some && options.image_path is Some ==> r is Err,
            options.image_url is Some && options.image_path is None && crate::options::parsed_url(
                options.image_url->0@,
            ) is None ==> r is Err,
            r is Err ==> (r->Err_0 is Configuration || r->Err_0 is NotFound || r->Err_0 is Io),
    {
        match options.image_seed() {
            Err(e) => {
                return Err(e);
            },
            Ok(_) => {},
        }
        let ssh = match options.ssh_keys() {
            Err(e) => {
                return Err(e);
            },
            Ok(s) => s,
        };
        let ghost ssh_view = key_views(ssh);
        let plan = plan_with_keys(settings, options, ssh);
        proof {
            assert(plan_matches(plan, *settings, *options, ssh_view) && (ssh_view is Some <==> (
            options.public_key is Some && options.private_key is Some)));
        }
        Ok(PipelineRun { plan, stage: Stage::Start })
    }
}

/// The stages of a successful run follow each other in the fixed order
/// check, fetch, extract, place, materialize, prepare, load, report: eight
/// steps from the start to the completed run.
pub proof fn lemma_stage_order()
    ensures
        next_stage(Stage::Start) == Stage::Checked,
        next_stage(Stage::Checked) == Stage::Fetched,
        next_stage(Stage::Fetched) == Stage::Extracted,
        next_stage(Stage::Extracted) == Stage::Placed,
        next_stage(Stage::Placed) == Stage::ScriptsMaterialized,
        next_stage(Stage::ScriptsMaterialized) == Stage::PatchesLoaded,
        next_stage(Stage::PatchesLoaded) == Stage::BuiltImage,
        next_stage(Stage::BuiltImage) == Stage::Done,
{
}

/// Two plans over the same settings and keys that differ only in the loader
/// materialize the same script paths, identical bodies for every script but
/// the final load script, and final load scripts that differ and match the
/// fixed template of each loader exactly.
pub proof fn lemma_loader_selects_load_script(
    cloner_plan: BuildPlan,
    metacello_plan: BuildPlan,
    s: Settings,
    o1: BuildOptions,
    o2: BuildOptions,
    ssh: Option<(Seq<char>, Seq<char>)>,
)
    requires
        plan_matches(cloner_plan, s, o1, ssh),
        plan_matches(metacello_plan, s, o2, ssh),
        o1.loader is Cloner,
        o2.loader is Metacello,
    ensures
        cloner_plan.scripts@.len() == 3 && metacello_plan.scripts@.len() == 3,
        forall|i: int| 0 <= i < 3 ==> cloner_plan.scripts@[i].path@ == metacello_plan.scripts@[i].path@,
        cloner_plan.scripts@[0].body@ == metacello_plan.scripts@[0].body@,
        cloner_plan.scripts@[1].body@ == metacello_plan.scripts@[1].body@,
        cloner_plan.scripts@[2].body@ == crate::scripts::cloner_script_spec(),
        metacello_plan.scripts@[2].body@ == crate::scripts::metacello_script_spec(),
        cloner_plan.scripts@[2].body@ != metacello_plan.scripts@[2].body@,
{
    crate::scripts::lemma_loader_scripts_differ();
}

} // verus!
