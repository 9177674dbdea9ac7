//! Tests of the pipeline: the planned steps, the stage ordering, the
//! short-circuit on failure, and the script selection and composition.

use gtbuilder::checker::{CheckAction, Checker};
use gtbuilder::error::BuildError;
use gtbuilder::loader::Loader;
use gtbuilder::options::BuildOptions;
use gtbuilder::pipeline::{plan_with_keys, Action, Builder, PipelineRun, Settings, Stage};
use gtbuilder::scripts::{ScriptInvocation, SmalltalkExpressionBuilder};
use gtbuilder::tasks::{base_name, select_single, RelocationTask};
use gtbuilder::text::join_path;

fn test_settings() -> Settings {
    Settings::new(
        "/ws".to_string(),
        "http://artifacts.example.com/seed.zip".to_string(),
        "http://artifacts.example.com/vm.zip".to_string(),
    )
}

fn prepared_run(options: &BuildOptions) -> PipelineRun {
    Builder::new()
        .prepare(&test_settings(), options)
        .expect("a valid configuration must yield a run")
}

#[test]
fn checker_reports_a_conflict_without_overwrite() {
    let r = Checker::new().decide(true, false);
    assert!(matches!(r, Err(BuildError::AlreadyExists(_))));
}

#[test]
fn checker_removes_an_existing_install_with_overwrite() {
    assert_eq!(
        Checker::new().decide(true, true),
        Ok(CheckAction::RemoveExisting)
    );
}

#[test]
fn checker_does_nothing_on_a_clean_target() {
    assert_eq!(Checker::new().decide(false, false), Ok(CheckAction::Nothing));
    assert_eq!(Checker::new().decide(false, true), Ok(CheckAction::Nothing));
}

#[test]
fn a_failed_check_stops_the_pipeline_before_any_download() {
    let mut run = prepared_run(&BuildOptions::new());
    assert!(matches!(run.next_action(), Some(Action::Check(_))));
    let failure = Checker::new().decide(true, false).unwrap_err();
    let r = run.advance(Err(failure));
    assert!(matches!(r, Err(BuildError::AlreadyExists(_))));
    assert_eq!(run.stage, Stage::Start);
    // The pipeline still stands at its first step: nothing further was asked.
    assert!(matches!(run.next_action(), Some(Action::Check(_))));
}

#[test]
fn an_overwrite_run_proceeds_past_the_check() {
    let mut options = BuildOptions::new();
    options.overwrite(true);
    let mut run = prepared_run(&options);
    match run.next_action() {
        Some(Action::Check(step)) => {
            assert!(step.overwrite);
            assert_eq!(
                Checker::new().decide(true, step.overwrite),
                Ok(CheckAction::RemoveExisting)
            );
        }
        _ => panic!("the first action must be the check"),
    }
    assert!(run.advance(Ok(())).is_ok());
    assert_eq!(run.stage, Stage::Checked);
    assert!(matches!(run.next_action(), Some(Action::Download(_))));
    while !run.is_done() {
        run.advance(Ok(())).unwrap();
    }
    assert_eq!(run.stage, Stage::Done);
}

#[test]
fn the_eight_stages_follow_in_order() {
    let mut options = BuildOptions::new();
    options.image_url = Some("http://example.com/seed.zip".to_string());
    let mut run = prepared_run(&options);
    let mut stages = vec![run.stage];
    let mut actions = Vec::new();
    while let Some(action) = run.next_action() {
        actions.push(match action {
            Action::Check(_) => "check",
            Action::Download(_) => "download",
            Action::Extract(_) => "extract",
            Action::Place(_) => "place",
            Action::Materialize(_) => "materialize",
            Action::Run(_) => "run",
            Action::Report => "report",
        });
        run.advance(Ok(())).unwrap();
        stages.push(run.stage);
    }
    assert_eq!(
        stages,
        vec![
            Stage::Start,
            Stage::Checked,
            Stage::Fetched,
            Stage::Extracted,
            Stage::Placed,
            Stage::ScriptsMaterialized,
            Stage::PatchesLoaded,
            Stage::BuiltImage,
            Stage::Done,
        ]
    );
    assert_eq!(
        actions,
        vec!["check", "download", "extract", "place", "materialize", "run", "run", "report"]
    );
    assert!(run.is_done());
    assert!(run.next_action().is_none());
}

#[test]
fn the_plan_lays_out_the_workspace_exactly() {
    let run = prepared_run(&BuildOptions::new());
    let plan = &run.plan;
    assert_eq!(plan.check.target, "/ws/GlamorousToolkit.image");
    assert!(!plan.check.overwrite);

    let download_paths: Vec<String> = plan.downloads.iter().map(|t| t.path()).collect();
    assert_eq!(download_paths, vec!["/ws/pharo-image.zip", "/ws/pharo-vm.zip"]);
    assert_eq!(plan.downloads[0].url, "http://artifacts.example.com/seed.zip");
    assert_eq!(plan.downloads[1].url, "http://artifacts.example.com/vm.zip");

    assert_eq!(plan.extractions.len(), 2);
    assert_eq!(plan.extractions[0].archive, "/ws/pharo-image.zip");
    assert_eq!(plan.extractions[0].destination, "/ws/pharo-image");
    assert_eq!(plan.extractions[1].archive, "/ws/pharo-vm.zip");
    assert_eq!(plan.extractions[1].destination, "/ws/pharo-vm");

    assert_eq!(plan.relocations.len(), 3);
    assert_eq!(plan.relocations[0].pattern, "*.image");
    assert_eq!(plan.relocations[0].directory, "/ws/pharo-image");
    assert_eq!(plan.relocations[0].destination, "/ws/GlamorousToolkit.image");
    assert!(!plan.relocations[0].keep_name);
    assert_eq!(plan.relocations[1].pattern, "*.changes");
    assert_eq!(plan.relocations[1].destination, "/ws/GlamorousToolkit.changes");
    assert_eq!(plan.relocations[2].pattern, "*.sources");
    assert_eq!(plan.relocations[2].destination, "/ws");
    assert!(plan.relocations[2].keep_name);

    let script_paths: Vec<&str> = plan.scripts.iter().map(|s| s.path.as_str()).collect();
    assert_eq!(
        script_paths,
        vec!["/ws/load-patches.st", "/ws/load-taskit.st", "/ws/load-gt.st"]
    );

    assert_eq!(plan.prepare_batch.scripts.len(), 2);
    assert!(plan.prepare_batch.persist);
    assert!(matches!(
        &plan.prepare_batch.scripts[0],
        ScriptInvocation::File(n) if n == "load-patches.st"
    ));
    assert!(matches!(
        &plan.prepare_batch.scripts[1],
        ScriptInvocation::File(n) if n == "load-taskit.st"
    ));

    // Without keys the final batch holds only the load script.
    assert_eq!(plan.load_batch.scripts.len(), 1);
    assert!(plan.load_batch.persist);
    assert!(matches!(
        &plan.load_batch.scripts[0],
        ScriptInvocation::File(n) if n == "load-gt.st"
    ));
}

#[test]
fn the_loader_selects_only_the_final_load_script() {
    let mut cloner_options = BuildOptions::new();
    cloner_options.loader(Loader::Cloner);
    let mut metacello_options = BuildOptions::new();
    metacello_options.loader(Loader::Metacello);
    let cloner_plan = prepared_run(&cloner_options).plan;
    let metacello_plan = prepared_run(&metacello_options).plan;

    for i in 0..3 {
        assert_eq!(cloner_plan.scripts[i].path, metacello_plan.scripts[i].path);
    }
    assert_eq!(cloner_plan.scripts[0].body, metacello_plan.scripts[0].body);
    assert_eq!(cloner_plan.scripts[1].body, metacello_plan.scripts[1].body);
    assert_ne!(cloner_plan.scripts[2].body, metacello_plan.scripts[2].body);
    assert_eq!(
        cloner_plan.scripts[2].body,
        "GtImageSetup cloneGlamorousToolkitReleases"
    );
    assert_eq!(
        metacello_plan.scripts[2].body,
        "Metacello new baseline: 'GlamorousToolkit'; repository: 'github://feenkcom/gtoolkit:main/src'; load"
    );
}

#[test]
fn a_key_pair_prepends_the_credential_expression() {
    let plan = plan_with_keys(
        &test_settings(),
        &BuildOptions::new(),
        Some(("/keys/id".to_string(), "/keys/id.pub".to_string())),
    );
    assert_eq!(plan.load_batch.scripts.len(), 2);
    match &plan.load_batch.scripts[0] {
        ScriptInvocation::Expression(text) => assert_eq!(
            text,
            "IceCredentialsProvider useCustomSsh: true.\
             IceCredentialsProvider sshCredentials publicKey: '/keys/id.pub'; \
             privateKey: '/keys/id'"
        ),
        _ => panic!("the first entry must be the credential expression"),
    }
    assert!(matches!(
        &plan.load_batch.scripts[1],
        ScriptInvocation::File(n) if n == "load-gt.st"
    ));
}

#[test]
fn the_composer_joins_statements_with_the_separator() {
    let mut builder = SmalltalkExpressionBuilder::new();
    assert_eq!(builder.build(), "");
    builder.add("a".to_string());
    assert_eq!(builder.build(), "a");
    builder.add("b".to_string());
    builder.add("c".to_string());
    assert_eq!(builder.build(), "a.b.c");
}

#[test]
fn relocation_selects_exactly_one_match() {
    let what = "*.image".to_string();
    assert!(matches!(
        select_single(&vec![], &what),
        Err(BuildError::NotFound(_))
    ));
    assert_eq!(
        select_single(&vec!["only.image".to_string()], &what),
        Ok("only.image".to_string())
    );
    assert!(matches!(
        select_single(&vec!["a.image".to_string(), "b.image".to_string()], &what),
        Err(BuildError::Ambiguous(_))
    ));
}

#[test]
fn relocation_resolution_fails_on_a_missing_directory() {
    let task = RelocationTask::new(
        "*.image".to_string(),
        "/surely/not/on/this/disk".to_string(),
        "/tmp/out.image".to_string(),
    );
    assert!(task.resolve().is_err());
}

#[test]
fn base_names_drop_everything_before_the_last_separator() {
    assert_eq!(base_name("a/b/c.sources"), "c.sources");
    assert_eq!(base_name("c.sources"), "c.sources");
    assert_eq!(base_name("/c"), "c");
    assert_eq!(base_name("a/b/"), "");
}

#[test]
fn relocation_targets_preserve_the_name_only_into_directories() {
    let into_file = RelocationTask::new(
        "*.image".to_string(),
        "/ws/pharo-image".to_string(),
        "/ws/GlamorousToolkit.image".to_string(),
    );
    assert_eq!(
        into_file.target_for(&"/ws/pharo-image/Pharo9.image".to_string()),
        "/ws/GlamorousToolkit.image"
    );
    let into_dir = RelocationTask::new_into_directory(
        "*.sources".to_string(),
        "/ws/pharo-image".to_string(),
        "/ws".to_string(),
    );
    assert_eq!(
        into_dir.target_for(&"/ws/pharo-image/Pharo9.sources".to_string()),
        "/ws/Pharo9.sources"
    );
}

#[test]
fn joined_paths_use_a_single_separator() {
    assert_eq!(join_path("/ws", "pharo-vm.zip"), "/ws/pharo-vm.zip");
}
