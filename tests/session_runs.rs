use release_installer::catalog::{Asset, Release, Status};
use release_installer::config::{Config, ConfigError};
use release_installer::pipeline::{Action, Pipeline, PipelineError, Stage, Step};
use release_installer::session::{App, Command, Key, NO_SELECTION_TEXT, command_for};

fn asset(name: &str, id: i32) -> Asset {
    Asset {
        name: name.to_string(),
        browser_download_url: format!("https://example.com/{}", name),
        id,
    }
}

/// Two releases: "v1.0" with a package asset, "v1.1" without one.
fn two_releases() -> Vec<Release> {
    vec![
        Release {
            tag_name: "v1.0".to_string(),
            body: "first".to_string(),
            name: Some("One".to_string()),
            assets: vec![asset("app.apk", 101)],
        },
        Release {
            tag_name: "v1.1".to_string(),
            body: "second".to_string(),
            name: None,
            assets: vec![asset("source.tar.gz", 102)],
        },
    ]
}

fn all_idle(app: &App) -> bool {
    app.items.items.iter().all(|i| i.status == Status::Idle)
}

fn in_progress_count(app: &App) -> usize {
    app.items.items.iter().filter(|i| i.status == Status::InProgress).count()
}

#[test]
fn activating_release_without_package_fails_at_once() {
    let releases = two_releases();
    let mut app = App::new(&releases);
    app.handle(Command::Next);
    app.handle(Command::Next);
    assert_eq!(app.items.selected, Some(1));
    let step = app.handle(Command::Activate);
    assert_eq!(step, Some(Step::Done(Err(PipelineError::NoInstallableAsset))));
    assert_eq!(app.items.items[1].status, Status::Idle);
    assert_eq!(app.items.in_progress, None);
    assert!(!app.busy());
    assert_eq!(app.items.selected, Some(1));
    assert_eq!(app.on_outcome(Ok(())), None);
    app.handle(Command::Previous);
    assert_eq!(app.items.selected, Some(0));
}

#[test]
fn activating_release_with_package_runs_all_stages() {
    let releases = two_releases();
    let mut app = App::new(&releases);
    app.handle(Command::Next);
    let step = app.handle(Command::Activate);
    assert_eq!(step, Some(Step::Perform(Action::Download { asset_id: 101 })));
    assert_eq!(app.items.items[0].status, Status::InProgress);
    assert_eq!(app.items.in_progress, Some(0));
    assert!(app.busy());
    assert_eq!(app.on_outcome(Ok(())), Some(Step::Perform(Action::Transfer)));
    assert_eq!(in_progress_count(&app), 1);
    assert_eq!(app.on_outcome(Ok(())), Some(Step::Perform(Action::Install)));
    assert_eq!(app.on_outcome(Ok(())), Some(Step::Done(Ok(()))));
    assert_eq!(app.items.items[0].status, Status::Idle);
    assert_eq!(app.items.in_progress, None);
    assert!(all_idle(&app));
    assert!(!app.busy());
}

#[test]
fn download_failure_stops_the_run() {
    let releases = two_releases();
    let mut app = App::new(&releases);
    app.handle(Command::Top);
    assert!(matches!(app.handle(Command::Activate), Some(Step::Perform(Action::Download { .. }))));
    let step = app.on_outcome(Err("connection reset".to_string()));
    assert_eq!(step, Some(Step::Done(Err(PipelineError::DownloadFailed("connection reset".to_string())))));
    assert!(all_idle(&app));
    assert_eq!(app.items.in_progress, None);
    assert_eq!(app.on_outcome(Ok(())), None);
}

#[test]
fn transfer_and_install_failures_are_reported() {
    let releases = two_releases();
    let mut app = App::new(&releases);
    app.handle(Command::Top);
    app.handle(Command::Activate);
    app.on_outcome(Ok(()));
    let step = app.on_outcome(Err("no device".to_string()));
    assert_eq!(step, Some(Step::Done(Err(PipelineError::TransferFailed("no device".to_string())))));
    assert!(all_idle(&app));

    app.handle(Command::Activate);
    app.on_outcome(Ok(()));
    app.on_outcome(Ok(()));
    let step = app.on_outcome(Err("INSTALL_FAILED".to_string()));
    assert_eq!(step, Some(Step::Done(Err(PipelineError::InstallFailed("INSTALL_FAILED".to_string())))));
    assert!(all_idle(&app));
    assert_eq!(app.items.in_progress, None);
}

#[test]
fn activation_is_refused_while_a_run_is_under_way() {
    let releases = two_releases();
    let mut app = App::new(&releases);
    app.handle(Command::Top);
    app.handle(Command::Activate);
    app.handle(Command::Bottom);
    assert_eq!(app.items.selected, Some(1));
    assert_eq!(app.handle(Command::Activate), None);
    assert_eq!(in_progress_count(&app), 1);
    assert_eq!(app.items.in_progress, Some(0));
}

#[test]
fn activation_without_selection_does_nothing() {
    let releases = two_releases();
    let mut app = App::new(&releases);
    assert_eq!(app.flip_status(), None);
    assert!(all_idle(&app));
}

#[test]
fn pipeline_steps_in_order() {
    let (p, step) = Pipeline::start(Some(5));
    assert_eq!(step, Step::Perform(Action::Download { asset_id: 5 }));
    let p = p.unwrap();
    assert_eq!(p.stage, Stage::Downloading);
    let (p, step) = p.advance(Ok(()));
    assert_eq!(step, Step::Perform(Action::Transfer));
    let (p, step) = p.unwrap().advance(Ok(()));
    assert_eq!(step, Step::Perform(Action::Install));
    let (p, step) = p.unwrap().advance(Ok(()));
    assert_eq!(step, Step::Done(Ok(())));
    assert!(p.is_none());
    let (p, step) = Pipeline::start(None);
    assert!(p.is_none());
    assert_eq!(step, Step::Done(Err(PipelineError::NoInstallableAsset)));
}

#[test]
fn key_bindings() {
    assert_eq!(command_for(Key::Char('q')), Some(Command::Quit));
    assert_eq!(command_for(Key::Esc), Some(Command::Quit));
    assert_eq!(command_for(Key::Left), Some(Command::Unselect));
    assert_eq!(command_for(Key::Char('j')), Some(Command::Next));
    assert_eq!(command_for(Key::Up), Some(Command::Previous));
    assert_eq!(command_for(Key::Enter), Some(Command::Activate));
    assert_eq!(command_for(Key::Char('l')), Some(Command::Activate));
    assert_eq!(command_for(Key::Char('g')), Some(Command::Top));
    assert_eq!(command_for(Key::Char('G')), Some(Command::Bottom));
    assert_eq!(command_for(Key::Char('x')), None);
    assert_eq!(command_for(Key::Other), None);
}

#[test]
fn info_text_follows_cursor() {
    let releases = two_releases();
    let mut app = App::new(&releases);
    assert_eq!(app.info_text(), NO_SELECTION_TEXT);
    app.handle(Command::Bottom);
    assert_eq!(app.info_text(), "second");
    app.handle(Command::Unselect);
    assert_eq!(app.info_text(), NO_SELECTION_TEXT);
}

#[test]
fn config_reports_first_missing_setting() {
    let s = |v: &str| Some(v.to_string());
    assert_eq!(Config::from_settings(None, s("o"), s("r")).err(), Some(ConfigError::MissingToken));
    assert_eq!(Config::from_settings(s("t"), None, None).err(), Some(ConfigError::MissingOwner));
    assert_eq!(Config::from_settings(s("t"), s("o"), None).err(), Some(ConfigError::MissingRepo));
    let c = Config::from_settings(s("t"), s("o"), s("r")).ok().unwrap();
    assert_eq!((c.token.as_str(), c.owner.as_str(), c.repo.as_str()), ("t", "o", "r"));
}
