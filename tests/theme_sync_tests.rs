use std::collections::HashMap;
use std::path::Path;

use theme_sync::configurator::{
    default_config_path, join_path, resolve_home, AppConfig, AppPhase, AppStep, Configurator, HomeVars, Reply, Request,
};
use theme_sync::error::ThemeError;
use theme_sync::fanout::{apply_all, theme_from_query, Config, Progress};
use theme_sync::monitor::{monitor_step, MonitorAction, MonitorEvent};
use theme_sync::text::{chars_of, contains_chars, matches_at, replace_text, rewrite};
use theme_sync::theme::{infer_theme, ThemePreference};

/// An in-memory stand-in for the file system, environment and shell.
struct Host {
    real_home: Option<String>,
    home: Option<String>,
    files: HashMap<String, String>,
    unwritable: Vec<String>,
    reload_succeeds: bool,
    reads: Vec<String>,
    writes: Vec<String>,
    reloads: Vec<String>,
}

impl Host {
    fn new(home: &str) -> Host {
        Host {
            real_home: None,
            home: Some(home.to_string()),
            files: HashMap::new(),
            unwritable: Vec::new(),
            reload_succeeds: true,
            reads: Vec::new(),
            writes: Vec::new(),
            reloads: Vec::new(),
        }
    }

    fn perform(&mut self, request: Request) -> Reply {
        match request {
            Request::HomeVars => Reply::Home(HomeVars {
                real_home: self.real_home.clone(),
                home: self.home.clone(),
            }),
            Request::Read { path } => {
                self.reads.push(path.clone());
                match self.files.get(&path) {
                    Some(text) => Reply::Contents(text.clone()),
                    None => Reply::ReadFailed,
                }
            }
            Request::Write { path, contents } => {
                if self.unwritable.contains(&path) {
                    return Reply::WriteFailed;
                }
                self.writes.push(path.clone());
                self.files.insert(path, contents);
                Reply::Written
            }
            Request::Reload { command } => {
                self.reloads.push(command);
                Reply::Reloaded(self.reload_succeeds)
            }
        }
    }
}

fn drive(host: &mut Host, theme: ThemePreference, config: &Config) -> Result<(), ThemeError> {
    let (mut run, mut progress) = apply_all(theme, config);
    loop {
        match progress {
            Progress::Finished(result) => return result,
            Progress::Ask(request) => {
                let reply = host.perform(request);
                assert!(run.accepts(&reply));
                progress = run.resume(reply);
            }
        }
    }
}

fn app(name: &str, path: &str, light: &str, dark: &str, reload: Option<&str>) -> AppConfig {
    AppConfig {
        name: name.to_string(),
        path: path.to_string(),
        light_token: light.to_string(),
        dark_token: dark.to_string(),
        reload_cmd: reload.map(|c| c.to_string()),
    }
}

#[test]
fn infer_theme_empty_is_light() {
    assert_eq!(infer_theme(""), ThemePreference::Light);
}

#[test]
fn infer_theme_marker_is_dark() {
    assert_eq!(infer_theme("foo prefer-dark bar"), ThemePreference::Dark);
    assert_eq!(infer_theme("'prefer-dark'\n"), ThemePreference::Dark);
    assert_eq!(infer_theme("color-scheme: 'prefer-dark'"), ThemePreference::Dark);
}

#[test]
fn infer_theme_other_text_is_light() {
    assert_eq!(infer_theme("'default'"), ThemePreference::Light);
    assert_eq!(infer_theme("'prefer-light'"), ThemePreference::Light);
    assert_eq!(infer_theme("prefer-dar"), ThemePreference::Light);
    assert_eq!(infer_theme("PREFER-DARK"), ThemePreference::Light);
}

#[test]
fn substring_search() {
    let s = chars_of("abcabd");
    assert!(matches_at(&s, &chars_of("abd"), 3));
    assert!(!matches_at(&s, &chars_of("abd"), 0));
    assert!(!matches_at(&s, &chars_of("abd"), 5));
    assert!(contains_chars(&s, &chars_of("cab")));
    assert!(!contains_chars(&s, &chars_of("abe")));
    assert!(contains_chars(&s, &chars_of("")));
    assert_eq!(chars_of("é!"), vec!['é', '!']);
}

#[test]
fn replace_text_exact_values() {
    assert_eq!(replace_text("bg:#fff;", "#fff", "#000"), "bg:#000;");
    assert_eq!(replace_text("a-b-a", "a", "xy"), "xy-b-xy");
    assert_eq!(replace_text("aaa", "aa", "b"), "ba");
    assert_eq!(replace_text("none here", "zz", "q"), "none here");
    assert_eq!(replace_text("", "a", "b"), "");
    assert_eq!(replace_text("théme", "é", "e"), "theme");
}

#[test]
fn replace_text_matches_std() {
    let cases = [
        ("abc", "", "x"),
        ("", "", "x"),
        ("aaaa", "aa", "a"),
        ("light-theme light-theme", "light-theme", "dark-theme"),
        ("xyx", "yx", ""),
    ];
    for (s, from, to) in cases {
        assert_eq!(replace_text(s, from, to), s.replace(from, to));
    }
    assert_eq!(replace_text("abc", "", "x"), "xaxbxcx");
}

#[test]
fn rewrite_only_when_changed() {
    assert_eq!(rewrite("bg:#fff;", "#fff", "#000"), Some("bg:#000;".to_string()));
    assert_eq!(rewrite("bg:#000;", "#fff", "#000"), None);
    assert_eq!(rewrite("same", "same", "same"), None);
}

#[test]
fn rewrite_twice_writes_once() {
    let once = rewrite("x light y light", "light", "dark").unwrap();
    assert_eq!(once, "x dark y dark");
    assert_eq!(rewrite(&once, "light", "dark"), None);
}

#[test]
fn join_path_values() {
    assert_eq!(join_path("/home/u", ".config/app.toml"), "/home/u/.config/app.toml");
    assert_eq!(join_path("/home/u/", "a"), "/home/u/a");
    assert_eq!(join_path("/home/u", "/etc/abs"), "/etc/abs");
    assert_eq!(join_path("", "rel"), "rel");
    for (base, rel) in [("/home/u", "x/y"), ("/home/u/", "x"), ("/h", "/abs"), ("", "r")] {
        let expected = Path::new(base).join(rel);
        assert_eq!(join_path(base, rel), expected.to_str().unwrap());
    }
}

#[test]
fn tokens_follow_theme() {
    let a = app("term", "t.conf", "light-theme", "dark-theme", None);
    let c = Configurator::new(&a);
    assert_eq!(c.tokens(ThemePreference::Dark), ("light-theme", "dark-theme"));
    assert_eq!(c.tokens(ThemePreference::Light), ("dark-theme", "light-theme"));
}

#[test]
fn target_prefers_real_home() {
    let a = app("term", ".config/t.conf", "l", "d", None);
    let c = Configurator::new(&a);
    let both = HomeVars { real_home: Some("/real".to_string()), home: Some("/snap".to_string()) };
    assert_eq!(c.target(&both), Ok("/real/.config/t.conf".to_string()));
    let only_home = HomeVars { real_home: None, home: Some("/home/u".to_string()) };
    assert_eq!(c.target(&only_home), Ok("/home/u/.config/t.conf".to_string()));
    let none = HomeVars { real_home: None, home: None };
    assert_eq!(c.target(&none), Err(ThemeError::EnvironmentMissing));
}

#[test]
fn configurator_steps() {
    let a = app("term", "t.conf", "L", "D", Some("reload-term"));
    let c = Configurator::new(&a);
    let (phase, request) = c.begin();
    assert!(matches!(phase, AppPhase::Resolving));
    assert!(matches!(request, Request::HomeVars));
    let vars = HomeVars { real_home: None, home: Some("/h".to_string()) };
    let step = c.apply(ThemePreference::Dark, &phase, Reply::Home(vars));
    let phase = match step {
        AppStep::Next(next, Request::Read { path }) => {
            assert_eq!(path, "/h/t.conf");
            next
        }
        other => panic!("unexpected step {:?}", other),
    };
    match c.apply(ThemePreference::Dark, &phase, Reply::Contents("x=L".to_string())) {
        AppStep::Next(AppPhase::Writing, Request::Write { path, contents }) => {
            assert_eq!(path, "/h/t.conf");
            assert_eq!(contents, "x=D");
        }
        other => panic!("unexpected step {:?}", other),
    }
    match c.apply(ThemePreference::Dark, &phase, Reply::Contents("x=D".to_string())) {
        AppStep::Next(AppPhase::Reloading, Request::Reload { command }) => {
            assert_eq!(command, "reload-term");
        }
        other => panic!("unexpected step {:?}", other),
    }
    assert!(matches!(
        c.apply(ThemePreference::Dark, &phase, Reply::ReadFailed),
        AppStep::Done(Err(ThemeError::FileRead))
    ));
    assert!(matches!(
        c.apply(ThemePreference::Dark, &AppPhase::Writing, Reply::WriteFailed),
        AppStep::Done(Err(ThemeError::FileWrite))
    ));
    assert!(matches!(
        c.apply(ThemePreference::Dark, &AppPhase::Reloading, Reply::Reloaded(false)),
        AppStep::Done(Ok(()))
    ));
}

#[test]
fn directional_round_trip() {
    let config = Config { apps: vec![app("term", "t.conf", "light-theme", "dark-theme", None)] };
    let mut host = Host::new("/home/u");
    host.files.insert("/home/u/t.conf".to_string(), "theme = light-theme\n".to_string());

    assert_eq!(drive(&mut host, ThemePreference::Dark, &config), Ok(()));
    let text = host.files["/home/u/t.conf"].clone();
    assert!(text.contains("dark-theme") && !text.contains("light-theme"));

    assert_eq!(drive(&mut host, ThemePreference::Light, &config), Ok(()));
    let text = host.files["/home/u/t.conf"].clone();
    assert!(text.contains("light-theme") && !text.contains("dark-theme"));
    assert_eq!(host.writes.len(), 2);

    assert_eq!(drive(&mut host, ThemePreference::Light, &config), Ok(()));
    assert_eq!(host.files["/home/u/t.conf"], "theme = light-theme\n");
    assert_eq!(host.writes.len(), 2);
    assert_eq!(host.reads.len(), 3);
}

#[test]
fn batch_stops_at_first_failure() {
    let config = Config {
        apps: vec![
            app("one", "one.conf", "L", "D", None),
            app("two", "two.conf", "L", "D", None),
            app("three", "three.conf", "L", "D", None),
        ],
    };
    let mut host = Host::new("/h");
    host.files.insert("/h/one.conf".to_string(), "L".to_string());
    host.files.insert("/h/three.conf".to_string(), "L".to_string());

    assert_eq!(drive(&mut host, ThemePreference::Dark, &config), Err(ThemeError::FileRead));
    assert_eq!(host.files["/h/one.conf"], "D");
    assert_eq!(host.files["/h/three.conf"], "L");
    assert_eq!(host.reads, vec!["/h/one.conf".to_string(), "/h/two.conf".to_string()]);
    assert_eq!(host.writes, vec!["/h/one.conf".to_string()]);
}

#[test]
fn write_failure_ends_batch() {
    let config = Config {
        apps: vec![app("one", "one.conf", "L", "D", Some("r1")), app("two", "two.conf", "L", "D", None)],
    };
    let mut host = Host::new("/h");
    host.files.insert("/h/one.conf".to_string(), "L".to_string());
    host.files.insert("/h/two.conf".to_string(), "L".to_string());
    host.unwritable.push("/h/one.conf".to_string());
    assert_eq!(drive(&mut host, ThemePreference::Dark, &config), Err(ThemeError::FileWrite));
    assert!(host.reloads.is_empty());
    assert_eq!(host.reads.len(), 1);
}

#[test]
fn reload_failure_is_not_an_error() {
    let config = Config {
        apps: vec![app("one", "one.conf", "L", "D", Some("false")), app("two", "two.conf", "L", "D", None)],
    };
    let mut host = Host::new("/h");
    host.reload_succeeds = false;
    host.files.insert("/h/one.conf".to_string(), "L".to_string());
    host.files.insert("/h/two.conf".to_string(), "L".to_string());
    assert_eq!(drive(&mut host, ThemePreference::Dark, &config), Ok(()));
    assert_eq!(host.reloads, vec!["false".to_string()]);
    assert_eq!(host.files["/h/two.conf"], "D");
}

#[test]
fn end_to_end_single_app() {
    let config = Config { apps: vec![app("editor", "editor.css", "#fff", "#000", Some("true"))] };
    let mut host = Host::new("/home/u");
    host.files.insert("/home/u/editor.css".to_string(), "bg:#fff;".to_string());
    assert_eq!(drive(&mut host, ThemePreference::Dark, &config), Ok(()));
    assert_eq!(host.files["/home/u/editor.css"], "bg:#000;");
    assert_eq!(host.reloads, vec!["true".to_string()]);
}

#[test]
fn missing_environment_touches_nothing() {
    let config = Config { apps: vec![app("editor", "editor.css", "#fff", "#000", None)] };
    let mut host = Host::new("/home/u");
    host.home = None;
    host.files.insert("/home/u/editor.css".to_string(), "bg:#fff;".to_string());
    assert_eq!(
        drive(&mut host, ThemePreference::Dark, &config),
        Err(ThemeError::EnvironmentMissing)
    );
    assert!(host.reads.is_empty());
    assert!(host.writes.is_empty());
    assert_eq!(host.files["/home/u/editor.css"], "bg:#fff;");
}

#[test]
fn empty_config_succeeds_at_once() {
    let config = Config { apps: Vec::new() };
    let (run, progress) = apply_all(ThemePreference::Dark, &config);
    assert!(matches!(progress, Progress::Finished(Ok(()))));
    assert!(!run.is_running());
}

#[test]
fn unchanged_file_is_not_written() {
    let config = Config { apps: vec![app("term", "t.conf", "L", "D", Some("reload"))] };
    let mut host = Host::new("/h");
    host.files.insert("/h/t.conf".to_string(), "already D".to_string());
    assert_eq!(drive(&mut host, ThemePreference::Dark, &config), Ok(()));
    assert!(host.writes.is_empty());
    assert_eq!(host.reloads, vec!["reload".to_string()]);
}

#[test]
fn accepts_only_answers() {
    let config = Config { apps: vec![app("term", "t.conf", "L", "D", None)] };
    let (run, _) = apply_all(ThemePreference::Light, &config);
    assert!(run.accepts(&Reply::Home(HomeVars { real_home: None, home: None })));
    assert!(!run.accepts(&Reply::Written));
    assert!(!run.accepts(&Reply::Contents(String::new())));
}

#[test]
fn query_result_decides_theme() {
    assert_eq!(theme_from_query(true, "'prefer-dark'\n"), Ok(ThemePreference::Dark));
    assert_eq!(theme_from_query(true, "'default'\n"), Ok(ThemePreference::Light));
    assert_eq!(theme_from_query(false, "'prefer-dark'\n"), Err(ThemeError::SubprocessExit));
}

#[test]
fn home_resolution() {
    let both = HomeVars { real_home: Some("/real".to_string()), home: Some("/snap".to_string()) };
    assert_eq!(resolve_home(&both), Some("/real"));
    let only_home = HomeVars { real_home: None, home: Some("/home/u".to_string()) };
    assert_eq!(resolve_home(&only_home), Some("/home/u"));
    let none = HomeVars { real_home: None, home: None };
    assert_eq!(resolve_home(&none), None);
}

#[test]
fn default_config_location() {
    let vars = HomeVars { real_home: None, home: Some("/home/u".to_string()) };
    assert_eq!(
        default_config_path(&vars),
        Ok("/home/u/.config/theme-sync/default-config.yml".to_string())
    );
    let none = HomeVars { real_home: None, home: None };
    assert_eq!(default_config_path(&none), Err(ThemeError::EnvironmentMissing));
}

#[test]
fn monitor_decisions() {
    let dark = MonitorEvent::Line("'prefer-dark'".to_string());
    assert_eq!(monitor_step(&dark), MonitorAction::Apply(ThemePreference::Dark));
    let other = MonitorEvent::Line("'default'".to_string());
    assert_eq!(monitor_step(&other), MonitorAction::Apply(ThemePreference::Light));
    assert_eq!(monitor_step(&MonitorEvent::Applied(Ok(()))), MonitorAction::Listen);
    assert_eq!(
        monitor_step(&MonitorEvent::Applied(Err(ThemeError::FileRead))),
        MonitorAction::Stop(Err(ThemeError::FileRead))
    );
    assert_eq!(monitor_step(&MonitorEvent::Closed), MonitorAction::Stop(Ok(())));
}

#[test]
fn monitor_runs_every_line() {
    let config = Config { apps: vec![app("term", "t.conf", "L", "D", None)] };
    let mut host = Host::new("/h");
    host.files.insert("/h/t.conf".to_string(), "L".to_string());
    let lines = ["'prefer-dark'", "'prefer-dark'", "'default'"];
    let mut fanouts = 0;
    for line in lines {
        let mut event = MonitorEvent::Line(line.to_string());
        loop {
            match monitor_step(&event) {
                MonitorAction::Apply(theme) => {
                    fanouts += 1;
                    event = MonitorEvent::Applied(drive(&mut host, theme, &config));
                }
                MonitorAction::Listen => break,
                MonitorAction::Stop(result) => panic!("stopped early: {:?}", result),
            }
        }
    }
    assert_eq!(fanouts, 3);
    assert_eq!(host.reads.len(), 3);
    assert_eq!(host.writes.len(), 2);
    assert_eq!(host.files["/h/t.conf"], "L");
}

#[test]
fn second_pass_changes_when_replacement_holds_pattern() {
    let once = rewrite("a", "a", "aa").unwrap();
    assert_eq!(once, "aa");
    assert_eq!(rewrite(&once, "a", "aa"), Some("aaaa".to_string()));
}
