//! One application's record, and the steps that bring it to a theme.
use crate::error::ThemeError;
use crate::text::{push_char, replaced, rewrite};
use crate::theme::ThemePreference;
use vstd::prelude::*;

verus! {

/// One configured application.
#[derive(Clone, Debug)]
pub struct AppConfig {
    /// Display name, used in messages only.
    pub name: String,
    /// Path of the themed file, relative to the home directory.
    pub path: String,
    /// Text that marks the light theme in the file.
    pub light_token: String,
    /// Text that marks the dark theme in the file.
    pub dark_token: String,
    /// Shell command that makes the application re-read the file.
    pub reload_cmd: Option<String>,
}

/// The values of the two home variables at the moment of an apply.
#[derive(Clone, Debug)]
pub struct HomeVars {
    /// `SNAP_REAL_HOME`, the user's real home inside a snap; it takes
    /// precedence.
    pub real_home: Option<String>,
    /// `HOME`.
    pub home: Option<String>,
}

/// The home directory that `vars` name, if any.
pub open spec fn home_of(vars: HomeVars) -> Option<Seq<char>> {
    match vars.real_home {
        Some(h) => Some(h@),
        None => match vars.home {
            Some(h) => Some(h@),
            None => None,
        },
    }
}

/// `rel` resolved against the directory `base`: an absolute `rel` stands
/// alone, otherwise the two are joined by one separator.
pub open spec fn joined(base: Seq<char>, rel: Seq<char>) -> Seq<char> {
    if rel.len() > 0 && rel[0] == '/' {
        rel
    } else if base.len() == 0 || base.last() == '/' {
        base + rel
    } else {
        base + seq!['/'] + rel
    }
}

/// `rel` resolved against the directory `base`.
pub fn join_path(base: &str, rel: &str) -> (r: String)
    ensures
        r@ == joined(base@, rel@),
{
    if rel.unicode_len() > 0 && rel.get_char(0) == '/' {
        return rel.to_owned();
    }
    let mut out = base.to_owned();
    let n = base.unicode_len();
    if n > 0 && base.get_char(n - 1) != '/' {
        push_char(&mut out, '/');
    }
    out.append(rel);
    out
}

/// The home directory that `vars` name: `SNAP_REAL_HOME` when set, else
/// `HOME`.
pub fn resolve_home(vars: &HomeVars) -> (r: Option<&str>)
    ensures
        r is None <==> home_of(*vars) is None,
        r matches Some(h) ==> home_of(*vars) == Some(h@),
{
    match &vars.real_home {
        Some(h) => Some(h.as_str()),
        None => match &vars.home {
            Some(h) => Some(h.as_str()),
            None => None,
        },
    }
}

/// Where the configuration is read from when no path is given.
pub open spec fn default_config_location(home: Seq<char>) -> Seq<char> {
    joined(home, ".config/theme-sync/default-config.yml"@)
}

/// The default configuration path under the home directory that `vars`
/// name; fails when neither variable is set.
pub fn default_config_path(vars: &HomeVars) -> (r: Result<String, ThemeError>)
    ensures
        home_of(*vars) is None ==> r == Err::<String, ThemeError>(ThemeError::EnvironmentMissing),
        home_of(*vars) matches Some(h) ==> r matches Ok(p) && p@ == default_config_location(h),
{
    match resolve_home(vars) {
        Some(home) => Ok(join_path(home, ".config/theme-sync/default-config.yml")),
        None => Err(ThemeError::EnvironmentMissing),
    }
}

/// The token to be replaced when `theme` is applied to `app`.
pub open spec fn from_token(app: AppConfig, theme: ThemePreference) -> Seq<char> {
    match theme {
        ThemePreference::Dark => app.light_token@,
        ThemePreference::Light => app.dark_token@,
    }
}

/// The token that replaces it.
pub open spec fn to_token(app: AppConfig, theme: ThemePreference) -> Seq<char> {
    match theme {
        ThemePreference::Dark => app.dark_token@,
        ThemePreference::Light => app.light_token@,
    }
}

/// Outside work that the caller is asked to perform.
#[derive(Clone, Debug)]
pub enum Request {
    /// Look up the two home variables now.
    HomeVars,
    /// Read the whole file at `path` as text.
    Read { path: String },
    /// Replace the content of the file at `path` with `contents`.
    Write { path: String, contents: String },
    /// Run `command` through a shell.
    Reload { command: String },
}

/// What the caller reports after performing a request.
#[derive(Clone, Debug)]
pub enum Reply {
    /// The home variables, answering `HomeVars`.
    Home(HomeVars),
    /// The file's text, answering `Read`.
    Contents(String),
    /// The file could not be read, answering `Read`.
    ReadFailed,
    /// The file was written, answering `Write`.
    Written,
    /// The file could not be written, answering `Write`.
    WriteFailed,
    /// The reload command ran; `true` when it exited with success.
    Reloaded(bool),
}

/// Where one application's apply stands.
#[derive(Clone, Debug)]
pub enum AppPhase {
    /// Waiting for the home variables.
    Resolving,
    /// Waiting for the content of the file at `path`.
    Reading { path: String },
    /// Waiting for the write to finish.
    Writing,
    /// Waiting for the reload command to finish.
    Reloading,
}

/// What follows a reply: another request, or the end of this application.
#[derive(Debug)]
pub enum AppStep {
    /// The apply goes on in this phase, once this request is answered.
    Next(AppPhase, Request),
    /// The apply is over, with this result.
    Done(Result<(), ThemeError>),
}

/// Whether `reply` answers the request made in `phase`.
pub open spec fn answers(phase: AppPhase, reply: Reply) -> bool {
    match phase {
        AppPhase::Resolving => reply is Home,
        AppPhase::Reading { .. } => reply is Contents || reply is ReadFailed,
        AppPhase::Writing => reply is Written || reply is WriteFailed,
        AppPhase::Reloading => reply is Reloaded,
    }
}

/// The result of the apply once the file holds its new text: it succeeds at
/// once when no reload command is configured, else it waits for the reload.
pub open spec fn done_after_substitution(app: AppConfig) -> Option<Result<(), ThemeError>> {
    if app.reload_cmd is Some {
        None
    } else {
        Some(Ok(()))
    }
}

/// The result with which `app`'s apply ends on `reply` in `phase`, or `None`
/// when it goes on. The outcome of the reload command never matters.
pub open spec fn app_done(
    app: AppConfig,
    theme: ThemePreference,
    phase: AppPhase,
    reply: Reply,
) -> Option<Result<(), ThemeError>> {
    match reply {
        Reply::Home(vars) => if home_of(vars) is None {
            Some(Err(ThemeError::EnvironmentMissing))
        } else {
            None
        },
        Reply::Contents(c) => if replaced(c@, from_token(app, theme), to_token(app, theme)) == c@ {
            done_after_substitution(app)
        } else {
            None
        },
        Reply::ReadFailed => Some(Err(ThemeError::FileRead)),
        Reply::Written => done_after_substitution(app),
        Reply::WriteFailed => Some(Err(ThemeError::FileWrite)),
        Reply::Reloaded(_) => Some(Ok(())),
    }
}

/// The request and phase that follow `reply` in `phase` when `app`'s apply
/// goes on.
pub open spec fn app_next(
    app: AppConfig,
    theme: ThemePreference,
    phase: AppPhase,
    reply: Reply,
    next: AppPhase,
    request: Request,
) -> bool {
    match reply {
        Reply::Home(vars) => match (next, request) {
            (AppPhase::Reading { path }, Request::Read { path: p }) => path@ == joined(
                home_of(vars)->0,
                app.path@,
            ) && p@ == path@,
            _ => false,
        },
        Reply::Contents(c) => {
            let updated = replaced(c@, from_token(app, theme), to_token(app, theme));
            if updated == c@ {
                reload_next(app, next, request)
            } else {
                match (phase, next, request) {
                    (AppPhase::Reading { path }, AppPhase::Writing, Request::Write { path: p, contents }) => {
                        p@ == path@ && contents@ == updated
                    },
                    _ => false,
                }
            }
        },
        Reply::Written => reload_next(app, next, request),
        _ => false,
    }
}

/// The reload request for `app`'s configured command.
pub open spec fn reload_next(app: AppConfig, next: AppPhase, request: Request) -> bool {
    match (next, request, app.reload_cmd) {
        (AppPhase::Reloading, Request::Reload { command }, Some(c)) => command@ == c@,
        _ => false,
    }
}

/// Applies a theme to one application, one step at a time.
pub struct Configurator<'a> {
    pub app: &'a AppConfig,
}

impl<'a> Configurator<'a> {
    /// A configurator for `app`.
    pub fn new(app: &'a AppConfig) -> (r: Self)
        ensures
            r.app == app,
    {
        Configurator { app }
    }

    /// The token to replace and its replacement for `theme`: applying dark
    /// turns the light token into the dark one, and light the reverse.
    pub fn tokens(&self, theme: ThemePreference) -> (r: (&'a str, &'a str))
        ensures
            r.0@ == from_token(*self.app, theme),
            r.1@ == to_token(*self.app, theme),
    {
        match theme {
            ThemePreference::Dark => (self.app.light_token.as_str(), self.app.dark_token.as_str()),
            ThemePreference::Light => (self.app.dark_token.as_str(), self.app.light_token.as_str()),
        }
    }

    /// The absolute path of the themed file under the home directory that
    /// `vars` name; fails when neither variable is set.
    pub fn target(&self, vars: &HomeVars) -> (r: Result<String, ThemeError>)
        ensures
            home_of(*vars) is None <==> r == Err::<String, ThemeError>(ThemeError::EnvironmentMissing),
            r matches Ok(p) ==> home_of(*vars) is Some && p@ == joined(
                home_of(*vars)->0,
                self.app.path@,
            ),
            r is Ok || r == Err::<String, ThemeError>(ThemeError::EnvironmentMissing),
    {
        match resolve_home(vars) {
            Some(home) => Ok(join_path(home, self.app.path.as_str())),
            None => Err(ThemeError::EnvironmentMissing),
        }
    }

    /// The first request of an apply: the home variables.
    pub fn begin(&self) -> (r: (AppPhase, Request))
        ensures
            r.0 is Resolving,
            r.1 is HomeVars,
    {
        (AppPhase::Resolving, Request::HomeVars)
    }

    fn after_substitution(&self) -> (r: AppStep)
        ensures
            r matches AppStep::Done(res) ==> done_after_substitution(*self.app) == Some(res),
            r matches AppStep::Next(next, request) ==> done_after_substitution(*self.app) is None
                && reload_next(*self.app, next, request),
    {
        match &self.app.reload_cmd {
            Some(c) => AppStep::Next(AppPhase::Reloading, Request::Reload { command: c.clone() }),
            None => AppStep::Done(Ok(())),
        }
    }

    /// Takes the caller's `reply` to the request made in `phase` and says
    /// what follows. Applying dark replaces the light token with the dark
    /// one, light the reverse; the file is written only when its text
    /// changes; a failed reload still ends the apply with success.
    pub fn apply(&self, theme: ThemePreference, phase: &AppPhase, reply: Reply) -> (r: AppStep)
        requires
            answers(*phase, reply),
        ensures
            r matches AppStep::Done(res) ==> app_done(*self.app, theme, *phase, reply) == Some(res),
            r matches AppStep::Next(next, request) ==> app_done(*self.app, theme, *phase, reply)
                is None && app_next(*self.app, theme, *phase, reply, next, request),
    {
        match reply {
            Reply::Home(vars) => match self.target(&vars) {
                Ok(path) => {
                    let p = path.clone();
                    AppStep::Next(AppPhase::Reading { path }, Request::Read { path: p })
                },
                Err(e) => AppStep::Done(Err(e)),
            },
            Reply::Contents(c) => {
                let (from, to) = self.tokens(theme);
                match rewrite(c.as_str(), from, to) {
                    Some(updated) => match phase {
                        AppPhase::Reading { path } => AppStep::Next(
                            AppPhase::Writing,
                            Request::Write { path: path.clone(), contents: updated },
                        ),
                        _ => AppStep::Done(Err(ThemeError::FileRead)),
                    },
                    None => self.after_substitution(),
                }
            },
            Reply::ReadFailed => AppStep::Done(Err(ThemeError::FileRead)),
            Reply::Written => self.after_substitution(),
            Reply::WriteFailed => AppStep::Done(Err(ThemeError::FileWrite)),
            Reply::Reloaded(_) => AppStep::Done(Ok(())),
        }
    }
}

/// A failed reload never fails an apply: once the reload command has run,
/// the apply ends with success whatever its exit status was.
pub proof fn lemma_reload_failure_isolated(app: AppConfig, theme: ThemePreference, succeeded: bool)
    ensures
        app_done(app, theme, AppPhase::Reloading, Reply::Reloaded(succeeded)) == Some(
            Ok::<(), ThemeError>(()),
        ),
        app_done(app, theme, AppPhase::Reloading, Reply::Reloaded(false)) == app_done(
            app,
            theme,
            AppPhase::Reloading,
            Reply::Reloaded(true),
        ),
{
}

} // verus!
