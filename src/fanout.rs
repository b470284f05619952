//! Applies one theme to every configured application in order, stopping at
//! the first failure.
use crate::configurator::{
    answers, app_done, app_next, AppConfig, AppPhase, AppStep, Configurator, Reply, Request,
};
use crate::error::ThemeError;
use crate::theme::ThemePreference;
use vstd::prelude::*;

verus! {

/// The configured applications, in the order in which they are themed.
#[derive(Clone, Debug)]
pub struct Config {
    pub apps: Vec<AppConfig>,
}

/// What a run of the fan-out hands back to its caller.
#[derive(Debug)]
pub enum Progress {
    /// Perform this request and report with `FanOut::resume`.
    Ask(Request),
    /// The run is over, with this result.
    Finished(Result<(), ThemeError>),
}

/// One theme change across all applications of a configuration.
pub struct FanOut<'a> {
    pub config: &'a Config,
    pub theme: ThemePreference,
    /// The application being themed.
    pub index: usize,
    /// Where that application's apply stands.
    pub phase: AppPhase,
    /// The result, once the run is over.
    pub outcome: Option<Result<(), ThemeError>>,
}

/// How a run moves on when `reply` answers the request last handed out by
/// `before`, ending as `after` and handing `r` to the caller.
pub open spec fn resumed(before: FanOut, reply: Reply, after: FanOut, r: Progress) -> bool {
    let app = before.current();
    let theme = before.theme;
    match app_done(app, theme, before.phase, reply) {
        None => match r {
            Progress::Ask(request) => {
                &&& after.index == before.index
                &&& after.outcome is None
                &&& app_next(app, theme, before.phase, reply, after.phase, request)
            },
            Progress::Finished(_) => false,
        },
        Some(Err(e)) => {
            &&& r == Progress::Finished(Err(e))
            &&& after.outcome == Some(Err::<(), ThemeError>(e))
            &&& after.index == before.index
        },
        Some(Ok(())) => if before.index + 1 < before.config.apps.len() {
            &&& r matches Progress::Ask(Request::HomeVars)
            &&& after.index == before.index + 1
            &&& after.phase is Resolving
            &&& after.outcome is None
        } else {
            &&& r == Progress::Finished(Ok(()))
            &&& after.outcome == Some(Ok::<(), ThemeError>(()))
            &&& after.index == before.index
        },
    }
}

/// A failure ends the whole run: when the current application's apply fails,
/// the run finishes with that error at that application, and a finished run
/// takes no further reply, so no later application is touched.
pub proof fn lemma_failure_ends_run(
    before: FanOut,
    reply: Reply,
    after: FanOut,
    r: Progress,
    e: ThemeError,
)
    requires
        resumed(before, reply, after, r),
        app_done(before.current(), before.theme, before.phase, reply) == Some(
            Err::<(), ThemeError>(e),
        ),
    ensures
        r == Progress::Finished(Err(e)),
        after.outcome == Some(Err::<(), ThemeError>(e)),
        after.index == before.index,
{
}

impl<'a> FanOut<'a> {
    /// A run still going on is at one of the configuration's applications.
    pub open spec fn wf(&self) -> bool {
        self.outcome is None ==> self.index < self.config.apps.len()
    }

    /// The application being themed.
    pub open spec fn current(&self) -> AppConfig {
        self.config.apps@[self.index as int]
    }

    /// Whether the run still waits for a reply.
    pub fn is_running(&self) -> (r: bool)
        ensures
            r == (self.outcome is None),
    {
        self.outcome.is_none()
    }

    /// Whether `reply` answers the request last handed out.
    pub fn accepts(&self, reply: &Reply) -> (r: bool)
        ensures
            r == answers(self.phase, *reply),
    {
        match (&self.phase, reply) {
            (AppPhase::Resolving, Reply::Home(_)) => true,
            (AppPhase::Reading { .. }, Reply::Contents(_)) => true,
            (AppPhase::Reading { .. }, Reply::ReadFailed) => true,
            (AppPhase::Writing, Reply::Written) => true,
            (AppPhase::Writing, Reply::WriteFailed) => true,
            (AppPhase::Reloading, Reply::Reloaded(_)) => true,
            _ => false,
        }
    }

    /// Takes the caller's reply to the last request. When the current
    /// application's apply goes on, its next request is handed out; when it
    /// fails, the whole run fails with its error and no later application is
    /// touched; when it succeeds, the next application begins, or the run
    /// succeeds after the last one.
    pub fn resume(&mut self, reply: Reply) -> (r: Progress)
        requires
            old(self).wf(),
            old(self).outcome is None,
            answers(old(self).phase, reply),
        ensures
            final(self).wf(),
            final(self).config == old(self).config,
            final(self).theme == old(self).theme,
            resumed(*old(self), reply, *final(self), r),
    {
        let configurator = Configurator::new(&self.config.apps[self.index]);
        match configurator.apply(self.theme, &self.phase, reply) {
            AppStep::Next(next, request) => {
                self.phase = next;
                Progress::Ask(request)
            },
            AppStep::Done(Err(e)) => {
                self.outcome = Some(Err(e));
                Progress::Finished(Err(e))
            },
            AppStep::Done(Ok(())) => {
                if self.index + 1 < self.config.apps.len() {
                    self.index = self.index + 1;
                    let (first, request) = Configurator::new(&self.config.apps[self.index]).begin();
                    self.phase = first;
                    Progress::Ask(request)
                } else {
                    self.outcome = Some(Ok(()));
                    Progress::Finished(Ok(()))
                }
            },
        }
    }
}

/// Starts applying `theme` to every application of `config`, in order. An
/// empty configuration succeeds at once; otherwise the first application's
/// first request is handed out.
pub fn apply_all<'a>(theme: ThemePreference, config: &'a Config) -> (r: (FanOut<'a>, Progress))
    ensures
        r.0.wf(),
        r.0.config == config,
        r.0.theme == theme,
        config.apps.len() == 0 ==> r.1 == Progress::Finished(Ok(())) && r.0.outcome == Some(
            Ok::<(), ThemeError>(()),
        ),
        config.apps.len() > 0 ==> {
            &&& r.1 matches Progress::Ask(Request::HomeVars)
            &&& r.0.index == 0
            &&& r.0.phase is Resolving
            &&& r.0.outcome is None
        },
{
    if config.apps.len() == 0 {
        let run = FanOut { config, theme, index: 0, phase: AppPhase::Resolving, outcome: Some(Ok(())) };
        (run, Progress::Finished(Ok(())))
    } else {
        let (phase, request) = Configurator::new(&config.apps[0]).begin();
        let run = FanOut { config, theme, index: 0, phase, outcome: None };
        (run, Progress::Ask(request))
    }
}

/// The theme to apply in one-shot mode, from the preference query's exit
/// status and output: a failed query is an error, otherwise the output is
/// read as preference text.
pub fn theme_from_query(succeeded: bool, output: &str) -> (r: Result<ThemePreference, ThemeError>)
    ensures
        !succeeded ==> r == Err::<ThemePreference, ThemeError>(ThemeError::SubprocessExit),
        succeeded ==> r == Ok::<ThemePreference, ThemeError>(crate::theme::theme_of(output@)),
{
    if succeeded {
        Ok(crate::theme::infer_theme(output))
    } else {
        Err(ThemeError::SubprocessExit)
    }
}

} // verus!
