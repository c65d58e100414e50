//! Keeping a session alive: which token a command runs with, when the
//! refresh token is traded for a new pair, and when the CLI logs in again
//! with a password, as a state machine whose actions the caller performs.
use vstd::prelude::*;

use crate::cli_args::{AppError, AppErrorView, Config, ConfigView};
use crate::cli_plan::set_tokens;
use crate::client::{opt_str, ErrorView, TaigaError, TokenPair};
use crate::session::{is_expired_at, is_expired_spec};
use crate::text::{owned, str_eq};

verus! {

/// What the environment tells about the session of one run of the CLI.
#[derive(Debug)]
pub struct SessionInputs {
    /// `TAIGA_AUTH_TOKEN`: an access token for this process only.
    pub env_access: Option<String>,
    /// `TAIGA_REFRESH_TOKEN`: a refresh token for this process only.
    pub env_refresh: Option<String>,
    /// `TAIGA_PASSWORD`: a password for a silent re-login.
    pub env_password: Option<String>,
    /// The API URL given with `--api-url` or `TAIGA_API_URL`, if any.
    pub api_override: Option<String>,
    /// Whether a password can be asked for on a terminal.
    pub interactive: bool,
    /// The current UNIX time in seconds.
    pub now: u64,
}

pub struct InputsView {
    pub env_access: Option<Seq<char>>,
    pub env_refresh: Option<Seq<char>>,
    pub env_password: Option<Seq<char>>,
    pub api_override: Option<Seq<char>>,
    pub interactive: bool,
    pub now: u64,
}

impl View for SessionInputs {
    type V = InputsView;

    open spec fn view(&self) -> InputsView {
        InputsView {
            env_access: opt_str(self.env_access),
            env_refresh: opt_str(self.env_refresh),
            env_password: opt_str(self.env_password),
            api_override: opt_str(self.api_override),
            interactive: self.interactive,
            now: self.now,
        }
    }
}

/// Where the session is.
#[derive(Debug)]
pub enum Phase {
    /// Nothing was tried yet.
    Start,
    /// The command runs; `retried` once it runs with renewed tokens.
    Running { retried: bool },
    /// The refresh token is being traded; `persist` when the new pair replaces
    /// the saved one.
    Refreshing { persist: bool },
    /// The saved password of `username` is being read; `error` is what is
    /// reported if no password can be had.
    LookingUp { username: String, error: Option<AppError> },
    /// A password for `username` is being asked for on the terminal.
    Prompting { username: String, error: Option<AppError> },
    /// The CLI logs in again; `persist` when the new pair is saved.
    LoggingIn { persist: bool },
    /// The session is over.
    Finished,
}

/// What happened after the last action.
#[derive(Debug)]
pub enum Event {
    /// The machine starts.
    Begin,
    /// The command, the refresh, the lookup or the login failed.
    Failed(AppError),
    /// The command succeeded.
    Succeeded,
    /// A refresh or a login gave a new token pair.
    Tokens(TokenPair),
    /// A password lookup or prompt ended, with or without a password.
    Password(Option<String>),
}

/// What the caller does next.
#[derive(Debug)]
pub enum Action {
    /// Run the command with this access token.
    Run(String),
    /// Trade this refresh token for a new pair.
    Refresh(String),
    /// Read the saved password of this user.
    LookupPassword(String),
    /// Ask for the password of this user on the terminal.
    Prompt(String),
    /// Log in with this user name and password.
    Login(String, String),
    /// The command succeeded.
    Done,
    /// The command failed with this error.
    Fail(AppError),
}

/// A step of the machine: the next phase, the action, and whether the
/// configuration changed and must be saved.
#[derive(Debug)]
pub struct Decision {
    pub phase: Phase,
    pub action: Action,
    pub save: bool,
}

pub enum PhaseView {
    Start,
    Running(bool),
    Refreshing(bool),
    LookingUp(Seq<char>, Option<AppErrorView>),
    Prompting(Seq<char>, Option<AppErrorView>),
    LoggingIn(bool),
    Finished,
}

pub enum EventView {
    Begin,
    Failed(AppErrorView),
    Succeeded,
    Tokens(Seq<char>, Seq<char>),
    Password(Option<Seq<char>>),
}

pub enum ActionView {
    Run(Seq<char>),
    Refresh(Seq<char>),
    LookupPassword(Seq<char>),
    Prompt(Seq<char>),
    Login(Seq<char>, Seq<char>),
    Done,
    Fail(AppErrorView),
}

pub open spec fn opt_error(e: Option<AppError>) -> Option<AppErrorView> {
    match e {
        Some(e) => Some(e@),
        None => None,
    }
}

pub open spec fn phase_view(p: Phase) -> PhaseView {
    match p {
        Phase::Start => PhaseView::Start,
        Phase::Running { retried } => PhaseView::Running(retried),
        Phase::Refreshing { persist } => PhaseView::Refreshing(persist),
        Phase::LookingUp { username, error } => PhaseView::LookingUp(username@, opt_error(error)),
        Phase::Prompting { username, error } => PhaseView::Prompting(username@, opt_error(error)),
        Phase::LoggingIn { persist } => PhaseView::LoggingIn(persist),
        Phase::Finished => PhaseView::Finished,
    }
}

pub open spec fn event_view(e: Event) -> EventView {
    match e {
        Event::Begin => EventView::Begin,
        Event::Failed(e) => EventView::Failed(e@),
        Event::Succeeded => EventView::Succeeded,
        Event::Tokens(t) => EventView::Tokens(t.auth_token@, t.refresh@),
        Event::Password(p) => EventView::Password(opt_str(p)),
    }
}

pub open spec fn action_view(a: Action) -> ActionView {
    match a {
        Action::Run(t) => ActionView::Run(t@),
        Action::Refresh(t) => ActionView::Refresh(t@),
        Action::LookupPassword(u) => ActionView::LookupPassword(u@),
        Action::Prompt(u) => ActionView::Prompt(u@),
        Action::Login(u, p) => ActionView::Login(u@, p@),
        Action::Done => ActionView::Done,
        Action::Fail(e) => ActionView::Fail(e@),
    }
}

/// The model of a [`Decision`] with the configuration after it.
pub struct DecisionView {
    pub phase: PhaseView,
    pub action: ActionView,
    pub config: ConfigView,
    pub save: bool,
}

/// Which events each phase waits for.
pub open spec fn event_fits(p: PhaseView, e: EventView) -> bool {
    match p {
        PhaseView::Start => e is Begin,
        PhaseView::Running(_) => e is Succeeded || e is Failed,
        PhaseView::Refreshing(_) => e is Tokens || e is Failed,
        PhaseView::LookingUp(_, _) => e is Password || e is Failed,
        PhaseView::Prompting(_, _) => e is Password || e is Failed,
        PhaseView::LoggingIn(_) => e is Tokens || e is Failed,
        PhaseView::Finished => false,
    }
}

pub open spec fn no_session_message() -> Seq<char> {
    "no valid session, run `taiga-cli auth login`"@
}

/// Whether the saved credentials (refresh token, user name, saved password)
/// may be used: not with an access token from the environment, and only for
/// the server saved in the configuration.
pub open spec fn stored_allowed(inp: InputsView, cfg: ConfigView) -> bool {
    inp.env_access is None && match inp.api_override {
        None => true,
        Some(u) => cfg.api_url == Some(u),
    }
}

/// The access token: the environment's, else the saved one.
pub open spec fn access_token(inp: InputsView, cfg: ConfigView) -> Option<Seq<char>> {
    match inp.env_access {
        Some(t) => Some(t),
        None => cfg.auth_token,
    }
}

/// The refresh token to trade and whether its rotation is saved: the
/// environment's (never saved), else the saved one when allowed.
pub open spec fn refresh_choice(inp: InputsView, cfg: ConfigView) -> Option<(Seq<char>, bool)> {
    match inp.env_refresh {
        Some(r) => Some((r, false)),
        None => if stored_allowed(inp, cfg) {
            match cfg.refresh_token {
                Some(r) => Some((r, true)),
                None => None,
            }
        } else {
            None
        },
    }
}

/// Whether an error is a rejected authentication.
pub open spec fn is_unauthorized(e: AppErrorView) -> bool {
    e matches AppErrorView::Client(ErrorView::Unauthorized(_))
}

/// Ending the session with an error: the given one, or the hint to log in.
pub open spec fn give_up(cfg: ConfigView, error: Option<AppErrorView>) -> DecisionView {
    DecisionView {
        phase: PhaseView::Finished,
        action: ActionView::Fail(match error {
            Some(e) => e,
            None => AppErrorView::Session(no_session_message()),
        }),
        config: cfg,
        save: false,
    }
}

/// Logging in again once both tokens are gone: with `TAIGA_PASSWORD` (the
/// new pair is not saved), else with the password saved with `--remember`,
/// else with a password typed on the terminal; never without the saved
/// user name or when the saved credentials may not be used.
pub open spec fn relogin_spec(inp: InputsView, cfg: ConfigView, error: Option<AppErrorView>) -> DecisionView {
    if !stored_allowed(inp, cfg) || cfg.username is None {
        give_up(cfg, error)
    } else {
        let u = cfg.username->0;
        match inp.env_password {
            Some(p) => DecisionView { phase: PhaseView::LoggingIn(false), action: ActionView::Login(u, p), config: cfg, save: false },
            None => if cfg.remember_password {
                DecisionView { phase: PhaseView::LookingUp(u, error), action: ActionView::LookupPassword(u), config: cfg, save: false }
            } else if inp.interactive {
                DecisionView { phase: PhaseView::Prompting(u, error), action: ActionView::Prompt(u), config: cfg, save: false }
            } else {
                give_up(cfg, error)
            },
        }
    }
}

/// Renewing the session: trade a refresh token that has not expired, else
/// log in again.
pub open spec fn renew_spec(inp: InputsView, cfg: ConfigView, error: Option<AppErrorView>) -> DecisionView {
    match refresh_choice(inp, cfg) {
        Some((r, persist)) => if !is_expired_spec(r, inp.now) {
            DecisionView { phase: PhaseView::Refreshing(persist), action: ActionView::Refresh(r), config: cfg, save: false }
        } else {
            relogin_spec(inp, cfg, error)
        },
        None => relogin_spec(inp, cfg, error),
    }
}

/// Running the command with new tokens, saving them when asked.
pub open spec fn with_tokens(cfg: ConfigView, persist: bool, access: Seq<char>, refresh: Seq<char>) -> DecisionView {
    DecisionView {
        phase: PhaseView::Running(true),
        action: ActionView::Run(access),
        config: if persist { ConfigView { auth_token: Some(access), refresh_token: Some(refresh), ..cfg } } else { cfg },
        save: persist,
    }
}

/// One step of the session machine.
pub open spec fn session_spec(inp: InputsView, cfg: ConfigView, p: PhaseView, e: EventView) -> DecisionView {
    match p {
        PhaseView::Start => match access_token(inp, cfg) {
            Some(t) => if !is_expired_spec(t, inp.now) {
                DecisionView { phase: PhaseView::Running(false), action: ActionView::Run(t), config: cfg, save: false }
            } else {
                renew_spec(inp, cfg, None)
            },
            None => renew_spec(inp, cfg, None),
        },
        PhaseView::Running(retried) => match e {
            EventView::Failed(err) => if is_unauthorized(err) && !retried {
                renew_spec(inp, cfg, Some(err))
            } else {
                give_up(cfg, Some(err))
            },
            _ => DecisionView { phase: PhaseView::Finished, action: ActionView::Done, config: cfg, save: false },
        },
        PhaseView::Refreshing(persist) => match e {
            EventView::Tokens(a, r) => with_tokens(cfg, persist, a, r),
            EventView::Failed(err) => if is_unauthorized(err) {
                relogin_spec(inp, cfg, Some(err))
            } else {
                give_up(cfg, Some(err))
            },
            _ => give_up(cfg, None),
        },
        PhaseView::LookingUp(u, error) => match e {
            EventView::Password(Some(pw)) => DecisionView { phase: PhaseView::LoggingIn(true), action: ActionView::Login(u, pw), config: cfg, save: false },
            EventView::Failed(err) => give_up(cfg, Some(err)),
            _ => if inp.interactive {
                DecisionView { phase: PhaseView::Prompting(u, error), action: ActionView::Prompt(u), config: cfg, save: false }
            } else {
                give_up(cfg, error)
            },
        },
        PhaseView::Prompting(u, error) => match e {
            EventView::Password(Some(pw)) => DecisionView { phase: PhaseView::LoggingIn(true), action: ActionView::Login(u, pw), config: cfg, save: false },
            EventView::Failed(err) => give_up(cfg, Some(err)),
            _ => give_up(cfg, error),
        },
        PhaseView::LoggingIn(persist) => match e {
            EventView::Tokens(a, r) => with_tokens(cfg, persist, a, r),
            EventView::Failed(err) => give_up(cfg, Some(err)),
            _ => give_up(cfg, None),
        },
        PhaseView::Finished => give_up(cfg, None),
    }
}

/// When both tokens are gone (each absent or expired, none given in the
/// environment), the saved credentials may be used and `TAIGA_PASSWORD` is
/// not set, a session whose configuration has a password saved with
/// `--remember` starts by looking that password up for the saved user,
/// whether or not stdin is a terminal.
pub proof fn lemma_saved_password_before_prompt(inp: InputsView, cfg: ConfigView, u: Seq<char>)
    requires
        inp.env_access is None,
        inp.env_refresh is None,
        inp.env_password is None,
        inp.api_override is None || inp.api_override == cfg.api_url,
        cfg.auth_token is None || is_expired_spec(cfg.auth_token->0, inp.now),
        cfg.refresh_token is None || is_expired_spec(cfg.refresh_token->0, inp.now),
        cfg.username == Some(u),
        cfg.remember_password,
    ensures
        session_spec(inp, cfg, PhaseView::Start, EventView::Begin).action == ActionView::LookupPassword(u),
{
}

/// A password is asked for on the terminal only when none is saved with
/// `--remember`, or when looking the saved one up found nothing.
pub proof fn lemma_prompt_only_without_saved_password(inp: InputsView, cfg: ConfigView, p: PhaseView, e: EventView)
    ensures
        session_spec(inp, cfg, p, e).action is Prompt ==> !cfg.remember_password || p is LookingUp,
{
}

/// Phases in which the saved credentials, or a password, are used.
pub open spec fn uses_credentials(p: PhaseView) -> bool {
    p is LookingUp || p is Prompting || p is LoggingIn
}

/// What holds of every phase that the machine reaches from `Start`: a
/// password is looked up, asked for or logged in with only where the saved
/// credentials may be used; the saved or typed password is looked for only
/// without `TAIGA_PASSWORD`; a refresh or a login is saved exactly when its
/// secret did not come from the environment.
pub open spec fn phase_consistent(inp: InputsView, cfg: ConfigView, p: PhaseView) -> bool {
    &&& uses_credentials(p) ==> stored_allowed(inp, cfg)
    &&& (p is LookingUp || p is Prompting) ==> inp.env_password is None
    &&& (p matches PhaseView::Refreshing(persist) ==> persist == (inp.env_refresh is None))
    &&& (p matches PhaseView::LoggingIn(persist) ==> persist == (inp.env_password is None))
}

/// How far a phase is from the end: every step of the machine lowers it.
pub open spec fn phase_rank(p: PhaseView) -> nat {
    match p {
        PhaseView::Finished => 0,
        PhaseView::Running(retried) => if retried { 1 } else { 6 },
        PhaseView::LoggingIn(_) => 2,
        PhaseView::Prompting(_, _) => 3,
        PhaseView::LookingUp(_, _) => 4,
        PhaseView::Refreshing(_) => 5,
        PhaseView::Start => 7,
    }
}

/// The start of every run is consistent, and every step keeps the phase
/// consistent with the inputs and the configuration.
pub proof fn lemma_phase_consistent(inp: InputsView, cfg: ConfigView, p: PhaseView, e: EventView)
    requires
        phase_consistent(inp, cfg, p),
        event_fits(p, e),
    ensures
        phase_consistent(inp, cfg, PhaseView::Start),
        phase_consistent(inp, session_spec(inp, cfg, p, e).config, session_spec(inp, cfg, p, e).phase),
{
}

/// The saved credentials are used only where they may be: a password is
/// looked up, asked for or logged in with only when no access token comes
/// from the environment and the API URL is the saved one, and the refresh
/// token traded is the environment's, or the saved one under the same
/// condition.
pub proof fn lemma_stored_credentials_guarded(inp: InputsView, cfg: ConfigView, p: PhaseView, e: EventView)
    requires
        phase_consistent(inp, cfg, p),
        event_fits(p, e),
    ensures
        ({
            let d = session_spec(inp, cfg, p, e);
            &&& (d.action is LookupPassword || d.action is Prompt || d.action is Login)
                ==> stored_allowed(inp, cfg)
            &&& (d.action matches ActionView::Refresh(r) ==> inp.env_refresh == Some(r)
                || (inp.env_refresh is None && stored_allowed(inp, cfg) && cfg.refresh_token == Some(r)))
        }),
{
}

/// The configuration changes only by saving a new token pair, and only a
/// pair obtained with the saved refresh token or with a saved or typed
/// password: tokens from `TAIGA_REFRESH_TOKEN` or a login with
/// `TAIGA_PASSWORD` are never written back.
pub proof fn lemma_saves_only_stored_rotations(inp: InputsView, cfg: ConfigView, p: PhaseView, e: EventView)
    requires
        phase_consistent(inp, cfg, p),
        event_fits(p, e),
    ensures
        ({
            let d = session_spec(inp, cfg, p, e);
            &&& !d.save ==> d.config == cfg
            &&& d.save ==> e is Tokens && (p == PhaseView::Refreshing(true) || p == PhaseView::LoggingIn(true))
            &&& d.save ==> (inp.env_refresh is None || p is LoggingIn) && (inp.env_password is None || p is Refreshing)
            &&& d.save ==> d.config == ConfigView {
                auth_token: Some(e->Tokens_0),
                refresh_token: Some(e->Tokens_1),
                ..cfg
            }
        }),
{
}

/// A request that was already retried with new tokens is not renewed again:
/// its failure ends the run with that error.
pub proof fn lemma_retry_fails_once(inp: InputsView, cfg: ConfigView, err: AppErrorView)
    ensures
        session_spec(inp, cfg, PhaseView::Running(true), EventView::Failed(err)).action == ActionView::Fail(err),
        session_spec(inp, cfg, PhaseView::Running(true), EventView::Failed(err)).phase == PhaseView::Finished,
{
}

/// No token that has expired is sent: the access token that a run starts
/// with, and every refresh token traded, are unexpired at `now`.
pub proof fn lemma_expired_tokens_not_sent(inp: InputsView, cfg: ConfigView, p: PhaseView, e: EventView)
    requires
        event_fits(p, e),
    ensures
        ({
            let d = session_spec(inp, cfg, p, e);
            &&& (p is Start && d.action is Run) ==> !is_expired_spec(d.action->Run_0, inp.now)
            &&& (d.action matches ActionView::Refresh(r) ==> !is_expired_spec(r, inp.now))
        }),
{
}

/// Every step lowers the rank of the phase, so a run takes at most seven
/// steps: the refresh and the login happen at most once each.
pub proof fn lemma_session_terminates(inp: InputsView, cfg: ConfigView, p: PhaseView, e: EventView)
    requires
        event_fits(p, e),
    ensures
        phase_rank(session_spec(inp, cfg, p, e).phase) < phase_rank(p),
{
}

pub open spec fn decision_view(d: Decision, cfg: Config) -> DecisionView {
    DecisionView { phase: phase_view(d.phase), action: action_view(d.action), config: cfg@, save: d.save }
}

fn opt_eq(a: &Option<String>, b: &String) -> (r: bool)
    ensures
        r == (opt_str(*a) == Some(b@)),
{
    match a {
        Some(x) => str_eq(x.as_str(), b.as_str()),
        None => false,
    }
}

fn may_use_stored(inp: &SessionInputs, cfg: &Config) -> (r: bool)
    ensures
        r == stored_allowed(inp@, cfg@),
{
    inp.env_access.is_none() && match &inp.api_override {
        None => true,
        Some(u) => opt_eq(&cfg.api_url, u),
    }
}

fn finish(error: Option<AppError>) -> (d: Decision)
    ensures
        d.phase is Finished,
        !d.save,
        action_view(d.action) == ActionView::Fail(match opt_error(error) {
            Some(e) => e,
            None => AppErrorView::Session(no_session_message()),
        }),
{
    let e = match error {
        Some(e) => e,
        None => AppError::Session(owned("no valid session, run `taiga-cli auth login`")),
    };
    Decision { phase: Phase::Finished, action: Action::Fail(e), save: false }
}

fn relogin(inp: &SessionInputs, cfg: &Config, error: Option<AppError>) -> (d: Decision)
    ensures
        decision_view(d, *cfg) == relogin_spec(inp@, cfg@, opt_error(error)),
{
    if !may_use_stored(inp, cfg) {
        return finish(error);
    }
    match &cfg.username {
        None => finish(error),
        Some(u) => match &inp.env_password {
            Some(p) => Decision { phase: Phase::LoggingIn { persist: false }, action: Action::Login(u.clone(), p.clone()), save: false },
            None => if cfg.remember_password {
                Decision { phase: Phase::LookingUp { username: u.clone(), error }, action: Action::LookupPassword(u.clone()), save: false }
            } else if inp.interactive {
                Decision { phase: Phase::Prompting { username: u.clone(), error }, action: Action::Prompt(u.clone()), save: false }
            } else {
                finish(error)
            },
        },
    }
}

fn renew(inp: &SessionInputs, cfg: &Config, error: Option<AppError>) -> (d: Decision)
    ensures
        decision_view(d, *cfg) == renew_spec(inp@, cfg@, opt_error(error)),
{
    let choice: Option<(String, bool)> = match &inp.env_refresh {
        Some(r) => Some((r.clone(), false)),
        None => if may_use_stored(inp, cfg) {
            match &cfg.refresh_token {
                Some(r) => Some((r.clone(), true)),
                None => None,
            }
        } else {
            None
        },
    };
    match choice {
        Some((r, persist)) => {
            if !is_expired_at(r.as_str(), inp.now) {
                Decision { phase: Phase::Refreshing { persist }, action: Action::Refresh(r), save: false }
            } else {
                relogin(inp, cfg, error)
            }
        },
        None => relogin(inp, cfg, error),
    }
}

fn run_with_tokens(cfg: &mut Config, persist: bool, tokens: TokenPair) -> (d: Decision)
    ensures
        decision_view(d, *final(cfg)) == with_tokens(old(cfg)@, persist, tokens.auth_token@, tokens.refresh@),
{
    if persist {
        set_tokens(cfg, &tokens);
    }
    Decision { phase: Phase::Running { retried: true }, action: Action::Run(tokens.auth_token), save: persist }
}

fn is_unauthorized_error(e: &AppError) -> (r: bool)
    ensures
        r == is_unauthorized(e@),
{
    match e {
        AppError::Client(TaigaError::Unauthorized { .. }) => true,
        _ => false,
    }
}

/// One step of the session machine: given what happened after the last
/// action, the next phase, the next action, and the configuration after it
/// (`save` when it changed and must be written back). Each phase waits for
/// the events that [`event_fits`] lists; the laws above speak of those.
pub fn session_step(inp: &SessionInputs, cfg: &mut Config, phase: Phase, event: Event) -> (d: Decision)
    ensures
        decision_view(d, *final(cfg)) == session_spec(inp@, old(cfg)@, phase_view(phase), event_view(event)),
{
    match phase {
        Phase::Start => {
            let access: Option<String> = match &inp.env_access {
                Some(t) => Some(t.clone()),
                None => cfg.auth_token.clone(),
            };
            match access {
                Some(t) => if !is_expired_at(t.as_str(), inp.now) {
                    Decision { phase: Phase::Running { retried: false }, action: Action::Run(t), save: false }
                } else {
                    renew(inp, cfg, None)
                },
                None => renew(inp, cfg, None),
            }
        },
        Phase::Running { retried } => match event {
            Event::Failed(err) => if is_unauthorized_error(&err) && !retried {
                renew(inp, cfg, Some(err))
            } else {
                finish(Some(err))
            },
            _ => Decision { phase: Phase::Finished, action: Action::Done, save: false },
        },
        Phase::Refreshing { persist } => match event {
            Event::Tokens(t) => run_with_tokens(cfg, persist, t),
            Event::Failed(err) => if is_unauthorized_error(&err) {
                relogin(inp, cfg, Some(err))
            } else {
                finish(Some(err))
            },
            _ => finish(None),
        },
        Phase::LookingUp { username, error } => match event {
            Event::Password(Some(pw)) => Decision { phase: Phase::LoggingIn { persist: true }, action: Action::Login(username, pw), save: false },
            Event::Failed(err) => finish(Some(err)),
            _ => if inp.interactive {
                let u = username.clone();
                Decision { phase: Phase::Prompting { username, error }, action: Action::Prompt(u), save: false }
            } else {
                finish(error)
            },
        },
        Phase::Prompting { username, error } => match event {
            Event::Password(Some(pw)) => Decision { phase: Phase::LoggingIn { persist: true }, action: Action::Login(username, pw), save: false },
            Event::Failed(err) => finish(Some(err)),
            _ => finish(error),
        },
        Phase::LoggingIn { persist } => match event {
            Event::Tokens(t) => run_with_tokens(cfg, persist, t),
            Event::Failed(err) => finish(Some(err)),
            _ => finish(None),
        },
        Phase::Finished => finish(None),
    }
}

} // verus!
