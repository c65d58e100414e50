use taiga::cli_args::{
    AppError, AttachmentAction, AttachmentAddArgs, AttachmentDownloadArgs, AttachmentEditArgs, AttachmentFile,
    AttachmentRemoveArgs, AuthAction, Command, Config, DeleteArgs, EpicAction, EpicStoriesAction, EpicStoryRemove,
    IdArgs, ListArgs, ResourceAction, SearchCommand,
};
use taiga::cli_plan::{
    api_url, keeps_password, login_output, login_username, pagination, password_to_forget, query, record_forget,
    record_login, record_logout, stdin_password,
};
use taiga::client::{AuthSession, FormPart, FormValue, HttpMethod, PaginationMode, TaigaClient, TaigaError, TokenPair};
use taiga::dispatch::{command_needs_session, download_output, resume, start, Pending, Step};
use taiga::ids::UserId;
use taiga::json::Json;
use taiga::renewal::{session_step, Action, Decision, Event, Phase, SessionInputs};
use taiga::session::PasswordEntries;

fn client() -> TaigaClient {
    TaigaClient::builder("http://127.0.0.1:9").unwrap().bearer_token("access".into()).build()
}

fn list_args() -> ListArgs {
    ListArgs {
        project: None,
        page: None,
        all_visible: false,
        closed: None,
        status: None,
        assigned_to: None,
        milestone: None,
        tag: Vec::new(),
    }
}

fn inputs() -> SessionInputs {
    SessionInputs {
        env_access: None,
        env_refresh: None,
        env_password: None,
        api_override: None,
        interactive: false,
        now: 1_000_000,
    }
}

fn config(access: Option<&str>, refresh: Option<&str>) -> Config {
    Config {
        api_url: Some("https://a/api/v1/".into()),
        auth_token: access.map(str::to_owned),
        refresh_token: refresh.map(str::to_owned),
        username: Some("ada".into()),
        remember_password: false,
    }
}

fn unauthorized(message: &str) -> Event {
    Event::Failed(AppError::Client(TaigaError::Unauthorized { message: message.into() }))
}

fn tokens(access: &str, refresh: &str) -> Event {
    Event::Tokens(TokenPair { auth_token: access.into(), refresh: refresh.into() })
}

fn step(inputs: &SessionInputs, config: &mut Config, phase: Phase, event: Event) -> Decision {
    session_step(inputs, config, phase, event)
}

fn jwt(exp: u64) -> String {
    const ALPHABET: &[u8; 64] = b"ABCDEFGHIJKLMNOPQRSTUVWXYZabcdefghijklmnopqrstuvwxyz0123456789-_";
    let payload = format!(r#"{{"exp":{exp}}}"#);
    let mut encoded = String::new();
    for chunk in payload.as_bytes().chunks(3) {
        let mut buffer = [0u8; 3];
        buffer[..chunk.len()].copy_from_slice(chunk);
        let n = u32::from_be_bytes([0, buffer[0], buffer[1], buffer[2]]);
        for i in 0..chunk.len() + 1 {
            encoded.push(ALPHABET[((n >> (18 - 6 * i)) & 63) as usize] as char);
        }
    }
    format!("eyJhbGciOiJIUzI1NiJ9.{encoded}.signature")
}

#[test]
fn delete_requires_explicit_confirmation_before_network() {
    let command = Command::Project(ResourceAction::Delete(DeleteArgs { id: 1, yes: false }));
    assert!(command_needs_session(&command));
    match start(&client(), &Config::default(), command) {
        Step::Fail(error) => {
            assert!(matches!(&error, AppError::Usage(m) if m == "delete requires --yes"));
            assert_eq!(error.exit_code(), 2);
        }
        other => panic!("unexpected {other:?}"),
    }
    let remove = Command::Epic(EpicAction::Stories(EpicStoriesAction::Remove(EpicStoryRemove {
        epic_id: 1,
        story_id: 2,
        yes: false,
    })));
    assert!(matches!(start(&client(), &Config::default(), remove), Step::Fail(AppError::Usage(_))));
}

#[test]
fn confirmed_delete_calls_the_api_and_prints_the_id() {
    let command = Command::Project(ResourceAction::Delete(DeleteArgs { id: 7, yes: true }));
    match start(&client(), &Config::default(), command) {
        Step::Call(call) => {
            assert_eq!(call.request.method, HttpMethod::Delete);
            assert_eq!(call.request.url, "http://127.0.0.1:9/api/v1/projects/7");
            match resume(&client(), call.next, Json::Null, None) {
                Step::Emit(Json::Object(members)) => {
                    assert_eq!(members[0].0, "deleted");
                    assert!(matches!(members[0].1, Json::Bool(true)));
                    assert_eq!(members[1].0, "id");
                }
                other => panic!("unexpected {other:?}"),
            }
        }
        other => panic!("unexpected {other:?}"),
    }
}

#[test]
fn missing_session_reports_login_hint_without_network() {
    let mut cfg = Config::default();
    let decision = step(&inputs(), &mut cfg, Phase::Start, Event::Begin);
    match decision.action {
        Action::Fail(error) => {
            assert_eq!(error.report(), "no valid session, run `taiga-cli auth login`");
            assert_eq!(error.exit_code(), 5);
        }
        other => panic!("unexpected {other:?}"),
    }
    assert!(!decision.save);
}

#[test]
fn expired_session_refreshes_once_and_persists_rotated_tokens() {
    let inp = inputs();
    let mut cfg = config(Some("expired-access"), Some("old-refresh"));
    let d = step(&inp, &mut cfg, Phase::Start, Event::Begin);
    assert!(matches!(&d.action, Action::Run(t) if t == "expired-access"));
    let d = step(&inp, &mut cfg, d.phase, unauthorized("expired access"));
    assert!(matches!(&d.action, Action::Refresh(t) if t == "old-refresh"));
    let d = step(&inp, &mut cfg, d.phase, tokens("new-access", "new-refresh"));
    assert!(matches!(&d.action, Action::Run(t) if t == "new-access"));
    assert!(d.save);
    assert_eq!(cfg.auth_token.as_deref(), Some("new-access"));
    assert_eq!(cfg.refresh_token.as_deref(), Some("new-refresh"));
    assert_eq!(cfg.username.as_deref(), Some("ada"));
    let d = step(&inp, &mut cfg, d.phase, Event::Succeeded);
    assert!(matches!(d.action, Action::Done));
}

#[test]
fn failed_refresh_returns_auth_error_without_replay_or_config_changes() {
    let inp = inputs();
    let mut cfg = config(Some("expired-access"), Some("old-refresh"));
    let d = step(&inp, &mut cfg, Phase::Start, Event::Begin);
    let d = step(&inp, &mut cfg, d.phase, unauthorized("expired access"));
    let d = step(&inp, &mut cfg, d.phase, unauthorized("refresh expired"));
    match d.action {
        Action::Fail(error) => assert_eq!(error.report(), "authentication failed: refresh expired"),
        other => panic!("unexpected {other:?}"),
    }
    assert_eq!(cfg.auth_token.as_deref(), Some("expired-access"));
    assert_eq!(cfg.refresh_token.as_deref(), Some("old-refresh"));
}

#[test]
fn environment_refresh_token_overrides_storage_without_persisting_rotation() {
    let inp = SessionInputs { env_refresh: Some("env-refresh".into()), ..inputs() };
    let mut cfg = config(Some("expired-access"), Some("stored-refresh"));
    let d = step(&inp, &mut cfg, Phase::Start, Event::Begin);
    let d = step(&inp, &mut cfg, d.phase, unauthorized("expired"));
    assert!(matches!(&d.action, Action::Refresh(t) if t == "env-refresh"));
    let d = step(&inp, &mut cfg, d.phase, tokens("new-access", "new-refresh"));
    assert!(matches!(&d.action, Action::Run(t) if t == "new-access"));
    assert!(!d.save);
    assert_eq!(cfg.auth_token.as_deref(), Some("expired-access"));
    assert_eq!(cfg.refresh_token.as_deref(), Some("stored-refresh"));
}

#[test]
fn environment_access_token_does_not_fall_back_to_stored_refresh() {
    let inp = SessionInputs { env_access: Some("expired-environment-access".into()), ..inputs() };
    let mut cfg = config(Some("stored-access"), Some("stored-refresh"));
    let d = step(&inp, &mut cfg, Phase::Start, Event::Begin);
    assert!(matches!(&d.action, Action::Run(t) if t == "expired-environment-access"));
    let d = step(&inp, &mut cfg, d.phase, unauthorized("expired access"));
    match d.action {
        Action::Fail(error) => assert_eq!(error.report(), "authentication failed: expired access"),
        other => panic!("unexpected {other:?}"),
    }
}

#[test]
fn api_override_does_not_send_or_rotate_stored_refresh() {
    let inp = SessionInputs { api_override: Some("https://elsewhere/api/v1/".into()), ..inputs() };
    let mut cfg = config(Some("stored-access"), Some("stored-refresh"));
    let d = step(&inp, &mut cfg, Phase::Start, Event::Begin);
    assert!(matches!(&d.action, Action::Run(t) if t == "stored-access"));
    let d = step(&inp, &mut cfg, d.phase, unauthorized("expired access"));
    assert!(matches!(d.action, Action::Fail(_)));
    let same = SessionInputs { api_override: Some("https://a/api/v1/".into()), ..inputs() };
    let d = step(&same, &mut cfg, Phase::Start, Event::Begin);
    let d = step(&same, &mut cfg, d.phase, unauthorized("expired access"));
    assert!(matches!(&d.action, Action::Refresh(t) if t == "stored-refresh"));
}

#[test]
fn retry_unauthorized_does_not_refresh_again() {
    let inp = inputs();
    let mut cfg = config(Some("expired-access"), Some("old-refresh"));
    let d = step(&inp, &mut cfg, Phase::Start, Event::Begin);
    let d = step(&inp, &mut cfg, d.phase, unauthorized("expired access"));
    let d = step(&inp, &mut cfg, d.phase, tokens("new-access", "new-refresh"));
    let d = step(&inp, &mut cfg, d.phase, unauthorized("still unauthorized"));
    match d.action {
        Action::Fail(error) => assert_eq!(error.report(), "authentication failed: still unauthorized"),
        other => panic!("unexpected {other:?}"),
    }
    assert!(matches!(d.phase, Phase::Finished));
}

#[test]
fn expired_jwt_access_token_refreshes_without_a_failing_request() {
    let inp = inputs();
    let expired = jwt(inp.now - 60);
    let mut cfg = config(Some(&expired), Some("old-refresh"));
    let d = step(&inp, &mut cfg, Phase::Start, Event::Begin);
    assert!(matches!(&d.action, Action::Refresh(t) if t == "old-refresh"));
}

#[test]
fn expired_tokens_without_credentials_fail_before_any_request() {
    let inp = inputs();
    let mut cfg = config(Some(&jwt(inp.now - 60)), Some(&jwt(inp.now - 30)));
    let d = step(&inp, &mut cfg, Phase::Start, Event::Begin);
    match d.action {
        Action::Fail(error) => assert_eq!(error.report(), "no valid session, run `taiga-cli auth login`"),
        other => panic!("unexpected {other:?}"),
    }
}

#[test]
fn expired_tokens_relogin_with_stored_password_and_persist() {
    let inp = inputs();
    let mut cfg = Config { remember_password: true, ..config(Some(&jwt(inp.now - 60)), Some(&jwt(inp.now - 30))) };
    let d = step(&inp, &mut cfg, Phase::Start, Event::Begin);
    assert!(matches!(&d.action, Action::LookupPassword(u) if u == "ada"));
    let d = step(&inp, &mut cfg, d.phase, Event::Password(Some("s3cret".into())));
    assert!(matches!(&d.action, Action::Login(u, p) if u == "ada" && p == "s3cret"));
    let d = step(&inp, &mut cfg, d.phase, tokens("login-access", "login-refresh"));
    assert!(d.save);
    assert_eq!(cfg.auth_token.as_deref(), Some("login-access"));
    assert_eq!(cfg.refresh_token.as_deref(), Some("login-refresh"));
    assert!(cfg.remember_password);
    match start(&client(), &cfg, Command::Auth(AuthAction::Status)) {
        Step::Call(call) => {
            assert_eq!(call.request.url, "http://127.0.0.1:9/api/v1/users/me");
            let me = Json::Object(vec![("username".to_owned(), Json::Str("ada".into()))]);
            match resume(&client(), call.next, me, None) {
                Step::Emit(Json::Object(members)) => {
                    assert_eq!(members[0].0, "api_url");
                    assert_eq!(members[1].0, "identity");
                    assert_eq!(members[2].0, "password_stored");
                    assert!(matches!(members[2].1, Json::Bool(true)));
                }
                other => panic!("unexpected {other:?}"),
            }
        }
        other => panic!("unexpected {other:?}"),
    }
}

#[test]
fn rejected_refresh_falls_back_to_environment_password_without_persisting() {
    let inp = SessionInputs { env_password: Some("env-secret".into()), ..inputs() };
    let mut cfg = config(Some(&jwt(inp.now - 60)), Some("old-refresh"));
    let d = step(&inp, &mut cfg, Phase::Start, Event::Begin);
    let d = step(&inp, &mut cfg, d.phase, unauthorized("refresh expired"));
    assert!(matches!(&d.action, Action::Login(u, p) if u == "ada" && p == "env-secret"));
    let d = step(&inp, &mut cfg, d.phase, tokens("login-access", "login-refresh"));
    assert!(!d.save);
    assert_eq!(cfg.refresh_token.as_deref(), Some("old-refresh"));
}

#[test]
fn interactive_sessions_prompt_when_nothing_else_is_left() {
    let inp = SessionInputs { interactive: true, ..inputs() };
    let mut cfg = config(None, None);
    let d = step(&inp, &mut cfg, Phase::Start, Event::Begin);
    assert!(matches!(&d.action, Action::Prompt(u) if u == "ada"));
    let d = step(&inp, &mut cfg, d.phase, Event::Password(None));
    assert!(matches!(d.action, Action::Fail(_)));
}

#[test]
fn milestone_list_uses_closed_filter_and_stories_filter_by_milestone() {
    let milestones = query("milestones", &ListArgs { project: Some(17), closed: Some(false), ..list_args() });
    assert_eq!(
        milestones,
        vec![("project".to_owned(), "17".to_owned()), ("closed".to_owned(), "false".to_owned())]
    );
    let stories = query("userstories", &ListArgs { milestone: Some(99), closed: Some(true), ..list_args() });
    assert_eq!(
        stories,
        vec![("milestone".to_owned(), "99".to_owned()), ("status__is_closed".to_owned(), "true".to_owned())]
    );
    let tags = query("issues", &ListArgs { tag: vec!["a".into(), "b".into()], ..list_args() });
    assert_eq!(tags, vec![("tags".to_owned(), "a,b".to_owned())]);
}

#[test]
fn project_list_is_scoped_to_the_current_user() {
    let command = Command::Project(ResourceAction::List(list_args()));
    match start(&client(), &Config::default(), command) {
        Step::Call(call) => {
            assert_eq!(call.request.url, "http://127.0.0.1:9/api/v1/users/me");
            let me = Json::Object(vec![("id".to_owned(), taiga::cli_plan::json_u64(42))]);
            match resume(&client(), call.next, me, None) {
                Step::Call(next) => {
                    assert_eq!(next.request.url, "http://127.0.0.1:9/api/v1/projects");
                    assert_eq!(
                        next.request.query,
                        vec![("member".to_owned(), "42".to_owned()), ("page".to_owned(), "1".to_owned())]
                    );
                    assert!(matches!(next.next, Pending::EmitList));
                }
                other => panic!("unexpected {other:?}"),
            }
        }
        other => panic!("unexpected {other:?}"),
    }
}

#[test]
fn blank_search_fails_before_network() {
    let command = Command::Search(SearchCommand {
        text: "  ".into(),
        project: Some(1),
        project_slug: None,
        all_projects: false,
    });
    assert!(matches!(start(&client(), &Config::default(), command), Step::Fail(AppError::Usage(_))));
}

#[test]
fn pages_and_api_urls_follow_the_cli_rules() {
    assert!(matches!(pagination(None), Ok(PaginationMode::Page(1))));
    assert!(matches!(pagination(Some(3)), Ok(PaginationMode::Page(3))));
    assert!(matches!(pagination(Some(0)), Err(AppError::Usage(_))));
    let cfg = config(None, None);
    assert_eq!(api_url(Some("https://cli".into()), Some("https://env".into()), &cfg), "https://cli");
    assert_eq!(api_url(None, Some("https://env".into()), &cfg), "https://env");
    assert_eq!(api_url(None, None, &cfg), "https://a/api/v1/");
    assert_eq!(api_url(None, None, &Config::default()), "https://api.taiga.io/api/v1");
}

#[test]
fn login_remember_saves_password_and_logout_removes_it() {
    let url = "https://a/api/v1/";
    let mut cfg = Config::default();
    let mut store = PasswordEntries::new();
    assert!(matches!(login_username(None), Err(AppError::Config(_))));
    let username = login_username(Some("ada".into())).unwrap();
    let password = stdin_password("s3cret\n");
    assert_eq!(password, "s3cret");
    let keep = keeps_password(&cfg, url, &username, true);
    assert!(keep);
    store.set(url, &username, &password);
    let pair = TokenPair { auth_token: "login-access".into(), refresh: "login-refresh".into() };
    record_login(&mut cfg, url.into(), username, &pair, keep);
    assert_eq!(cfg.api_url.as_deref(), Some(url));
    assert_eq!(cfg.auth_token.as_deref(), Some("login-access"));
    assert_eq!(cfg.refresh_token.as_deref(), Some("login-refresh"));
    assert_eq!(cfg.username.as_deref(), Some("ada"));
    assert!(cfg.remember_password);
    assert_eq!(
        store.to_pairs(),
        vec![(format!("taiga-cli:{url}\u{1f}ada"), "s3cret".to_owned())]
    );
    let session = AuthSession { tokens: pair, id: Some(UserId(1)), username: Some("ada".into()) };
    match login_output(&session, url, true) {
        Json::Object(members) => {
            assert_eq!(members[3].0, "password_stored");
            assert!(matches!(members[3].1, Json::Bool(true)));
        }
        other => panic!("unexpected {other:?}"),
    }
    assert!(!command_needs_session(&Command::Auth(AuthAction::Logout)));
    let (saved, user) = password_to_forget(&cfg).unwrap();
    assert_eq!(saved, url);
    assert_eq!(user, "ada");
    store.delete(&saved, &user);
    record_logout(&mut cfg);
    assert_eq!(cfg.api_url.as_deref(), Some(url));
    assert!(cfg.auth_token.is_none());
    assert!(cfg.refresh_token.is_none());
    assert!(cfg.username.is_none());
    assert!(!cfg.remember_password);
    assert!(store.get(url, "ada").is_none());
    assert!(PasswordEntries::from_pairs(store.to_pairs()).get(url, "ada").is_none());
}

#[test]
fn a_later_login_keeps_the_saved_password_and_forget_drops_it() {
    let url = "https://a/api/v1/";
    let mut cfg = Config::default();
    let pair = TokenPair { auth_token: "a".into(), refresh: "r".into() };
    record_login(&mut cfg, url.into(), "ada".into(), &pair, true);
    assert!(keeps_password(&cfg, url, "ada", false));
    assert!(!keeps_password(&cfg, "https://b/api/v1/", "ada", false));
    assert!(!keeps_password(&cfg, url, "bob", false));
    record_forget(&mut cfg);
    assert!(!cfg.remember_password);
    assert_eq!(cfg.auth_token.as_deref(), Some("a"));
    assert_eq!(cfg.username.as_deref(), Some("ada"));
    assert!(!keeps_password(&cfg, url, "ada", false));
    assert!(command_needs_session(&Command::Auth(AuthAction::Status)));
}

#[test]
fn conflicts_and_rate_limits_have_their_own_exit_codes() {
    let conflict = AppError::Client(TaigaError::Conflict { message: "stale".into() });
    assert_eq!(conflict.exit_code(), 6);
    assert_eq!(conflict.report(), "optimistic concurrency conflict");
    let limited = AppError::Client(TaigaError::RateLimited { message: "slow".into(), retry_after: None });
    assert_eq!(limited.exit_code(), 7);
    assert_eq!(limited.report(), "Taiga rate limit reached");
    assert_eq!(AppError::Config("x".into()).exit_code(), 3);
}

#[test]
fn attachments_list_scopes_the_query_to_the_object_and_its_project() {
    let command = Command::Issue(ResourceAction::Attachments(AttachmentAction::List(IdArgs { id: 4242 })));
    match start(&client(), &Config::default(), command) {
        Step::Call(call) => {
            assert_eq!(call.request.url, "http://127.0.0.1:9/api/v1/issues/4242");
            let issue = Json::Object(vec![
                ("id".to_owned(), taiga::cli_plan::json_u64(4242)),
                ("project".to_owned(), taiga::cli_plan::json_u64(7)),
            ]);
            match resume(&client(), call.next, issue, None) {
                Step::Call(list) => {
                    assert_eq!(list.request.url, "http://127.0.0.1:9/api/v1/issues/attachments");
                    assert_eq!(
                        list.request.query,
                        vec![("object_id".to_owned(), "4242".to_owned()), ("project".to_owned(), "7".to_owned())]
                    );
                    assert!(list.request.disable_pagination);
                }
                other => panic!("unexpected {other:?}"),
            }
            let bare = Json::Object(vec![("id".to_owned(), taiga::cli_plan::json_u64(4242))]);
            let again = start(&client(), &Config::default(), Command::Issue(ResourceAction::Attachments(AttachmentAction::List(IdArgs { id: 4242 }))));
            if let Step::Call(call) = again {
                assert!(matches!(
                    resume(&client(), call.next, bare, None),
                    Step::Fail(AppError::Usage(m)) if m == "resource lacks project"
                ));
            }
        }
        other => panic!("unexpected {other:?}"),
    }
}

#[test]
fn a_session_ends_within_seven_steps() {
    let inp = SessionInputs { env_password: Some("pw".into()), interactive: true, ..inputs() };
    let mut cfg = Config { remember_password: true, ..config(Some("access"), Some("refresh")) };
    let mut phase = Phase::Start;
    let mut event = Event::Begin;
    let mut steps = 0;
    loop {
        steps += 1;
        let d = step(&inp, &mut cfg, phase, event);
        phase = d.phase;
        event = match d.action {
            Action::Done | Action::Fail(_) => break,
            Action::Run(_) | Action::Refresh(_) | Action::Login(_, _) => unauthorized("no"),
            Action::LookupPassword(_) | Action::Prompt(_) => Event::Password(None),
        };
    }
    assert!(steps <= 7);
    assert!(matches!(phase, Phase::Finished));
}

fn file(name: &str, bytes: &[u8]) -> AttachmentFile {
    AttachmentFile { name: name.into(), bytes: bytes.to_vec() }
}

fn text_part(part: &FormPart) -> (&str, &str) {
    match &part.value {
        FormValue::Text(t) => (part.name.as_str(), t.as_str()),
        FormValue::File { .. } => panic!("unexpected file part {}", part.name),
    }
}

#[test]
fn attachments_add_uploads_multipart_with_project_resolved_from_the_object() {
    let add = AttachmentAddArgs {
        id: 4242,
        file: file("notes.txt", b"attachment payload"),
        description: Some("server log".into()),
        deprecated: Some(false),
    };
    let command = Command::Issue(ResourceAction::Attachments(AttachmentAction::Add(add)));
    match start(&client(), &Config::default(), command) {
        Step::Call(call) => {
            assert_eq!(call.request.method, HttpMethod::Get);
            assert_eq!(call.request.url, "http://127.0.0.1:9/api/v1/issues/4242");
            let issue = Json::Object(vec![
                ("id".to_owned(), taiga::cli_plan::json_u64(4242)),
                ("ref".to_owned(), taiga::cli_plan::json_u64(12)),
                ("project".to_owned(), taiga::cli_plan::json_u64(7)),
            ]);
            match resume(&client(), call.next, issue, None) {
                Step::Call(upload) => {
                    assert_eq!(upload.request.method, HttpMethod::Post);
                    assert_eq!(upload.request.url, "http://127.0.0.1:9/api/v1/issues/attachments");
                    assert_eq!(upload.request.bearer.as_deref(), Some("access"));
                    assert!(upload.request.body.is_none());
                    let form = upload.request.form.as_ref().expect("multipart form");
                    assert_eq!(form.len(), 5);
                    assert_eq!(text_part(&form[0]), ("object_id", "4242"));
                    assert_eq!(text_part(&form[1]), ("project", "7"));
                    assert_eq!(text_part(&form[2]), ("description", "server log"));
                    assert_eq!(text_part(&form[3]), ("is_deprecated", "false"));
                    assert_eq!(form[4].name, "attached_file");
                    match &form[4].value {
                        FormValue::File { file_name, bytes } => {
                            assert_eq!(file_name, "notes.txt");
                            assert_eq!(bytes.as_slice(), b"attachment payload");
                        }
                        other => panic!("unexpected {other:?}"),
                    }
                    let created = Json::Object(vec![
                        ("id".to_owned(), taiga::cli_plan::json_u64(555)),
                        ("name".to_owned(), Json::Str("notes.txt".into())),
                    ]);
                    match resume(&client(), upload.next, created, None) {
                        Step::Emit(Json::Object(members)) => {
                            assert_eq!(members[0].0, "id");
                            assert_eq!(members[0].1.as_u64(), Some(555));
                        }
                        other => panic!("unexpected {other:?}"),
                    }
                }
                other => panic!("unexpected {other:?}"),
            }
        }
        other => panic!("unexpected {other:?}"),
    }
}

#[test]
fn attachments_edit_patches_fields_as_json_and_files_as_multipart() {
    let fields = AttachmentEditArgs {
        id: 555,
        file: None,
        description: Some("updated".into()),
        deprecated: Some(true),
        order: Some(3),
    };
    let command = Command::Userstory(ResourceAction::Attachments(AttachmentAction::Edit(fields)));
    match start(&client(), &Config::default(), command) {
        Step::Call(call) => {
            assert_eq!(call.request.method, HttpMethod::Patch);
            assert_eq!(call.request.url, "http://127.0.0.1:9/api/v1/userstories/attachments/555");
            assert!(call.request.form.is_none());
            match call.request.body.as_ref().expect("json body") {
                Json::Object(members) => {
                    assert_eq!(members.len(), 3);
                    assert_eq!(members[0].0, "description");
                    assert!(matches!(&members[0].1, Json::Str(d) if d == "updated"));
                    assert_eq!(members[1].0, "is_deprecated");
                    assert!(matches!(members[1].1, Json::Bool(true)));
                    assert_eq!(members[2].0, "order");
                    assert_eq!(members[2].1.as_u64(), Some(3));
                }
                other => panic!("unexpected {other:?}"),
            }
        }
        other => panic!("unexpected {other:?}"),
    }
    let replace = AttachmentEditArgs {
        id: 555,
        file: Some(file("new.txt", b"replacement bytes")),
        description: None,
        deprecated: None,
        order: None,
    };
    let command = Command::Userstory(ResourceAction::Attachments(AttachmentAction::Edit(replace)));
    match start(&client(), &Config::default(), command) {
        Step::Call(call) => {
            assert_eq!(call.request.method, HttpMethod::Patch);
            assert_eq!(call.request.url, "http://127.0.0.1:9/api/v1/userstories/attachments/555");
            assert!(call.request.body.is_none());
            let form = call.request.form.as_ref().expect("multipart form");
            assert_eq!(form.len(), 1);
            assert_eq!(form[0].name, "attached_file");
            match &form[0].value {
                FormValue::File { file_name, bytes } => {
                    assert_eq!(file_name, "new.txt");
                    assert_eq!(bytes.as_slice(), b"replacement bytes");
                }
                other => panic!("unexpected {other:?}"),
            }
        }
        other => panic!("unexpected {other:?}"),
    }
}

#[test]
fn attachments_edit_without_changes_fails_before_network() {
    let nothing = AttachmentEditArgs { id: 555, file: None, description: None, deprecated: None, order: None };
    let command = Command::Issue(ResourceAction::Attachments(AttachmentAction::Edit(nothing)));
    match start(&client(), &Config::default(), command) {
        Step::Fail(error) => {
            assert!(matches!(&error, AppError::Usage(m) if m.contains("needs --file or at least one field")));
            assert_eq!(error.exit_code(), 2);
        }
        other => panic!("unexpected {other:?}"),
    }
}

#[test]
fn attachments_remove_deletes_only_after_confirmation() {
    let refused = Command::Task(taiga::cli_args::TaskAction::Resource(ResourceAction::Attachments(
        AttachmentAction::Remove(AttachmentRemoveArgs { id: 555, yes: false }),
    )));
    match start(&client(), &Config::default(), refused) {
        Step::Fail(error) => {
            assert!(matches!(&error, AppError::Usage(m) if m.contains("attachments remove requires --yes")));
            assert_eq!(error.exit_code(), 2);
        }
        other => panic!("unexpected {other:?}"),
    }
    let confirmed = Command::Task(taiga::cli_args::TaskAction::Resource(ResourceAction::Attachments(
        AttachmentAction::Remove(AttachmentRemoveArgs { id: 555, yes: true }),
    )));
    match start(&client(), &Config::default(), confirmed) {
        Step::Call(call) => {
            assert_eq!(call.request.method, HttpMethod::Delete);
            assert_eq!(call.request.url, "http://127.0.0.1:9/api/v1/tasks/attachments/555");
            match resume(&client(), call.next, Json::Null, None) {
                Step::Emit(Json::Object(members)) => {
                    assert_eq!(members[0].0, "deleted");
                    assert!(matches!(members[0].1, Json::Bool(true)));
                    assert_eq!(members[1].0, "id");
                    assert_eq!(members[1].1.as_u64(), Some(555));
                }
                other => panic!("unexpected {other:?}"),
            }
        }
        other => panic!("unexpected {other:?}"),
    }
}

#[test]
fn attachments_download_writes_the_media_file_without_the_bearer() {
    let command = Command::Epic(EpicAction::Resource(ResourceAction::Attachments(AttachmentAction::Download(
        AttachmentDownloadArgs { id: 555, to: "D".into() },
    ))));
    match start(&client(), &Config::default(), command) {
        Step::Call(call) => {
            assert_eq!(call.request.method, HttpMethod::Get);
            assert_eq!(call.request.url, "http://127.0.0.1:9/api/v1/epics/attachments/555");
            let media = "http://127.0.0.1:9/media/attachments/report.txt?token=abc";
            let attachment = Json::Object(vec![
                ("id".to_owned(), taiga::cli_plan::json_u64(555)),
                ("name".to_owned(), Json::Str("report.txt".into())),
                ("url".to_owned(), Json::Str(media.into())),
            ]);
            match resume(&client(), call.next, attachment, None) {
                Step::Fetch(fetch) => {
                    assert_eq!(fetch.request.method, HttpMethod::Get);
                    assert_eq!(fetch.request.url, media);
                    assert!(fetch.request.bearer.is_none());
                    assert_eq!(fetch.path, "D/report.txt");
                    let written = b"downloaded bytes";
                    match download_output(&fetch.path, written.len() as u64) {
                        Json::Object(members) => {
                            assert!(matches!(&members[0].1, Json::Str(p) if p == "D/report.txt"));
                            assert_eq!(members[1].0, "size");
                            assert_eq!(members[1].1.as_u64(), Some(16));
                        }
                        other => panic!("unexpected {other:?}"),
                    }
                }
                other => panic!("unexpected {other:?}"),
            }
        }
        other => panic!("unexpected {other:?}"),
    }
}

#[test]
fn attachments_reject_resources_without_attachments_before_network() {
    let add = AttachmentAddArgs { id: 7, file: file("notes.txt", b"x"), description: None, deprecated: None };
    let command = Command::Project(ResourceAction::Attachments(AttachmentAction::Add(add)));
    match start(&client(), &Config::default(), command) {
        Step::Fail(error) => {
            assert!(matches!(&error, AppError::Usage(m) if m.contains("attachments unavailable for this resource")));
            assert_eq!(error.exit_code(), 2);
        }
        other => panic!("unexpected {other:?}"),
    }
}
