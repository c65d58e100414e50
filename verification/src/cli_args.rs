//! The commands of the command-line interface, as plain values.
use vstd::prelude::*;

use crate::client::{error_text, opt_str, ErrorView, TaigaError};
use crate::text::owned;
use crate::json::Json;

verus! {

/// How results are printed.
#[derive(Clone, Copy, Debug, PartialEq, Eq, Structural)]
pub enum Output {
    Human,
    Json,
}

/// The value of a `--data` option: a JSON document, or the message of the
/// error that parsing its text gave.
#[derive(Debug)]
pub enum DataArg {
    Parsed(Json),
    Invalid(String),
}

/// Filters of a `list` command.
#[derive(Debug)]
pub struct ListArgs {
    pub project: Option<u64>,
    pub page: Option<u32>,
    pub all_visible: bool,
    pub closed: Option<bool>,
    pub status: Option<u64>,
    pub assigned_to: Option<u64>,
    pub milestone: Option<u64>,
    pub tag: Vec<String>,
}

#[derive(Debug)]
pub struct IdArgs {
    pub id: u64,
}

#[derive(Debug)]
pub struct RefArgs {
    pub reference: u64,
    pub project: u64,
}

#[derive(Debug)]
pub struct ProjectArgs {
    pub project: u64,
    pub page: Option<u32>,
}

/// Fields of a `create` command.
#[derive(Debug)]
pub struct BodyArgs {
    pub subject: Option<String>,
    pub project: Option<u64>,
    pub description: Option<String>,
    pub status: Option<u64>,
    pub data: Option<DataArg>,
}

/// Fields of an `edit` command.
#[derive(Debug)]
pub struct EditArgs {
    pub id: u64,
    pub subject: Option<String>,
    pub description: Option<String>,
    pub status: Option<u64>,
    pub data: Option<DataArg>,
}

#[derive(Debug)]
pub struct DeleteArgs {
    pub id: u64,
    pub yes: bool,
}

/// Which history entries to list.
#[derive(Clone, Copy, Debug, PartialEq, Eq, Structural)]
pub enum HistoryKind {
    All,
    Activity,
    Comment,
}

#[derive(Debug)]
pub struct HistoryArgs {
    pub id: u64,
    pub kind: HistoryKind,
    pub page: Option<u32>,
}

/// A file to attach: its name and its bytes, read by the caller.
#[derive(Debug)]
pub struct AttachmentFile {
    pub name: String,
    pub bytes: Vec<u8>,
}

/// Adding a file to the attachments of a resource.
#[derive(Debug)]
pub struct AttachmentAddArgs {
    pub id: u64,
    pub file: AttachmentFile,
    pub description: Option<String>,
    pub deprecated: Option<bool>,
}

/// Changing an attachment: its fields, its file, or both.
#[derive(Debug)]
pub struct AttachmentEditArgs {
    pub id: u64,
    pub file: Option<AttachmentFile>,
    pub description: Option<String>,
    pub deprecated: Option<bool>,
    pub order: Option<u64>,
}

/// Removing an attachment.
#[derive(Debug)]
pub struct AttachmentRemoveArgs {
    pub id: u64,
    pub yes: bool,
}

/// Saving the file of an attachment into a directory.
#[derive(Debug)]
pub struct AttachmentDownloadArgs {
    pub id: u64,
    pub to: String,
}

/// The actions on the attachments of a resource: `list` and `add` take the
/// id of the resource, `edit`, `remove` and `download` that of the
/// attachment.
#[derive(Debug)]
pub enum AttachmentAction {
    List(IdArgs),
    Add(AttachmentAddArgs),
    Edit(AttachmentEditArgs),
    Remove(AttachmentRemoveArgs),
    Download(AttachmentDownloadArgs),
}

/// The actions shared by every collection of resources.
#[derive(Debug)]
pub enum ResourceAction {
    List(ListArgs),
    Get(IdArgs),
    GetByRef(RefArgs),
    Create(BodyArgs),
    Edit(EditArgs),
    Delete(DeleteArgs),
    History(HistoryArgs),
    Comments(HistoryArgs),
    Attachments(AttachmentAction),
    Stats(IdArgs),
    Statuses(ProjectArgs),
    Metadata(ProjectArgs),
    Roles(ProjectArgs),
    Memberships(ProjectArgs),
}

#[derive(Debug)]
pub struct TaskStatusArgs {
    pub id: u64,
    pub status: u64,
}

#[derive(Debug)]
pub enum TaskAction {
    Resource(ResourceAction),
    Status(TaskStatusArgs),
}

#[derive(Debug)]
pub struct EpicStoryArgs {
    pub epic_id: u64,
    pub story_id: u64,
}

#[derive(Debug)]
pub struct EpicStoryOrder {
    pub epic_id: u64,
    pub story_id: u64,
    pub order: u64,
}

#[derive(Debug)]
pub struct EpicStoryRemove {
    pub epic_id: u64,
    pub story_id: u64,
    pub yes: bool,
}

#[derive(Debug)]
pub enum EpicStoriesAction {
    List(IdArgs),
    Add(EpicStoryArgs),
    Reorder(EpicStoryOrder),
    Remove(EpicStoryRemove),
}

#[derive(Debug)]
pub enum EpicAction {
    Resource(ResourceAction),
    Stories(EpicStoriesAction),
}

/// A full-text search, in one project or in every visible project.
#[derive(Debug)]
pub struct SearchCommand {
    pub text: String,
    pub project: Option<u64>,
    pub project_slug: Option<String>,
    pub all_projects: bool,
}

#[derive(Debug)]
pub enum NotificationAction {
    List { unread: bool, page: Option<u32> },
    Count,
    Read(IdArgs),
    ReadAll,
}

#[derive(Debug)]
pub struct TimelineArgs {
    pub id: u64,
    pub relevant: bool,
    pub page: Option<u32>,
}

#[derive(Debug)]
pub enum TimelineAction {
    User(TimelineArgs),
    Profile(TimelineArgs),
    Project(TimelineArgs),
}

#[derive(Debug)]
pub struct LoginArgs {
    pub username: Option<String>,
    pub password_stdin: bool,
    pub remember: bool,
}

#[derive(Debug)]
pub enum AuthAction {
    Login(LoginArgs),
    Status,
    Logout,
    Forget,
}

/// A command of the command-line interface.
#[derive(Debug)]
pub enum Command {
    Auth(AuthAction),
    Project(ResourceAction),
    Userstory(ResourceAction),
    Task(TaskAction),
    Issue(ResourceAction),
    Epic(EpicAction),
    Milestone(ResourceAction),
    Wiki(ResourceAction),
    Search(SearchCommand),
    Notification(NotificationAction),
    Timeline(TimelineAction),
}

/// The ways a command can fail.
#[derive(Debug)]
pub enum AppError {
    Client(TaigaError),
    Io(String),
    Json(String),
    Config(String),
    Usage(String),
    Session(String),
}

/// The model of an [`AppError`].
pub enum AppErrorView {
    Client(ErrorView),
    Io(Seq<char>),
    Json(Seq<char>),
    Config(Seq<char>),
    Usage(Seq<char>),
    Session(Seq<char>),
}

impl View for AppError {
    type V = AppErrorView;

    open spec fn view(&self) -> AppErrorView {
        match self {
            AppError::Client(e) => AppErrorView::Client(e@),
            AppError::Io(m) => AppErrorView::Io(m@),
            AppError::Json(m) => AppErrorView::Json(m@),
            AppError::Config(m) => AppErrorView::Config(m@),
            AppError::Usage(m) => AppErrorView::Usage(m@),
            AppError::Session(m) => AppErrorView::Session(m@),
        }
    }
}

/// The exit status of a failed command: 2 for usage errors, 3 for
/// configuration errors, 6 for concurrency conflicts, 7 when rate limited
/// and 5 for anything else.
pub open spec fn exit_code_spec(e: AppErrorView) -> i32 {
    match e {
        AppErrorView::Usage(_) => 2,
        AppErrorView::Config(_) => 3,
        AppErrorView::Client(ErrorView::Conflict(_)) => 6,
        AppErrorView::Client(ErrorView::RateLimited(_, _)) => 7,
        _ => 5,
    }
}

impl AppError {
    /// The exit status of the process for this error.
    pub fn exit_code(&self) -> (code: i32)
        ensures
            code == exit_code_spec(self@),
    {
        match self {
            AppError::Usage(_) => 2,
            AppError::Config(_) => 3,
            AppError::Client(TaigaError::Conflict { .. }) => 6,
            AppError::Client(TaigaError::RateLimited { .. }) => 7,
            _ => 5,
        }
    }
}

/// What a failed command prints: a conflict and a rate limit are reported
/// in a fixed phrase, anything else with its own text.
pub open spec fn report_spec(e: AppErrorView) -> Seq<char> {
    match e {
        AppErrorView::Client(ErrorView::Conflict(_)) => "optimistic concurrency conflict"@,
        AppErrorView::Client(ErrorView::RateLimited(_, _)) => "Taiga rate limit reached"@,
        AppErrorView::Client(c) => error_text(c),
        AppErrorView::Io(m) => m,
        AppErrorView::Json(m) => m,
        AppErrorView::Config(m) => m,
        AppErrorView::Usage(m) => m,
        AppErrorView::Session(m) => m,
    }
}

impl AppError {
    /// What a command that failed with this error prints.
    pub fn report(&self) -> (s: String)
        ensures
            s@ == report_spec(self@),
    {
        match self {
            AppError::Client(TaigaError::Conflict { .. }) => owned("optimistic concurrency conflict"),
            AppError::Client(TaigaError::RateLimited { .. }) => owned("Taiga rate limit reached"),
            AppError::Client(e) => e.message(),
            AppError::Io(m) => m.clone(),
            AppError::Json(m) => m.clone(),
            AppError::Config(m) => m.clone(),
            AppError::Usage(m) => m.clone(),
            AppError::Session(m) => m.clone(),
        }
    }
}

/// The persisted configuration: the API URL of the last login, its tokens,
/// and the account whose password may be kept for silent re-login.
#[derive(Debug, Default)]
pub struct Config {
    pub api_url: Option<String>,
    pub auth_token: Option<String>,
    pub refresh_token: Option<String>,
    pub username: Option<String>,
    pub remember_password: bool,
}

/// The model of a [`Config`].
pub struct ConfigView {
    pub api_url: Option<Seq<char>>,
    pub auth_token: Option<Seq<char>>,
    pub refresh_token: Option<Seq<char>>,
    pub username: Option<Seq<char>>,
    pub remember_password: bool,
}

impl View for Config {
    type V = ConfigView;

    open spec fn view(&self) -> ConfigView {
        ConfigView {
            api_url: opt_str(self.api_url),
            auth_token: opt_str(self.auth_token),
            refresh_token: opt_str(self.refresh_token),
            username: opt_str(self.username),
            remember_password: self.remember_password,
        }
    }
}

} // verus!
