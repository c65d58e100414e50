//! What each command of the command-line interface asks the Taiga API, step
//! by step: a command starts with a call (or fails, or prints at once), and
//! each answer leads to the next call or to what is printed.
use vstd::prelude::*;

use crate::cli_args::{
    AppError, AppErrorView, AttachmentAction, AttachmentAddArgs, AttachmentEditArgs, AuthAction, Command,
    ConfigView, EditArgs, EpicAction, EpicStoriesAction, HistoryKind, ListArgs, NotificationAction,
    ProjectArgs, ResourceAction, TaskAction, TimelineAction, Config,
};
use crate::cli_plan::{
    body, body_spec, edit_body, edit_body_spec, json_u64, num_model, pagination, pagination_spec,
    query, query_spec,
};
use crate::client::{
    empty_request_spec, flag_query, form_view, item_path, join_segments, item_path_of, media_request,
    media_request_spec, multipart_request_spec, opt_str, outcome_view, lemma_request_methods, pairs_view,
    request_spec, unread_total_spec, ApiRequest, ClientView, FormPart, FormValue, FormValueView,
    HttpMethod, NotificationService, Pagination, PaginationMode, PaginationView, RequestView,
    ResourceService, TaigaClient, TaigaError,
};
use crate::ids::{NotificationId, ProjectId};
use crate::json::{
    as_u64_model, get_member, items_model, json_clone, json_model, lemma_items_model,
    lemma_members_model, members_model, Json, JsonModel, NumberModel,
};
use crate::text::{concat, decimal, owned, str_eq, str_is_blank, is_blank, u64_to_string};
use crate::renewal::{session_spec, EventView, InputsView, PhaseView};
use crate::update::{file_name_of, last_component};

verus! {

/// How the body of a response is read before it is handed back.
#[derive(Clone, Copy, Debug, PartialEq, Eq, Structural)]
pub enum Decode {
    /// Any JSON value.
    Value,
    /// A JSON array of values, handed back as a `Json::Array`.
    Items,
    /// Search results, with each missing list read as empty.
    Search,
    /// Web notifications: the `objects` member of a wrapped list (see
    /// `NotificationService::items`), read as notifications.
    Notifications,
    /// No body: the call only succeeds or fails.
    Nothing,
}

/// What to do with the answer of a call.
#[derive(Debug)]
pub enum Pending {
    /// Print the answer.
    EmitResponse,
    /// Print the answer as a list with its pagination.
    EmitList,
    /// Print this value.
    EmitLiteral(Json),
    /// The answer is the current user: list the projects they are a member of.
    ProjectMember(ListArgs),
    /// The answer is the resource to edit: patch it at its version.
    Edit(&'static str, EditArgs),
    /// The answer is the resource whose attachments are listed.
    Attachments(&'static str, u64),
    /// The answer is the resource that a file is attached to.
    AttachmentUpload(&'static str, AttachmentAddArgs),
    /// The answer describes the attachment whose file is saved into this
    /// directory.
    Download(String),
    /// The answers are the metadata lists of a project, one after the other.
    Metadata { project: u64, page: Option<u32>, done: Vec<(String, Json)> },
    /// The answer is the task whose status changes.
    TaskStatus { id: u64, status: u64 },
    /// The answer is the project found by its slug: search in it.
    SearchSlug(String),
    /// The answer is the list of visible projects: search in each.
    SearchAllList(String),
    /// The answer holds the search results in `projects[index]`.
    SearchAllRow { text: String, projects: Vec<Json>, index: usize, rows: Vec<Json> },
    /// The answer holds the unread notification count.
    Count,
    /// The answer is the current user, printed with the API URL and whether
    /// a password is kept for silent re-login.
    Status(Option<String>, bool),
}

/// A call to make, how to read its answer and what to do with it.
#[derive(Debug)]
pub struct Call {
    pub request: ApiRequest,
    pub decode: Decode,
    pub next: Pending,
}

/// A file to fetch and where to save it.
#[derive(Debug)]
pub struct Fetch {
    pub request: ApiRequest,
    pub path: String,
}

/// The next step of a command: a call, the fetch of a file (the caller
/// saves it and prints [`download_output`]), what is printed, or the failure.
#[derive(Debug)]
pub enum Step {
    Call(Call),
    Fetch(Fetch),
    Emit(Json),
    Fail(AppError),
}

/// The model of a [`Pending`].
pub enum PendingPlan {
    EmitResponse,
    EmitList,
    EmitLiteral(JsonModel),
    ProjectMember(ListArgs),
    Edit(Seq<char>, EditArgs),
    Attachments(Seq<char>, u64),
    AttachmentUpload(Seq<char>, AttachmentAddArgs),
    Download(Seq<char>),
    Metadata(u64, Option<u32>, Seq<(Seq<char>, JsonModel)>),
    TaskStatus(u64, u64),
    SearchSlug(Seq<char>),
    SearchAllList(Seq<char>),
    SearchAllRow(Seq<char>, Seq<JsonModel>, nat, Seq<JsonModel>),
    Count,
    Status(Option<Seq<char>>, bool),
}

/// The model of a [`Step`].
pub enum StepPlan {
    Call(RequestView, Decode, PendingPlan),
    Fetch(RequestView, Seq<char>),
    Emit(JsonModel),
    Fail(AppErrorView),
}

pub open spec fn pending_view(p: Pending) -> PendingPlan {
    match p {
        Pending::EmitResponse => PendingPlan::EmitResponse,
        Pending::EmitList => PendingPlan::EmitList,
        Pending::EmitLiteral(j) => PendingPlan::EmitLiteral(json_model(j)),
        Pending::ProjectMember(a) => PendingPlan::ProjectMember(a),
        Pending::Edit(c, a) => PendingPlan::Edit(c@, a),
        Pending::Attachments(c, id) => PendingPlan::Attachments(c@, id),
        Pending::AttachmentUpload(c, a) => PendingPlan::AttachmentUpload(c@, a),
        Pending::Download(to) => PendingPlan::Download(to@),
        Pending::Metadata { project, page, done } => PendingPlan::Metadata(project, page, members_model(done@)),
        Pending::TaskStatus { id, status } => PendingPlan::TaskStatus(id, status),
        Pending::SearchSlug(t) => PendingPlan::SearchSlug(t@),
        Pending::SearchAllList(t) => PendingPlan::SearchAllList(t@),
        Pending::SearchAllRow { text, projects, index, rows } => PendingPlan::SearchAllRow(
            text@, items_model(projects@), index as nat, items_model(rows@)),
        Pending::Count => PendingPlan::Count,
        Pending::Status(u, stored) => PendingPlan::Status(opt_str(u), stored),
    }
}

pub open spec fn step_view(s: Step) -> StepPlan {
    match s {
        Step::Call(c) => StepPlan::Call(c.request@, c.decode, pending_view(c.next)),
        Step::Fetch(f) => StepPlan::Fetch(f.request@, f.path@),
        Step::Emit(j) => StepPlan::Emit(json_model(j)),
        Step::Fail(e) => StepPlan::Fail(e@),
    }
}

/// A call, or the failure of describing it.
pub open spec fn call_plan(r: Result<RequestView, ErrorViewAlias>, decode: Decode, next: PendingPlan) -> StepPlan {
    match r {
        Ok(req) => StepPlan::Call(req, decode, next),
        Err(e) => StepPlan::Fail(AppErrorView::Client(e)),
    }
}

pub type ErrorViewAlias = crate::client::ErrorView;

/// An object of the given members.
pub open spec fn object(ms: Seq<(Seq<char>, JsonModel)>) -> JsonModel {
    JsonModel::Object(ms)
}

pub open spec fn yes_message() -> Seq<char> {
    "delete requires --yes"@
}

pub open spec fn history_message() -> Seq<char> {
    "history unavailable for this resource"@
}

/// The resource name of the history endpoints of a collection.
pub open spec fn history_resource(c: Seq<char>) -> Option<Seq<char>> {
    if c == "userstories"@ {
        Some("userstory"@)
    } else if c == "tasks"@ {
        Some("task"@)
    } else if c == "issues"@ {
        Some("issue"@)
    } else if c == "wiki"@ {
        Some("wiki"@)
    } else if c == "epics"@ {
        Some("epic"@)
    } else {
        None
    }
}

/// The resource name of the status list of a collection.
pub open spec fn statuses_kind(c: Seq<char>) -> Seq<char> {
    if c == "userstories"@ {
        "userstory"@
    } else if c == "tasks"@ {
        "task"@
    } else if c == "epics"@ {
        "epic"@
    } else {
        "issue"@
    }
}

/// The query of a history list.
pub open spec fn history_query(kind: HistoryKind) -> Seq<(Seq<char>, Seq<char>)> {
    match kind {
        HistoryKind::All => Seq::empty(),
        HistoryKind::Activity => seq![("type"@, "activity"@)],
        HistoryKind::Comment => seq![("type"@, "comment"@)],
    }
}

/// The query that restricts a list to one project.
pub open spec fn project_query(project: u64) -> Seq<(Seq<char>, Seq<char>)> {
    seq![("project"@, decimal(project as nat))]
}

/// The metadata lists of a project, in the order they are asked for.
pub open spec fn metadata_name(i: nat) -> Seq<char> {
    if i == 0 {
        "issue-statuses"@
    } else if i == 1 {
        "issue-types"@
    } else if i == 2 {
        "priorities"@
    } else {
        "severities"@
    }
}

/// A paginated list call, or the usage error of its page.
pub open spec fn list_call(cv: ClientView, path: Seq<char>, q: Seq<(Seq<char>, Seq<char>)>, page: Option<u32>, next: PendingPlan) -> StepPlan {
    match pagination_spec(page) {
        Err(e) => StepPlan::Fail(e),
        Ok(pg) => call_plan(request_spec(cv, HttpMethod::Get, path, q, None, true, Some(pg)), Decode::Items, next),
    }
}

/// A call that reads one value.
pub open spec fn get_call(cv: ClientView, path: Seq<char>, q: Seq<(Seq<char>, Seq<char>)>, next: PendingPlan) -> StepPlan {
    call_plan(request_spec(cv, HttpMethod::Get, path, q, None, true, None), Decode::Value, next)
}

/// What an action on the collection `c` does first.
pub open spec fn resource_spec(cv: ClientView, c: Seq<char>, action: ResourceAction) -> StepPlan {
    match action {
        ResourceAction::List(a) => if c == "projects"@ && !a.all_visible {
            get_call(cv, "users/me"@, Seq::empty(), PendingPlan::ProjectMember(a))
        } else {
            list_call(cv, c, query_spec(c, a), a.page, PendingPlan::EmitList)
        },
        ResourceAction::Get(a) => get_call(cv, item_path(c, a.id), Seq::empty(), PendingPlan::EmitResponse),
        ResourceAction::GetByRef(a) => get_call(cv, c + "/by_ref"@,
            seq![("project"@, decimal(a.project as nat)), ("ref"@, decimal(a.reference as nat))], PendingPlan::EmitResponse),
        ResourceAction::Create(a) => match body_spec(a) {
            Err(e) => StepPlan::Fail(e),
            Ok(b) => call_plan(request_spec(cv, HttpMethod::Post, c, Seq::empty(), Some(b), true, None),
                Decode::Value, PendingPlan::EmitResponse),
        },
        ResourceAction::Edit(a) => get_call(cv, item_path(c, a.id), Seq::empty(), PendingPlan::Edit(c, a)),
        ResourceAction::Delete(a) => if !a.yes {
            StepPlan::Fail(AppErrorView::Usage(yes_message()))
        } else {
            call_plan(empty_request_spec(cv, HttpMethod::Delete, item_path(c, a.id), Seq::empty(), None),
                Decode::Nothing, PendingPlan::EmitLiteral(object(seq![
                    ("deleted"@, JsonModel::Bool(true)), ("id"@, num_model(a.id))])))
        },
        ResourceAction::History(a) => history_spec(cv, c, a.id, a.kind, a.page),
        ResourceAction::Comments(a) => history_spec(cv, c, a.id, a.kind, a.page),
        ResourceAction::Attachments(a) => if !has_attachments(c) {
            StepPlan::Fail(AppErrorView::Usage(attachments_message()))
        } else {
            attachment_spec(cv, c, a)
        },
        ResourceAction::Stats(a) => get_call(cv, item_path(c, a.id) + "/stats"@, Seq::empty(), PendingPlan::EmitResponse),
        ResourceAction::Statuses(a) => list_call(cv, statuses_kind(c) + "-statuses"@, project_query(a.project), a.page, PendingPlan::EmitList),
        ResourceAction::Metadata(a) => list_call(cv, metadata_name(0), project_query(a.project), a.page,
            PendingPlan::Metadata(a.project, a.page, Seq::empty())),
        ResourceAction::Roles(a) => list_call(cv, "roles"@, project_query(a.project), a.page, PendingPlan::EmitList),
        ResourceAction::Memberships(a) => list_call(cv, "memberships"@, project_query(a.project), a.page, PendingPlan::EmitList),
    }
}

/// Whether a collection has attachments: user stories, tasks, issues,
/// epics and wiki pages.
pub open spec fn has_attachments(c: Seq<char>) -> bool {
    c == "userstories"@ || c == "tasks"@ || c == "issues"@ || c == "epics"@ || c == "wiki"@
}

pub open spec fn attachments_message() -> Seq<char> {
    "attachments unavailable for this resource"@
}

pub open spec fn attachment_remove_message() -> Seq<char> {
    "attachments remove requires --yes"@
}

pub open spec fn attachment_edit_message() -> Seq<char> {
    "attachments edit needs --file or at least one field"@
}

pub open spec fn attachment_file_message() -> Seq<char> {
    "attachment lacks a file name or URL"@
}

/// The API path of the attachments of a collection.
pub open spec fn attachments_path(c: Seq<char>) -> Seq<char> {
    c + "/attachments"@
}

/// A text part of a form, when there is a value.
pub open spec fn opt_text_part(name: Seq<char>, v: Option<Seq<char>>) -> Seq<(Seq<char>, FormValueView)> {
    match v {
        Some(t) => seq![(name, FormValueView::Text(t))],
        None => Seq::empty(),
    }
}

/// `true` or `false`, when there is a flag.
pub open spec fn opt_bool_text(b: Option<bool>) -> Option<Seq<char>> {
    match b {
        Some(true) => Some("true"@),
        Some(false) => Some("false"@),
        None => None,
    }
}

/// The decimal text of a number, when there is one.
pub open spec fn opt_decimal(n: Option<u64>) -> Option<Seq<char>> {
    match n {
        Some(v) => Some(decimal(v as nat)),
        None => None,
    }
}

/// The file part of a form.
pub open spec fn file_part(f: crate::cli_args::AttachmentFile) -> (Seq<char>, FormValueView) {
    ("attached_file"@, FormValueView::File(f.name@, f.bytes@))
}

/// The form that attaches a file to the resource `object` of `project`.
pub open spec fn add_form(object: u64, project: u64, a: AttachmentAddArgs) -> Seq<(Seq<char>, FormValueView)> {
    seq![("object_id"@, FormValueView::Text(decimal(object as nat))), ("project"@, FormValueView::Text(decimal(project as nat)))]
        + opt_text_part("description"@, opt_str(a.description))
        + opt_text_part("is_deprecated"@, opt_bool_text(a.deprecated))
        + seq![file_part(a.file)]
}

/// The form that changes an attachment and replaces its file.
pub open spec fn edit_form(a: AttachmentEditArgs) -> Seq<(Seq<char>, FormValueView)> {
    opt_text_part("description"@, opt_str(a.description))
        + opt_text_part("is_deprecated"@, opt_bool_text(a.deprecated))
        + opt_text_part("order"@, opt_decimal(a.order))
        + match a.file {
            Some(f) => seq![file_part(f)],
            None => Seq::empty(),
        }
}

/// The JSON fields that an edit without a file changes, in this order.
pub open spec fn edit_members(a: AttachmentEditArgs) -> Seq<(Seq<char>, JsonModel)> {
    (match a.description {
        Some(d) => seq![("description"@, JsonModel::Str(d@))],
        None => Seq::empty(),
    }) + (match a.deprecated {
        Some(b) => seq![("is_deprecated"@, JsonModel::Bool(b))],
        None => Seq::empty(),
    }) + (match a.order {
        Some(o) => seq![("order"@, num_model(o))],
        None => Seq::empty(),
    })
}

/// What an action on the attachments of the collection `c` does first:
/// `list` and `add` read the resource (for its project), `edit` patches
/// with a JSON body or, with a new file, a form, `remove` needs `--yes`,
/// and `download` reads the attachment. Usage errors come before any
/// request.
pub open spec fn attachment_spec(cv: ClientView, c: Seq<char>, action: AttachmentAction) -> StepPlan {
    match action {
        AttachmentAction::List(a) => get_call(cv, item_path(c, a.id), Seq::empty(), PendingPlan::Attachments(c, a.id)),
        AttachmentAction::Add(a) => get_call(cv, item_path(c, a.id), Seq::empty(), PendingPlan::AttachmentUpload(c, a)),
        AttachmentAction::Edit(a) => if a.file is Some {
            call_plan(multipart_request_spec(cv, HttpMethod::Patch, item_path(attachments_path(c), a.id), edit_form(a)),
                Decode::Value, PendingPlan::EmitResponse)
        } else if a.description is None && a.deprecated is None && a.order is None {
            StepPlan::Fail(AppErrorView::Usage(attachment_edit_message()))
        } else {
            call_plan(request_spec(cv, HttpMethod::Patch, item_path(attachments_path(c), a.id), Seq::empty(),
                Some(object(edit_members(a))), true, None), Decode::Value, PendingPlan::EmitResponse)
        },
        AttachmentAction::Remove(a) => if !a.yes {
            StepPlan::Fail(AppErrorView::Usage(attachment_remove_message()))
        } else {
            call_plan(empty_request_spec(cv, HttpMethod::Delete, item_path(attachments_path(c), a.id), Seq::empty(), None),
                Decode::Nothing, PendingPlan::EmitLiteral(object(seq![
                    ("deleted"@, JsonModel::Bool(true)), ("id"@, num_model(a.id))])))
        },
        AttachmentAction::Download(a) => get_call(cv, item_path(attachments_path(c), a.id), Seq::empty(),
            PendingPlan::Download(a.to@)),
    }
}

/// The text of a string member of a JSON answer.
pub open spec fn str_member(reply: JsonModel, key: Seq<char>) -> Option<Seq<char>> {
    match get_member(reply, key) {
        Some(JsonModel::Str(t)) => Some(t),
        _ => None,
    }
}

/// Where a downloaded attachment is saved: the directory, a slash, and the
/// last component of the attachment's name.
pub open spec fn download_path(to: Seq<char>, name: Seq<char>) -> Seq<char> {
    to + "/"@ + last_component(name)
}

/// What a download prints once the file is saved.
pub open spec fn download_output_model(path: Seq<char>, size: u64) -> JsonModel {
    object(seq![("path"@, JsonModel::Str(path)), ("size"@, num_model(size))])
}

pub open spec fn history_spec(cv: ClientView, c: Seq<char>, id: u64, kind: HistoryKind, page: Option<u32>) -> StepPlan {
    match history_resource(c) {
        None => StepPlan::Fail(AppErrorView::Usage(history_message())),
        Some(r) => list_call(cv, item_path("history/"@ + r, id), history_query(kind), page, PendingPlan::EmitList),
    }
}

fn call(req: Result<ApiRequest, TaigaError>, decode: Decode, next: Pending) -> (s: Step)
    ensures
        step_view(s) == call_plan(outcome_view(req), decode, pending_view(next)),
{
    match req {
        Ok(request) => Step::Call(Call { request, decode, next }),
        Err(e) => Step::Fail(AppError::Client(e)),
    }
}

fn no_query() -> (q: Vec<(String, String)>)
    ensures
        pairs_view(q@) == Seq::<(Seq<char>, Seq<char>)>::empty(),
{
    let q: Vec<(String, String)> = Vec::new();
    assert(pairs_view(q@) =~= Seq::empty());
    q
}

fn number_pair(key: &str, n: u64) -> (q: Vec<(String, String)>)
    ensures
        pairs_view(q@) == seq![(key@, decimal(n as nat))],
{
    let q = vec![(owned(key), u64_to_string(n))];
    assert(pairs_view(q@) =~= seq![(key@, decimal(n as nat))]);
    q
}

fn list_step(client: &TaigaClient, path: &str, q: &Vec<(String, String)>, page: Option<u32>, next: Pending) -> (s: Step)
    ensures
        step_view(s) == list_call(client@, path@, pairs_view(q@), page, pending_view(next)),
{
    match pagination(page) {
        Err(e) => Step::Fail(e),
        Ok(pg) => call(client.request(HttpMethod::Get, path, q, None, true, Some(pg)), Decode::Items, next),
    }
}

fn get_step(client: &TaigaClient, path: &str, q: &Vec<(String, String)>, next: Pending) -> (s: Step)
    ensures
        step_view(s) == get_call(client@, path@, pairs_view(q@), pending_view(next)),
{
    call(client.request(HttpMethod::Get, path, q, None, true, None), Decode::Value, next)
}

/// A JSON object of the given members.
fn object_of(ms: Vec<(String, Json)>) -> (j: Json)
    ensures
        json_model(j) == object(members_model(ms@)),
{
    Json::Object(ms)
}

fn history_step(client: &TaigaClient, c: &'static str, id: u64, kind: HistoryKind, page: Option<u32>) -> (s: Step)
    ensures
        step_view(s) == history_spec(client@, c@, id, kind, page),
{
    let resource = if str_eq(c, "userstories") {
        "userstory"
    } else if str_eq(c, "tasks") {
        "task"
    } else if str_eq(c, "issues") {
        "issue"
    } else if str_eq(c, "wiki") {
        "wiki"
    } else if str_eq(c, "epics") {
        "epic"
    } else {
        return Step::Fail(AppError::Usage(owned("history unavailable for this resource")));
    };
    let q = match kind {
        HistoryKind::All => no_query(),
        HistoryKind::Activity => {
            let q = vec![(owned("type"), owned("activity"))];
            assert(pairs_view(q@) =~= seq![("type"@, "activity"@)]);
            q
        },
        HistoryKind::Comment => {
            let q = vec![(owned("type"), owned("comment"))];
            assert(pairs_view(q@) =~= seq![("type"@, "comment"@)]);
            q
        },
    };
    let base = concat("history/", resource);
    let path = item_path_of(base.as_str(), id);
    list_step(client, path.as_str(), &q, page, Pending::EmitList)
}

/// What an action on the collection `collection` does first.
/// Whether a collection has attachments (see [`has_attachments`]).
fn collection_has_attachments(c: &str) -> (r: bool)
    ensures
        r == has_attachments(c@),
{
    str_eq(c, "userstories") || str_eq(c, "tasks") || str_eq(c, "issues") || str_eq(c, "epics") || str_eq(c, "wiki")
}

fn text_part(name: &str, value: String) -> (p: FormPart)
    ensures
        form_view(seq![p]) == seq![(name@, FormValueView::Text(value@))],
{
    let p = FormPart { name: owned(name), value: FormValue::Text(value) };
    assert(form_view(seq![p]) =~= seq![(name@, FormValueView::Text(value@))]);
    p
}

fn bool_string(b: bool) -> (t: String)
    ensures
        Some(t@) == opt_bool_text(Some(b)),
{
    if b { owned("true") } else { owned("false") }
}

proof fn lemma_form_push(parts: Seq<FormPart>, p: FormPart)
    ensures
        form_view(parts.push(p)) == form_view(parts) + form_view(seq![p]),
{
    assert(form_view(parts.push(p)) =~= form_view(parts) + form_view(seq![p]));
}

/// Pushes a text part when there is a value.
fn push_opt_text(form: &mut Vec<FormPart>, name: &str, value: Option<String>)
    ensures
        form_view(final(form)@) == form_view(old(form)@) + opt_text_part(name@, opt_str(value)),
{
    match value {
        Some(v) => {
            let p = text_part(name, v);
            proof { lemma_form_push(form@, p); }
            form.push(p);
        },
        None => {
            assert(form_view(form@) + Seq::<(Seq<char>, FormValueView)>::empty() =~= form_view(form@));
        },
    }
}

/// The parts of the form that attaches a file.
fn add_form_parts(a: AttachmentAddArgs, project: u64) -> (form: Vec<FormPart>)
    ensures
        form_view(form@) == add_form(a.id, project, a),
{
    let ghost whole = a;
    let mut form: Vec<FormPart> = Vec::new();
    let p0 = text_part("object_id", u64_to_string(a.id));
    proof { lemma_form_push(form@, p0); }
    form.push(p0);
    let p1 = text_part("project", u64_to_string(project));
    proof { lemma_form_push(form@, p1); }
    form.push(p1);
    assert(form_view(form@) =~= seq![("object_id"@, FormValueView::Text(decimal(a.id as nat))),
        ("project"@, FormValueView::Text(decimal(project as nat)))]);
    push_opt_text(&mut form, "description", a.description);
    let deprecated = match a.deprecated {
        Some(b) => Some(bool_string(b)),
        None => None,
    };
    assert(opt_str(deprecated) == opt_bool_text(a.deprecated));
    push_opt_text(&mut form, "is_deprecated", deprecated);
    let file = FormPart { name: owned("attached_file"), value: FormValue::File { file_name: a.file.name, bytes: a.file.bytes } };
    assert(form_view(seq![file]) =~= seq![file_part(whole.file)]);
    proof { lemma_form_push(form@, file); }
    form.push(file);
    form
}

/// The parts of the form that changes an attachment with a new file.
fn edit_form_parts(a: AttachmentEditArgs) -> (form: Vec<FormPart>)
    requires
        a.file is Some,
    ensures
        form_view(form@) == edit_form(a),
{
    let ghost whole = a;
    let mut form: Vec<FormPart> = Vec::new();
    assert(form_view(form@) =~= Seq::empty());
    push_opt_text(&mut form, "description", a.description);
    let deprecated = match a.deprecated {
        Some(b) => Some(bool_string(b)),
        None => None,
    };
    assert(opt_str(deprecated) == opt_bool_text(a.deprecated));
    push_opt_text(&mut form, "is_deprecated", deprecated);
    let order = match a.order {
        Some(o) => Some(u64_to_string(o)),
        None => None,
    };
    assert(opt_str(order) == opt_decimal(a.order));
    push_opt_text(&mut form, "order", order);
    match a.file {
        Some(f) => {
            let file = FormPart { name: owned("attached_file"), value: FormValue::File { file_name: f.name, bytes: f.bytes } };
            assert(form_view(seq![file]) =~= seq![file_part(whole.file->0)]);
            proof { lemma_form_push(form@, file); }
            form.push(file);
        },
        None => {},
    }
    assert(form_view(form@) =~= edit_form(whole));
    form
}

/// The JSON body of an edit without a file.
fn edit_members_json(a: &AttachmentEditArgs) -> (ms: Vec<(String, Json)>)
    ensures
        members_model(ms@) == edit_members(*a),
{
    let mut ms: Vec<(String, Json)> = Vec::new();
    proof { lemma_members_model(ms@); }
    assert(members_model(ms@) =~= Seq::empty());
    match &a.description {
        Some(d) => {
            let m = (owned("description"), Json::Str(d.clone()));
            ms.push(m);
        },
        None => {},
    }
    proof { lemma_members_model(ms@); }
    let ghost after_description = members_model(ms@);
    assert(after_description =~= match a.description {
        Some(d) => seq![("description"@, JsonModel::Str(d@))],
        None => Seq::empty(),
    });
    match a.deprecated {
        Some(b) => {
            let m = (owned("is_deprecated"), Json::Bool(b));
            ms.push(m);
        },
        None => {},
    }
    proof { lemma_members_model(ms@); }
    let ghost after_deprecated = members_model(ms@);
    assert(after_deprecated =~= after_description + match a.deprecated {
        Some(b) => seq![("is_deprecated"@, JsonModel::Bool(b))],
        None => Seq::empty(),
    });
    match a.order {
        Some(o) => {
            let m = (owned("order"), json_u64(o));
            ms.push(m);
        },
        None => {},
    }
    proof { lemma_members_model(ms@); }
    assert(members_model(ms@) =~= after_deprecated + match a.order {
        Some(o) => seq![("order"@, num_model(o))],
        None => Seq::empty(),
    });
    ms
}

/// What an action on the attachments of a collection does first (see
/// [`attachment_spec`]).
fn attachment(client: &TaigaClient, collection: &'static str, action: AttachmentAction) -> (s: Step)
    ensures
        step_view(s) == attachment_spec(client@, collection@, action),
{
    let service = ResourceService::new(client, collection);
    match action {
        AttachmentAction::List(args) => call(service.get(args.id), Decode::Value, Pending::Attachments(collection, args.id)),
        AttachmentAction::Add(args) => {
            let id = args.id;
            call(service.get(id), Decode::Value, Pending::AttachmentUpload(collection, args))
        },
        AttachmentAction::Edit(args) => {
            let base = concat(collection, "/attachments");
            let path = item_path_of(base.as_str(), args.id);
            if args.file.is_some() {
                let form = edit_form_parts(args);
                call(client.multipart(HttpMethod::Patch, path.as_str(), form), Decode::Value, Pending::EmitResponse)
            } else if args.description.is_none() && args.deprecated.is_none() && args.order.is_none() {
                Step::Fail(AppError::Usage(owned("attachments edit needs --file or at least one field")))
            } else {
                let ms = edit_members_json(&args);
                call(client.request(HttpMethod::Patch, path.as_str(), &no_query(), Some(object_of(ms)), true, None),
                    Decode::Value, Pending::EmitResponse)
            }
        },
        AttachmentAction::Remove(args) => {
            if !args.yes {
                return Step::Fail(AppError::Usage(owned("attachments remove requires --yes")));
            }
            let base = concat(collection, "/attachments");
            let path = item_path_of(base.as_str(), args.id);
            let ms = vec![(owned("deleted"), Json::Bool(true)), (owned("id"), json_u64(args.id))];
            proof {
                lemma_members_model(ms@);
                assert(members_model(ms@) =~= seq![("deleted"@, JsonModel::Bool(true)), ("id"@, num_model(args.id))]);
            }
            call(client.empty(HttpMethod::Delete, path.as_str(), &no_query(), None), Decode::Nothing,
                Pending::EmitLiteral(object_of(ms)))
        },
        AttachmentAction::Download(args) => {
            let base = concat(collection, "/attachments");
            let path = item_path_of(base.as_str(), args.id);
            get_step(client, path.as_str(), &no_query(), Pending::Download(args.to))
        },
    }
}

/// The text of the string member `key` of a JSON answer.
fn member_str(reply: &Json, key: &str) -> (r: Option<String>)
    ensures
        opt_str(r) == str_member(json_model(*reply), key@),
{
    match reply.get(key) {
        Some(Json::Str(t)) => Some(t.clone()),
        _ => None,
    }
}

/// What a download prints once the file is saved: where, and how many
/// bytes.
pub fn download_output(path: &str, size: u64) -> (j: Json)
    ensures
        json_model(j) == download_output_model(path@, size),
{
    let ms = vec![(owned("path"), Json::Str(owned(path))), (owned("size"), json_u64(size))];
    proof {
        lemma_members_model(ms@);
        assert(members_model(ms@) =~= seq![("path"@, JsonModel::Str(path@)), ("size"@, num_model(size))]);
    }
    object_of(ms)
}

/// `statuses` lists the statuses of the collection it is given: user
/// stories, tasks, epics and issues each read their own status list, the
/// first page by default, for the given project.
pub proof fn lemma_statuses_of_each_collection(cv: ClientView, a: ProjectArgs)
    ensures
        resource_spec(cv, "userstories"@, ResourceAction::Statuses(a))
            == list_call(cv, "userstory-statuses"@, seq![("project"@, decimal(a.project as nat))], a.page, PendingPlan::EmitList),
        resource_spec(cv, "tasks"@, ResourceAction::Statuses(a))
            == list_call(cv, "task-statuses"@, seq![("project"@, decimal(a.project as nat))], a.page, PendingPlan::EmitList),
        resource_spec(cv, "epics"@, ResourceAction::Statuses(a))
            == list_call(cv, "epic-statuses"@, seq![("project"@, decimal(a.project as nat))], a.page, PendingPlan::EmitList),
        resource_spec(cv, "issues"@, ResourceAction::Statuses(a))
            == list_call(cv, "issue-statuses"@, seq![("project"@, decimal(a.project as nat))], a.page, PendingPlan::EmitList),
{
    reveal_strlit("userstories");
    reveal_strlit("tasks");
    reveal_strlit("epics");
    reveal_strlit("issues");
    reveal_strlit("userstory");
    reveal_strlit("task");
    reveal_strlit("epic");
    reveal_strlit("issue");
    reveal_strlit("-statuses");
    reveal_strlit("userstory-statuses");
    reveal_strlit("task-statuses");
    reveal_strlit("epic-statuses");
    reveal_strlit("issue-statuses");
    assert("tasks"@.len() != "userstories"@.len());
    assert("epics"@[0] != "tasks"@[0] && "epics"@.len() != "userstories"@.len());
    assert("issues"@.len() != "userstories"@.len() && "issues"@.len() != "tasks"@.len() && "issues"@.len() != "epics"@.len());
    assert("userstory"@ + "-statuses"@ =~= "userstory-statuses"@);
    assert("task"@ + "-statuses"@ =~= "task-statuses"@);
    assert("epic"@ + "-statuses"@ =~= "epic-statuses"@);
    assert("issue"@ + "-statuses"@ =~= "issue-statuses"@);
}

/// No step of a session changes whether a password is saved, and the saved
/// password is looked up only when one is: so after a session renewed from
/// the saved password, `auth status` reports `"password_stored": true`.
pub proof fn lemma_status_reports_stored_relogin(
    inp: InputsView,
    cfg: ConfigView,
    p: PhaseView,
    e: EventView,
    cv: ClientView,
    status: AuthAction,
    identity: JsonModel,
)
    ensures
        session_spec(inp, cfg, p, e).config.remember_password == cfg.remember_password,
        session_spec(inp, cfg, p, e).action is LookupPassword ==> cfg.remember_password,
        cfg.remember_password ==> (start_spec(cv, cfg, Command::Auth(status)) matches StepPlan::Call(_, _, pending)
            ==> resume_spec(cv, pending, identity, None) == StepPlan::Emit(object(seq![
                ("api_url"@, opt_str_model(cfg.api_url)), ("identity"@, identity),
                ("password_stored"@, JsonModel::Bool(true))]))),
{
}

/// The fetch of a downloaded attachment's file never carries the session's
/// bearer token: the file may live on another host.
pub proof fn lemma_media_fetch_has_no_bearer(cv: ClientView, pending: PendingPlan, reply: JsonModel, p: Option<PaginationView>)
    ensures
        resume_spec(cv, pending, reply, p) matches StepPlan::Fetch(req, _) ==> req.bearer is None && req.method == HttpMethod::Get,
{
}

pub fn resource(client: &TaigaClient, collection: &'static str, action: ResourceAction) -> (s: Step)
    ensures
        step_view(s) == resource_spec(client@, collection@, action),
{
    let service = ResourceService::new(client, collection);
    match action {
        ResourceAction::List(args) => {
            if str_eq(collection, "projects") && !args.all_visible {
                get_step(client, "users/me", &no_query(), Pending::ProjectMember(args))
            } else {
                let q = query(collection, &args);
                let page = args.page;
                list_step(client, collection, &q, page, Pending::EmitList)
            }
        },
        ResourceAction::Get(args) => call(service.get(args.id), Decode::Value, Pending::EmitResponse),
        ResourceAction::GetByRef(args) => call(service.by_ref(ProjectId(args.project), args.reference), Decode::Value, Pending::EmitResponse),
        ResourceAction::Create(args) => match body(&args) {
            Err(e) => Step::Fail(e),
            Ok(b) => call(service.create(b), Decode::Value, Pending::EmitResponse),
        },
        ResourceAction::Edit(args) => {
            let id = args.id;
            call(service.get(id), Decode::Value, Pending::Edit(collection, args))
        },
        ResourceAction::Delete(args) => {
            if !args.yes {
                return Step::Fail(AppError::Usage(owned("delete requires --yes")));
            }
            let ms = vec![(owned("deleted"), Json::Bool(true)), (owned("id"), json_u64(args.id))];
            proof {
                lemma_members_model(ms@);
                assert(members_model(ms@) =~= seq![("deleted"@, JsonModel::Bool(true)), ("id"@, num_model(args.id))]);
            }
            call(service.delete(args.id), Decode::Nothing, Pending::EmitLiteral(object_of(ms)))
        },
        ResourceAction::History(args) => history_step(client, collection, args.id, args.kind, args.page),
        ResourceAction::Comments(args) => history_step(client, collection, args.id, args.kind, args.page),
        ResourceAction::Attachments(action) => {
            if !collection_has_attachments(collection) {
                return Step::Fail(AppError::Usage(owned("attachments unavailable for this resource")));
            }
            attachment(client, collection, action)
        },
        ResourceAction::Stats(args) => {
            let item = item_path_of(collection, args.id);
            let path = concat(item.as_str(), "/stats");
            get_step(client, path.as_str(), &no_query(), Pending::EmitResponse)
        },
        ResourceAction::Statuses(args) => {
            let kind = if str_eq(collection, "userstories") {
                "userstory"
            } else if str_eq(collection, "tasks") {
                "task"
            } else if str_eq(collection, "epics") {
                "epic"
            } else {
                "issue"
            };
            let path = concat(kind, "-statuses");
            list_step(client, path.as_str(), &number_pair("project", args.project), args.page, Pending::EmitList)
        },
        ResourceAction::Metadata(args) => {
            let done: Vec<(String, Json)> = Vec::new();
            assert(members_model(done@) =~= Seq::empty());
            list_step(client, "issue-statuses", &number_pair("project", args.project), args.page,
                Pending::Metadata { project: args.project, page: args.page, done })
        },
        ResourceAction::Roles(args) => list_step(client, "roles", &number_pair("project", args.project), args.page, Pending::EmitList),
        ResourceAction::Memberships(args) => list_step(client, "memberships", &number_pair("project", args.project), args.page, Pending::EmitList),
    }
}

pub open spec fn remove_yes_message() -> Seq<char> {
    "remove requires --yes"@
}

pub open spec fn blank_search_message() -> Seq<char> {
    "search text cannot be blank"@
}

pub open spec fn search_scope_message() -> Seq<char> {
    "select --project, --project-slug, or --all-projects"@
}

/// The path of the user stories related to an epic.
pub open spec fn related_path(epic: u64) -> Seq<char> {
    item_path("epics"@, epic) + "/related_userstories"@
}

/// The query of a search in one project.
pub open spec fn search_query(project: u64, text: Seq<char>) -> Seq<(Seq<char>, Seq<char>)> {
    seq![("project"@, decimal(project as nat)), ("text"@, text)]
}

/// The timeline that an action lists, with its arguments.
pub open spec fn timeline_kind(a: TimelineAction) -> Seq<char> {
    match a {
        TimelineAction::User(_) => "user"@,
        TimelineAction::Profile(_) => "profile"@,
        TimelineAction::Project(_) => "project"@,
    }
}

/// Whether a command is one that needs a session (every command but
/// `auth login`, `auth logout` and `auth forget`).
pub open spec fn needs_session(command: Command) -> bool {
    match command {
        Command::Auth(AuthAction::Status) => true,
        Command::Auth(_) => false,
        _ => true,
    }
}

/// Whether a command needs a session (see [`needs_session`]).
pub fn command_needs_session(command: &Command) -> (r: bool)
    ensures
        r == needs_session(*command),
{
    match command {
        Command::Auth(AuthAction::Status) => true,
        Command::Auth(_) => false,
        _ => true,
    }
}

/// What a command that needs a session does first.
pub open spec fn start_spec(cv: ClientView, config: ConfigView, command: Command) -> StepPlan {
    match command {
        Command::Auth(_) => get_call(cv, "users/me"@, Seq::empty(), PendingPlan::Status(config.api_url, config.remember_password)),
        Command::Project(a) => resource_spec(cv, "projects"@, a),
        Command::Userstory(a) => resource_spec(cv, "userstories"@, a),
        Command::Issue(a) => resource_spec(cv, "issues"@, a),
        Command::Milestone(a) => resource_spec(cv, "milestones"@, a),
        Command::Wiki(a) => resource_spec(cv, "wiki"@, a),
        Command::Task(TaskAction::Resource(a)) => resource_spec(cv, "tasks"@, a),
        Command::Task(TaskAction::Status(a)) => get_call(cv, item_path("tasks"@, a.id), Seq::empty(),
            PendingPlan::TaskStatus(a.id, a.status)),
        Command::Epic(EpicAction::Resource(a)) => resource_spec(cv, "epics"@, a),
        Command::Epic(EpicAction::Stories(a)) => epic_stories_spec(cv, a),
        Command::Search(sc) => search_spec(cv, sc),
        Command::Notification(a) => notification_spec(cv, a),
        Command::Timeline(t) => timeline_spec(cv, t),
    }
}

/// Whether a resource action is confirmed: a delete carries `--yes`.
pub open spec fn action_confirmed(action: ResourceAction) -> bool {
    match action {
        ResourceAction::Delete(a) => a.yes,
        ResourceAction::Attachments(AttachmentAction::Remove(a)) => a.yes,
        _ => true,
    }
}

/// Whether a command is confirmed: every delete and every removal of a
/// user story from an epic carries `--yes`.
pub open spec fn deletion_confirmed(command: Command) -> bool {
    match command {
        Command::Project(a) => action_confirmed(a),
        Command::Userstory(a) => action_confirmed(a),
        Command::Issue(a) => action_confirmed(a),
        Command::Milestone(a) => action_confirmed(a),
        Command::Wiki(a) => action_confirmed(a),
        Command::Task(TaskAction::Resource(a)) => action_confirmed(a),
        Command::Epic(EpicAction::Resource(a)) => action_confirmed(a),
        Command::Epic(EpicAction::Stories(EpicStoriesAction::Remove(a))) => a.yes,
        _ => true,
    }
}

/// Nothing is deleted without confirmation: a delete or a removal without
/// `--yes` fails with a usage error before any request is made, and the
/// first request of a command is a `DELETE` only when the command is
/// confirmed.
pub proof fn lemma_deletion_needs_confirmation(cv: ClientView, config: ConfigView, command: Command)
    ensures
        !deletion_confirmed(command) ==> start_spec(cv, config, command) is Fail,
        !deletion_confirmed(command) ==> (start_spec(cv, config, command) == StepPlan::Fail(AppErrorView::Usage(yes_message()))
            || start_spec(cv, config, command) == StepPlan::Fail(AppErrorView::Usage(remove_yes_message()))
            || start_spec(cv, config, command) == StepPlan::Fail(AppErrorView::Usage(attachment_remove_message()))
            || start_spec(cv, config, command) == StepPlan::Fail(AppErrorView::Usage(attachments_message()))),
        start_spec(cv, config, command) matches StepPlan::Call(req, _, _) && req.method == HttpMethod::Delete
            ==> deletion_confirmed(command),
{
    lemma_request_methods();
}

/// What a command on the user stories of an epic does first.
pub open spec fn epic_stories_spec(cv: ClientView, action: EpicStoriesAction) -> StepPlan {
    match action {
        EpicStoriesAction::List(a) => call_plan(
            request_spec(cv, HttpMethod::Get, related_path(a.id), Seq::empty(), None, true, Some(PaginationMode::All)),
            Decode::Items, PendingPlan::EmitList),
        EpicStoriesAction::Add(a) => call_plan(
            request_spec(cv, HttpMethod::Post, related_path(a.epic_id), Seq::empty(),
                Some(object(seq![("epic"@, num_model(a.epic_id)), ("user_story"@, num_model(a.story_id))])), true, None),
            Decode::Value, PendingPlan::EmitResponse),
        EpicStoriesAction::Reorder(a) => call_plan(
            request_spec(cv, HttpMethod::Patch, item_path(related_path(a.epic_id), a.story_id), Seq::empty(),
                Some(object(seq![("order"@, num_model(a.order))])), true, None),
            Decode::Value, PendingPlan::EmitResponse),
        EpicStoriesAction::Remove(a) => if !a.yes {
            StepPlan::Fail(AppErrorView::Usage(remove_yes_message()))
        } else {
            call_plan(empty_request_spec(cv, HttpMethod::Delete, item_path(related_path(a.epic_id), a.story_id), Seq::empty(), None),
                Decode::Nothing, PendingPlan::EmitLiteral(object(seq![
                    ("deleted"@, JsonModel::Bool(true)), ("story_id"@, num_model(a.story_id))])))
        },
    }
}

/// What a search does first.
pub open spec fn search_spec(cv: ClientView, sc: crate::cli_args::SearchCommand) -> StepPlan {
    if is_blank(sc.text@) {
        StepPlan::Fail(AppErrorView::Usage(blank_search_message()))
    } else if sc.all_projects {
        call_plan(request_spec(cv, HttpMethod::Get, "projects"@, Seq::empty(), None, true, Some(PaginationMode::All)),
            Decode::Items, PendingPlan::SearchAllList(sc.text@))
    } else if sc.project is Some {
        call_plan(request_spec(cv, HttpMethod::Get, "search"@, search_query(sc.project->0, sc.text@), None, true, None),
            Decode::Search, PendingPlan::EmitResponse)
    } else if sc.project_slug is Some {
        get_call(cv, "projects/by_slug"@, seq![("slug"@, sc.project_slug->0@)], PendingPlan::SearchSlug(sc.text@))
    } else {
        StepPlan::Fail(AppErrorView::Usage(search_scope_message()))
    }
}

/// What a notification command does first.
pub open spec fn notification_spec(cv: ClientView, action: NotificationAction) -> StepPlan {
    match action {
        NotificationAction::List { unread, page } => match pagination_spec(page) {
            Err(e) => StepPlan::Fail(e),
            Ok(pg) => call_plan(request_spec(cv, HttpMethod::Get, "web-notifications"@, flag_query(unread, "only_unread"@), None, true, Some(pg)),
                Decode::Notifications, PendingPlan::EmitList),
        },
        NotificationAction::Count => call_plan(
            request_spec(cv, HttpMethod::Get, "web-notifications"@, flag_query(true, "only_unread"@), None, true, Some(PaginationMode::Page(1))),
            Decode::Value, PendingPlan::Count),
        NotificationAction::Read(a) => call_plan(
            empty_request_spec(cv, HttpMethod::Patch, item_path("web-notifications"@, a.id) + "/set-as-read"@, Seq::empty(), None),
            Decode::Nothing, PendingPlan::EmitLiteral(object(seq![("read"@, JsonModel::Bool(true)), ("id"@, num_model(a.id))]))),
        NotificationAction::ReadAll => call_plan(
            empty_request_spec(cv, HttpMethod::Post, "web-notifications/set-as-read"@, Seq::empty(), None),
            Decode::Nothing, PendingPlan::EmitLiteral(object(seq![("read_all"@, JsonModel::Bool(true))]))),
    }
}

/// What a timeline command does first.
pub open spec fn timeline_spec(cv: ClientView, t: TimelineAction) -> StepPlan {
    let a = match t {
        TimelineAction::User(a) => a,
        TimelineAction::Profile(a) => a,
        TimelineAction::Project(a) => a,
    };
    list_call(cv, item_path("timeline"@ + "/"@ + timeline_kind(t), a.id), flag_query(a.relevant, "only_relevant"@),
        a.page, PendingPlan::EmitList)
}

fn related_path_of(epic: u64) -> (p: String)
    ensures
        p@ == related_path(epic),
{
    let item = item_path_of("epics", epic);
    concat(item.as_str(), "/related_userstories")
}

fn epic_stories(client: &TaigaClient, action: EpicStoriesAction) -> (s: Step)
    ensures
        step_view(s) == epic_stories_spec(client@, action),
{
    match action {
        EpicStoriesAction::List(a) => {
            let path = related_path_of(a.id);
            call(client.list_path(path.as_str(), &no_query(), PaginationMode::All), Decode::Items, Pending::EmitList)
        },
        EpicStoriesAction::Add(a) => {
            let path = related_path_of(a.epic_id);
            let ms = vec![(owned("epic"), json_u64(a.epic_id)), (owned("user_story"), json_u64(a.story_id))];
            proof {
                lemma_members_model(ms@);
                assert(members_model(ms@) =~= seq![("epic"@, num_model(a.epic_id)), ("user_story"@, num_model(a.story_id))]);
            }
            call(client.post_path(path.as_str(), object_of(ms)), Decode::Value, Pending::EmitResponse)
        },
        EpicStoriesAction::Reorder(a) => {
            let related = related_path_of(a.epic_id);
            let path = item_path_of(related.as_str(), a.story_id);
            let ms = vec![(owned("order"), json_u64(a.order))];
            proof {
                lemma_members_model(ms@);
                assert(members_model(ms@) =~= seq![("order"@, num_model(a.order))]);
            }
            call(client.patch_path(path.as_str(), object_of(ms)), Decode::Value, Pending::EmitResponse)
        },
        EpicStoriesAction::Remove(a) => {
            if !a.yes {
                return Step::Fail(AppError::Usage(owned("remove requires --yes")));
            }
            let related = related_path_of(a.epic_id);
            let path = item_path_of(related.as_str(), a.story_id);
            let ms = vec![(owned("deleted"), Json::Bool(true)), (owned("story_id"), json_u64(a.story_id))];
            proof {
                lemma_members_model(ms@);
                assert(members_model(ms@) =~= seq![("deleted"@, JsonModel::Bool(true)), ("story_id"@, num_model(a.story_id))]);
            }
            call(client.delete_path(path.as_str()), Decode::Nothing, Pending::EmitLiteral(object_of(ms)))
        },
    }
}

fn search(client: &TaigaClient, sc: crate::cli_args::SearchCommand) -> (s: Step)
    ensures
        step_view(s) == search_spec(client@, sc),
{
    if str_is_blank(sc.text.as_str()) {
        return Step::Fail(AppError::Usage(owned("search text cannot be blank")));
    }
    if sc.all_projects {
        return call(client.projects().list(&no_query(), PaginationMode::All), Decode::Items,
            Pending::SearchAllList(sc.text));
    }
    match sc.project {
        Some(id) => call(client.search().project(ProjectId(id), sc.text.as_str()), Decode::Search, Pending::EmitResponse),
        None => match sc.project_slug {
            Some(slug) => {
                let q = vec![(owned("slug"), slug)];
                assert(pairs_view(q@) =~= seq![("slug"@, sc.project_slug->0@)]);
                get_step(client, "projects/by_slug", &q, Pending::SearchSlug(sc.text))
            },
            None => Step::Fail(AppError::Usage(owned("select --project, --project-slug, or --all-projects"))),
        },
    }
}

fn notification(client: &TaigaClient, action: NotificationAction) -> (s: Step)
    ensures
        step_view(s) == notification_spec(client@, action),
{
    match action {
        NotificationAction::List { unread, page } => match pagination(page) {
            Err(e) => Step::Fail(e),
            Ok(pg) => call(client.notifications().list(unread, pg), Decode::Notifications, Pending::EmitList),
        },
        NotificationAction::Count => call(client.notifications().unread_count(), Decode::Value, Pending::Count),
        NotificationAction::Read(a) => {
            let ms = vec![(owned("read"), Json::Bool(true)), (owned("id"), json_u64(a.id))];
            proof {
                lemma_members_model(ms@);
                assert(members_model(ms@) =~= seq![("read"@, JsonModel::Bool(true)), ("id"@, num_model(a.id))]);
            }
            call(client.notifications().read(NotificationId(a.id)), Decode::Nothing, Pending::EmitLiteral(object_of(ms)))
        },
        NotificationAction::ReadAll => {
            let ms = vec![(owned("read_all"), Json::Bool(true))];
            proof {
                lemma_members_model(ms@);
                assert(members_model(ms@) =~= seq![("read_all"@, JsonModel::Bool(true))]);
            }
            call(client.notifications().read_all(), Decode::Nothing, Pending::EmitLiteral(object_of(ms)))
        },
    }
}

fn timeline(client: &TaigaClient, t: TimelineAction) -> (s: Step)
    ensures
        step_view(s) == timeline_spec(client@, t),
{
    let (kind, a) = match t {
        TimelineAction::User(a) => ("user", a),
        TimelineAction::Profile(a) => ("profile", a),
        TimelineAction::Project(a) => ("project", a),
    };
    match pagination(a.page) {
        Err(e) => Step::Fail(e),
        Ok(pg) => call(client.timeline().list(kind, a.id, a.relevant, pg), Decode::Items, Pending::EmitList),
    }
}

/// What a command that needs a session does first.
pub fn start(client: &TaigaClient, config: &Config, command: Command) -> (s: Step)
    requires
        needs_session(command),
    ensures
        step_view(s) == start_spec(client@, config@, command),
{
    match command {
        Command::Auth(_) => get_step(client, "users/me", &no_query(), Pending::Status(config.api_url.clone(), config.remember_password)),
        Command::Project(a) => resource(client, "projects", a),
        Command::Userstory(a) => resource(client, "userstories", a),
        Command::Issue(a) => resource(client, "issues", a),
        Command::Milestone(a) => resource(client, "milestones", a),
        Command::Wiki(a) => resource(client, "wiki", a),
        Command::Task(TaskAction::Resource(a)) => resource(client, "tasks", a),
        Command::Task(TaskAction::Status(a)) => {
            let path = item_path_of("tasks", a.id);
            get_step(client, path.as_str(), &no_query(), Pending::TaskStatus { id: a.id, status: a.status })
        },
        Command::Epic(EpicAction::Resource(a)) => resource(client, "epics", a),
        Command::Epic(EpicAction::Stories(a)) => epic_stories(client, a),
        Command::Search(sc) => search(client, sc),
        Command::Notification(a) => notification(client, a),
        Command::Timeline(t) => timeline(client, t),
    }
}

pub open spec fn opt_bool_model(o: Option<bool>) -> JsonModel {
    match o {
        Some(b) => JsonModel::Bool(b),
        None => JsonModel::Null,
    }
}

pub open spec fn opt_num_model(o: Option<u64>) -> JsonModel {
    match o {
        Some(n) => num_model(n),
        None => JsonModel::Null,
    }
}

pub open spec fn opt_str_model(o: Option<Seq<char>>) -> JsonModel {
    match o {
        Some(t) => JsonModel::Str(t),
        None => JsonModel::Null,
    }
}

pub open spec fn opt_pagination(p: Option<Pagination>) -> Option<PaginationView> {
    match p {
        Some(p) => Some(p@),
        None => None,
    }
}

/// How pagination details are printed: `null`, or an object of their fields.
pub open spec fn pagination_model(p: Option<PaginationView>) -> JsonModel {
    match p {
        None => JsonModel::Null,
        Some(p) => object(seq![
            ("paginated"@, opt_bool_model(p.paginated)),
            ("page_size"@, opt_num_model(p.page_size)),
            ("count"@, opt_num_model(p.count)),
            ("current"@, opt_num_model(p.current)),
            ("next"@, opt_str_model(p.next)),
            ("previous"@, opt_str_model(p.previous)),
        ]),
    }
}

/// How a list is printed: its items and its pagination.
pub open spec fn list_model(items: JsonModel, p: Option<PaginationView>) -> JsonModel {
    object(seq![("items"@, items), ("pagination"@, pagination_model(p))])
}

/// A number read from an optional member.
pub open spec fn opt_u64(o: Option<JsonModel>) -> Option<u64> {
    match o {
        Some(v) => as_u64_model(v),
        None => None,
    }
}

pub open spec fn member_id_message() -> Seq<char> {
    "current-user response lacks id"@
}

pub open spec fn version_message() -> Seq<char> {
    "resource response lacks version"@
}

pub open spec fn project_message() -> Seq<char> {
    "resource lacks project"@
}

pub open spec fn task_version_message() -> Seq<char> {
    "task response lacks version"@
}

pub open spec fn slug_id_message() -> Seq<char> {
    "project lookup lacks id"@
}

pub open spec fn entry_id_message() -> Seq<char> {
    "project list entry lacks id"@
}

/// The items of a list answer.
pub open spec fn items_of(reply: JsonModel) -> Seq<JsonModel> {
    match reply {
        JsonModel::Array(xs) => xs,
        _ => Seq::empty(),
    }
}

/// The search in the project at `i` of the visible projects, or the
/// printed rows once every project was searched.
pub open spec fn search_next_spec(cv: ClientView, text: Seq<char>, projects: Seq<JsonModel>, i: nat, rows: Seq<JsonModel>) -> StepPlan {
    if i >= projects.len() {
        StepPlan::Emit(object(seq![("projects"@, JsonModel::Array(rows))]))
    } else {
        match opt_u64(get_member(projects[i as int], "id"@)) {
            None => StepPlan::Fail(AppErrorView::Usage(entry_id_message())),
            Some(id) => call_plan(request_spec(cv, HttpMethod::Get, "search"@, search_query(id, text), None, true, None),
                Decode::Search, PendingPlan::SearchAllRow(text, projects, i, rows)),
        }
    }
}

/// What the answer `reply` (with the pagination `p` of a list) leads to.
pub open spec fn resume_spec(cv: ClientView, pending: PendingPlan, reply: JsonModel, p: Option<PaginationView>) -> StepPlan {
    match pending {
        PendingPlan::EmitResponse => StepPlan::Emit(reply),
        PendingPlan::EmitList => StepPlan::Emit(list_model(reply, p)),
        PendingPlan::EmitLiteral(j) => StepPlan::Emit(j),
        PendingPlan::ProjectMember(a) => match opt_u64(get_member(reply, "id"@)) {
            None => StepPlan::Fail(AppErrorView::Usage(member_id_message())),
            Some(m) => list_call(cv, "projects"@, query_spec("projects"@, a).push(("member"@, decimal(m as nat))), a.page, PendingPlan::EmitList),
        },
        PendingPlan::Edit(c, a) => match opt_u64(get_member(reply, "version"@)) {
            None => StepPlan::Fail(AppErrorView::Usage(version_message())),
            Some(v) => match edit_body_spec(a, v) {
                Err(e) => StepPlan::Fail(e),
                Ok(b) => call_plan(request_spec(cv, HttpMethod::Patch, item_path(c, a.id), Seq::empty(), Some(b), true, None),
                    Decode::Value, PendingPlan::EmitResponse),
            },
        },
        PendingPlan::Attachments(c, id) => match opt_u64(get_member(reply, "project"@)) {
            None => StepPlan::Fail(AppErrorView::Usage(project_message())),
            Some(project) => call_plan(request_spec(cv, HttpMethod::Get, c + "/attachments"@,
                seq![("object_id"@, decimal(id as nat)), ("project"@, decimal(project as nat))], None, true, Some(PaginationMode::All)),
                Decode::Items, PendingPlan::EmitList),
        },
        PendingPlan::AttachmentUpload(c, a) => match opt_u64(get_member(reply, "project"@)) {
            None => StepPlan::Fail(AppErrorView::Usage(project_message())),
            Some(project) => call_plan(multipart_request_spec(cv, HttpMethod::Post, attachments_path(c),
                add_form(a.id, project, a)), Decode::Value, PendingPlan::EmitResponse),
        },
        PendingPlan::Download(to) => match (str_member(reply, "name"@), str_member(reply, "url"@)) {
            (Some(name), Some(url)) => if last_component(name).len() > 0 {
                StepPlan::Fetch(media_request_spec(url), download_path(to, name))
            } else {
                StepPlan::Fail(AppErrorView::Usage(attachment_file_message()))
            },
            _ => StepPlan::Fail(AppErrorView::Usage(attachment_file_message())),
        },
        PendingPlan::Metadata(project, page, done) => {
            let done2 = done.push((metadata_name(done.len()), list_model(reply, p)));
            if done2.len() >= 4 {
                StepPlan::Emit(object(done2))
            } else {
                list_call(cv, metadata_name(done2.len()), project_query(project), page, PendingPlan::Metadata(project, page, done2))
            }
        },
        PendingPlan::TaskStatus(id, status) => match opt_u64(get_member(reply, "version"@)) {
            None => StepPlan::Fail(AppErrorView::Usage(task_version_message())),
            Some(v) => call_plan(request_spec(cv, HttpMethod::Patch, item_path("tasks"@, id), Seq::empty(),
                Some(object(seq![("status"@, num_model(status)), ("version"@, num_model(v))])), true, None),
                Decode::Value, PendingPlan::EmitResponse),
        },
        PendingPlan::SearchSlug(text) => match opt_u64(get_member(reply, "id"@)) {
            None => StepPlan::Fail(AppErrorView::Usage(slug_id_message())),
            Some(id) => call_plan(request_spec(cv, HttpMethod::Get, "search"@, search_query(id, text), None, true, None),
                Decode::Search, PendingPlan::EmitResponse),
        },
        PendingPlan::SearchAllList(text) => search_next_spec(cv, text, items_of(reply), 0, Seq::empty()),
        PendingPlan::SearchAllRow(text, projects, i, rows) => if i < projects.len() {
            search_next_spec(cv, text, projects, i + 1,
                rows.push(object(seq![("project"@, projects[i as int]), ("results"@, reply)])))
        } else {
            search_next_spec(cv, text, projects, i, rows)
        },
        PendingPlan::Count => match unread_total_spec(reply) {
            Ok(n) => StepPlan::Emit(object(seq![("count"@, num_model(n))])),
            Err(e) => StepPlan::Fail(AppErrorView::Client(e)),
        },
        PendingPlan::Status(api_url, stored) => StepPlan::Emit(object(seq![
            ("api_url"@, opt_str_model(api_url)), ("identity"@, reply), ("password_stored"@, JsonModel::Bool(stored))])),
    }
}

fn opt_bool_json(o: Option<bool>) -> (j: Json)
    ensures
        json_model(j) == opt_bool_model(o),
{
    match o {
        Some(b) => Json::Bool(b),
        None => Json::Null,
    }
}

fn opt_num_json(o: Option<u64>) -> (j: Json)
    ensures
        json_model(j) == opt_num_model(o),
{
    match o {
        Some(n) => json_u64(n),
        None => Json::Null,
    }
}

fn opt_str_json(o: Option<String>) -> (j: Json)
    ensures
        json_model(j) == opt_str_model(opt_str(o)),
{
    match o {
        Some(t) => Json::Str(t),
        None => Json::Null,
    }
}

/// A list as it is printed: its items and its pagination.
pub fn list_json(items: Json, pagination: Option<Pagination>) -> (j: Json)
    ensures
        json_model(j) == list_model(json_model(items), opt_pagination(pagination)),
{
    let p = match pagination {
        None => Json::Null,
        Some(p) => {
            let ms = vec![
                (owned("paginated"), opt_bool_json(p.paginated)),
                (owned("page_size"), opt_num_json(p.page_size)),
                (owned("count"), opt_num_json(p.count)),
                (owned("current"), opt_num_json(p.current)),
                (owned("next"), opt_str_json(p.next)),
                (owned("previous"), opt_str_json(p.previous)),
            ];
            proof {
                lemma_members_model(ms@);
                assert(members_model(ms@) =~= seq![
                    ("paginated"@, opt_bool_model(p.paginated)),
                    ("page_size"@, opt_num_model(p.page_size)),
                    ("count"@, opt_num_model(p.count)),
                    ("current"@, opt_num_model(p.current)),
                    ("next"@, opt_str_model(opt_str(p.next))),
                    ("previous"@, opt_str_model(opt_str(p.previous))),
                ]);
            }
            object_of(ms)
        },
    };
    let ms = vec![(owned("items"), items), (owned("pagination"), p)];
    proof {
        lemma_members_model(ms@);
    }
    let j = object_of(ms);
    assert(members_model(ms@) =~= seq![("items"@, json_model(items)), ("pagination"@, pagination_model(opt_pagination(pagination)))]);
    j
}

/// A number member of an answer.
fn member_u64(reply: &Json, key: &str) -> (r: Option<u64>)
    ensures
        r == opt_u64(get_member(json_model(*reply), key@)),
{
    match reply.get(key) {
        Some(v) => v.as_u64(),
        None => None,
    }
}

fn metadata_name_of(i: usize) -> (name: &'static str)
    ensures
        name@ == metadata_name(i as nat),
{
    if i == 0 {
        "issue-statuses"
    } else if i == 1 {
        "issue-types"
    } else if i == 2 {
        "priorities"
    } else {
        "severities"
    }
}

fn search_query_of(id: u64, text: &str) -> (q: Vec<(String, String)>)
    ensures
        pairs_view(q@) == search_query(id, text@),
{
    let q = vec![(owned("project"), u64_to_string(id)), (owned("text"), owned(text))];
    assert(pairs_view(q@) =~= search_query(id, text@));
    q
}

fn search_next(client: &TaigaClient, text: String, projects: Vec<Json>, i: usize, rows: Vec<Json>) -> (s: Step)
    ensures
        step_view(s) == search_next_spec(client@, text@, items_model(projects@), i as nat, items_model(rows@)),
{
    proof {
        lemma_items_model(projects@);
        lemma_items_model(rows@);
    }
    if i >= projects.len() {
        let ms = vec![(owned("projects"), Json::Array(rows))];
        proof {
            lemma_members_model(ms@);
            assert(members_model(ms@) =~= seq![("projects"@, JsonModel::Array(items_model(rows@)))]);
        }
        return Step::Emit(object_of(ms));
    }
    match member_u64(&projects[i], "id") {
        None => Step::Fail(AppError::Usage(owned("project list entry lacks id"))),
        Some(id) => {
            let q = search_query_of(id, text.as_str());
            call(client.request(HttpMethod::Get, "search", &q, None, true, None), Decode::Search,
                Pending::SearchAllRow { text, projects, index: i, rows })
        },
    }
}

/// What the answer to a call leads to: the next call, what is printed, or
/// the failure of the command. `pagination` is the pagination of a list
/// answer.
pub fn resume(client: &TaigaClient, pending: Pending, reply: Json, pagination: Option<Pagination>) -> (s: Step)
    ensures
        step_view(s) == resume_spec(client@, pending_view(pending), json_model(reply), opt_pagination(pagination)),
{
    match pending {
        Pending::EmitResponse => Step::Emit(reply),
        Pending::EmitList => Step::Emit(list_json(reply, pagination)),
        Pending::EmitLiteral(j) => Step::Emit(j),
        Pending::ProjectMember(args) => match member_u64(&reply, "id") {
            None => Step::Fail(AppError::Usage(owned("current-user response lacks id"))),
            Some(m) => {
                let mut q = query("projects", &args);
                let p = (owned("member"), u64_to_string(m));
                let ghost before = q@;
                q.push(p);
                assert(pairs_view(q@) =~= pairs_view(before).push(("member"@, decimal(m as nat))));
                list_step(client, "projects", &q, args.page, Pending::EmitList)
            },
        },
        Pending::Edit(c, args) => match member_u64(&reply, "version") {
            None => Step::Fail(AppError::Usage(owned("resource response lacks version"))),
            Some(v) => match edit_body(&args, v) {
                Err(e) => Step::Fail(e),
                Ok(b) => call(ResourceService::new(client, c).patch(args.id, b), Decode::Value, Pending::EmitResponse),
            },
        },
        Pending::Attachments(c, id) => match member_u64(&reply, "project") {
            None => Step::Fail(AppError::Usage(owned("resource lacks project"))),
            Some(project) => {
                let path = concat(c, "/attachments");
                let q = vec![(owned("object_id"), u64_to_string(id)), (owned("project"), u64_to_string(project))];
                assert(pairs_view(q@) =~= seq![("object_id"@, decimal(id as nat)), ("project"@, decimal(project as nat))]);
                call(client.request(HttpMethod::Get, path.as_str(), &q, None, true, Some(PaginationMode::All)),
                    Decode::Items, Pending::EmitList)
            },
        },
        Pending::Metadata { project, page, done } => {
            let mut done = done;
            let ghost before = members_model(done@);
            let name = metadata_name_of(done.len());
            let entry = (owned(name), list_json(reply, pagination));
            proof {
                crate::json::lemma_members_model(done@);
                assert(done@.push(entry).drop_last() =~= done@);
            }
            done.push(entry);
            proof {
                crate::json::lemma_members_model(done@);
            }
            if done.len() >= 4 {
                Step::Emit(object_of(done))
            } else {
                let next = metadata_name_of(done.len());
                list_step(client, next, &number_pair("project", project), page,
                    Pending::Metadata { project, page, done })
            }
        },
        Pending::TaskStatus { id, status } => match member_u64(&reply, "version") {
            None => Step::Fail(AppError::Usage(owned("task response lacks version"))),
            Some(v) => {
                let ms = vec![(owned("status"), json_u64(status)), (owned("version"), json_u64(v))];
                proof {
                    lemma_members_model(ms@);
                    assert(members_model(ms@) =~= seq![("status"@, num_model(status)), ("version"@, num_model(v))]);
                }
                call(client.tasks().patch(id, object_of(ms)), Decode::Value, Pending::EmitResponse)
            },
        },
        Pending::SearchSlug(text) => match member_u64(&reply, "id") {
            None => Step::Fail(AppError::Usage(owned("project lookup lacks id"))),
            Some(id) => call(client.search().project(ProjectId(id), text.as_str()), Decode::Search, Pending::EmitResponse),
        },
        Pending::SearchAllList(text) => {
            let projects = match reply {
                Json::Array(xs) => xs,
                _ => {
                    let xs: Vec<Json> = Vec::new();
                    assert(items_model(xs@) =~= Seq::empty());
                    xs
                },
            };
            let rows: Vec<Json> = Vec::new();
            assert(items_model(rows@) =~= Seq::empty());
            search_next(client, text, projects, 0, rows)
        },
        Pending::SearchAllRow { text, projects, index, rows } => {
            proof { lemma_items_model(projects@); }
            if index < projects.len() {
                let ms = vec![(owned("project"), json_clone(&projects[index])), (owned("results"), reply)];
                proof {
                    lemma_members_model(ms@);
                    assert(members_model(ms@) =~= seq![("project"@, items_model(projects@)[index as int]), ("results"@, json_model(reply))]);
                }
                let mut rows = rows;
                let row = object_of(ms);
                proof {
                    lemma_items_model(rows@);
                    assert(rows@.push(row).drop_last() =~= rows@);
                }
                rows.push(row);
                search_next(client, text, projects, index + 1, rows)
            } else {
                search_next(client, text, projects, index, rows)
            }
        },
        Pending::Count => match NotificationService::total(&reply) {
            Ok(n) => {
                let ms = vec![(owned("count"), json_u64(n))];
                proof {
                    lemma_members_model(ms@);
                    assert(members_model(ms@) =~= seq![("count"@, num_model(n))]);
                }
                Step::Emit(object_of(ms))
            },
            Err(e) => Step::Fail(AppError::Client(e)),
        },
        Pending::Status(api_url, stored) => {
            let ms = vec![
                (owned("api_url"), opt_str_json(api_url)),
                (owned("identity"), reply),
                (owned("password_stored"), Json::Bool(stored)),
            ];
            proof {
                lemma_members_model(ms@);
                assert(members_model(ms@) =~= seq![("api_url"@, opt_str_model(opt_str(api_url))),
                    ("identity"@, json_model(reply)), ("password_stored"@, JsonModel::Bool(stored))]);
            }
            Step::Emit(object_of(ms))
        },
        Pending::AttachmentUpload(c, args) => match member_u64(&reply, "project") {
            None => Step::Fail(AppError::Usage(owned("resource lacks project"))),
            Some(project) => {
                let path = concat(c, "/attachments");
                let form = add_form_parts(args, project);
                call(client.multipart(HttpMethod::Post, path.as_str(), form), Decode::Value, Pending::EmitResponse)
            },
        },
        Pending::Download(to) => {
            let name = member_str(&reply, "name");
            let url = member_str(&reply, "url");
            match (name, url) {
                (Some(name), Some(url)) => {
                    let file = file_name_of(name.as_str());
                    if file.as_str().is_empty() {
                        return Step::Fail(AppError::Usage(owned("attachment lacks a file name or URL")));
                    }
                    let dir = concat(to.as_str(), "/");
                    let path = concat(dir.as_str(), file.as_str());
                    proof {
                        assert(path@ == download_path(to@, name@));
                    }
                    Step::Fetch(Fetch { request: media_request(url), path })
                },
                _ => Step::Fail(AppError::Usage(owned("attachment lacks a file name or URL"))),
            }
        },
    }
}

} // verus!
