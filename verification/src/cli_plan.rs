//! The pure pieces of the command-line interface: pagination and API URL
//! choice, list filters, request bodies and token bookkeeping.
use vstd::prelude::*;

use crate::cli_args::{AppError, AppErrorView, BodyArgs, Config, ConfigView, DataArg, EditArgs, ListArgs};
use crate::client::{opt_str, pairs_view, AuthSession, PaginationMode, TokenPair};
use crate::json::{
    get_member, json_clone, json_model, lemma_member_after_set, lemma_members_model, member_of, members_model,
    object_set, set_member, Json, JsonModel,
    JsonNumber, NumberModel,
};
use crate::text::{
    char_is_whitespace, chars_of, concat, decimal, is_whitespace, owned, str_eq, string_of, u64_to_string,
};

verus! {

/// The API URL used when none is given or saved.
pub open spec fn default_api_url() -> Seq<char> {
    "https://api.taiga.io/api/v1"@
}

pub open spec fn page_usage_message() -> Seq<char> {
    "--page must be positive"@
}

/// The pagination of a command: page 1 unless `--page` is given, which
/// must be positive.
pub open spec fn pagination_spec(page: Option<u32>) -> Result<PaginationMode, AppErrorView> {
    match page {
        Some(0) => Err(AppErrorView::Usage(page_usage_message())),
        Some(n) => Ok(PaginationMode::Page(n)),
        None => Ok(PaginationMode::Page(1)),
    }
}

/// The model of an outcome that may fail with an [`AppError`].
pub open spec fn app_outcome<T>(r: Result<T, AppError>) -> Result<T, AppErrorView> {
    match r {
        Ok(v) => Ok(v),
        Err(e) => Err(e@),
    }
}

/// The pagination of a command.
pub fn pagination(page: Option<u32>) -> (r: Result<PaginationMode, AppError>)
    ensures
        app_outcome(r) == pagination_spec(page),
{
    match page {
        Some(0) => Err(AppError::Usage(owned("--page must be positive"))),
        Some(n) => Ok(PaginationMode::Page(n)),
        None => Ok(PaginationMode::Page(1)),
    }
}

/// The API URL: the command line first, then `TAIGA_API_URL`, then the
/// saved configuration, then Taiga.io.
pub open spec fn api_url_spec(cli_url: Option<Seq<char>>, env_url: Option<Seq<char>>, config: ConfigView) -> Seq<char> {
    match cli_url {
        Some(u) => u,
        None => match env_url {
            Some(u) => u,
            None => match config.api_url {
                Some(u) => u,
                None => default_api_url(),
            },
        },
    }
}

/// Chooses the API URL.
pub fn api_url(cli_url: Option<String>, env_url: Option<String>, config: &Config) -> (u: String)
    ensures
        u@ == api_url_spec(opt_str(cli_url), opt_str(env_url), config@),
{
    match cli_url {
        Some(u) => u,
        None => match env_url {
            Some(u) => u,
            None => match &config.api_url {
                Some(u) => u.clone(),
                None => owned("https://api.taiga.io/api/v1"),
            },
        },
    }
}

/// A query parameter for an optional number.
pub open spec fn opt_param(key: Seq<char>, value: Option<u64>) -> Seq<(Seq<char>, Seq<char>)> {
    match value {
        Some(n) => seq![(key, decimal(n as nat))],
        None => Seq::empty(),
    }
}

/// `true` or `false`.
pub open spec fn bool_text(b: bool) -> Seq<char> {
    if b {
        "true"@
    } else {
        "false"@
    }
}

/// Texts joined with commas.
pub open spec fn join_commas(s: Seq<Seq<char>>) -> Seq<char>
    decreases s.len(),
{
    if s.len() == 0 {
        Seq::empty()
    } else if s.len() == 1 {
        s[0]
    } else {
        join_commas(s.drop_last()) + ","@ + s.last()
    }
}

/// The characters of each string.
pub open spec fn strings_view(s: Seq<String>) -> Seq<Seq<char>> {
    s.map_values(|t: String| t@)
}

/// The filter that `--closed` sets: milestones are filtered by their own
/// `closed` flag, everything else by the closed flag of its status.
pub open spec fn closed_key(collection: Seq<char>) -> Seq<char> {
    if collection == "milestones"@ {
        "closed"@
    } else {
        "status__is_closed"@
    }
}

/// The query of a `list` command on `collection`: project, status,
/// assignee and milestone filters, then the closed filter, then the tags
/// joined with commas.
pub open spec fn query_spec(collection: Seq<char>, args: ListArgs) -> Seq<(Seq<char>, Seq<char>)> {
    opt_param("project"@, args.project) + opt_param("status"@, args.status)
        + opt_param("assigned_to"@, args.assigned_to) + opt_param("milestone"@, args.milestone)
        + match args.closed {
            Some(b) => seq![(closed_key(collection), bool_text(b))],
            None => Seq::empty(),
        }
        + if args.tag@.len() > 0 {
            seq![("tags"@, join_commas(strings_view(args.tag@)))]
        } else {
            Seq::empty()
        }
}

/// The keys that a `list` query can hold.
pub open spec fn list_query_key(collection: Seq<char>, key: Seq<char>) -> bool {
    ||| key == "project"@
    ||| key == "status"@
    ||| key == "assigned_to"@
    ||| key == "milestone"@
    ||| key == closed_key(collection)
    ||| key == "tags"@
}

proof fn lemma_query_keys(collection: Seq<char>, args: ListArgs)
    ensures
        forall|i: int| 0 <= i < query_spec(collection, args).len()
            ==> list_query_key(collection, #[trigger] query_spec(collection, args)[i].0),
{
    let a = opt_param("project"@, args.project);
    let b = opt_param("status"@, args.status);
    let c = opt_param("assigned_to"@, args.assigned_to);
    let d = opt_param("milestone"@, args.milestone);
    let e: Seq<(Seq<char>, Seq<char>)> = match args.closed {
        Some(x) => seq![(closed_key(collection), bool_text(x))],
        None => Seq::empty(),
    };
    let f: Seq<(Seq<char>, Seq<char>)> = if args.tag@.len() > 0 {
        seq![("tags"@, join_commas(strings_view(args.tag@)))]
    } else {
        Seq::empty()
    };
    let q = query_spec(collection, args);
    assert(q == a + b + c + d + e + f);
    assert forall|i: int| 0 <= i < q.len() implies list_query_key(collection, #[trigger] q[i].0) by {
        let ab = a + b;
        let abc = ab + c;
        let abcd = abc + d;
        let abcde = abcd + e;
        if i < a.len() {
            assert(q[i] == a[i]);
        } else if i < ab.len() {
            assert(q[i] == b[i - a.len()]);
        } else if i < abc.len() {
            assert(q[i] == c[i - ab.len()]);
        } else if i < abcd.len() {
            assert(q[i] == d[i - abc.len()]);
        } else if i < abcde.len() {
            assert(q[i] == e[i - abcd.len()]);
        } else {
            assert(q[i] == f[i - abcde.len()]);
        }
    }
}

/// The numeric filters of a `list` query, `project`, `status`,
/// `assigned_to` and `milestone`, each come from their own option: when the
/// option is given as `n`, the query holds the pair `(key, n)`, and every
/// pair of the query with that key holds the value of that option.
pub proof fn lemma_list_filters_come_from_their_options(collection: Seq<char>, args: ListArgs)
    ensures
        args.project matches Some(n) ==> query_spec(collection, args).contains(("project"@, decimal(n as nat))),
        args.status matches Some(n) ==> query_spec(collection, args).contains(("status"@, decimal(n as nat))),
        args.assigned_to matches Some(n) ==> query_spec(collection, args).contains(("assigned_to"@, decimal(n as nat))),
        args.milestone matches Some(n) ==> query_spec(collection, args).contains(("milestone"@, decimal(n as nat))),
        forall|i: int| 0 <= i < query_spec(collection, args).len() && (#[trigger] query_spec(collection, args)[i]).0 == "project"@
            ==> args.project is Some && query_spec(collection, args)[i].1 == decimal(args.project->0 as nat),
        forall|i: int| 0 <= i < query_spec(collection, args).len() && (#[trigger] query_spec(collection, args)[i]).0 == "status"@
            ==> args.status is Some && query_spec(collection, args)[i].1 == decimal(args.status->0 as nat),
        forall|i: int| 0 <= i < query_spec(collection, args).len() && (#[trigger] query_spec(collection, args)[i]).0 == "assigned_to"@
            ==> args.assigned_to is Some && query_spec(collection, args)[i].1 == decimal(args.assigned_to->0 as nat),
        forall|i: int| 0 <= i < query_spec(collection, args).len() && (#[trigger] query_spec(collection, args)[i]).0 == "milestone"@
            ==> args.milestone is Some && query_spec(collection, args)[i].1 == decimal(args.milestone->0 as nat),
{
    reveal_strlit("project");
    reveal_strlit("status");
    reveal_strlit("assigned_to");
    reveal_strlit("milestone");
    reveal_strlit("closed");
    reveal_strlit("tags");
    reveal_strlit("status__is_closed");
    assert("status"@[0] != "closed"@[0]);
    assert("project"@.len() == 7 && "status"@.len() == 6 && "assigned_to"@.len() == 11 && "milestone"@.len() == 9);
    assert("closed"@.len() == 6 && "status__is_closed"@.len() == 17 && "tags"@.len() == 4);
    assert(closed_key(collection) != "project"@ && closed_key(collection) != "status"@
        && closed_key(collection) != "assigned_to"@ && closed_key(collection) != "milestone"@);
    assert("tags"@ != "project"@ && "tags"@ != "status"@ && "tags"@ != "assigned_to"@ && "tags"@ != "milestone"@);
    assert("project"@ != "status"@ && "project"@ != "assigned_to"@ && "project"@ != "milestone"@);
    assert("status"@ != "assigned_to"@ && "status"@ != "milestone"@ && "assigned_to"@ != "milestone"@);
    let pa = opt_param("project"@, args.project);
    let pb = opt_param("status"@, args.status);
    let pc = opt_param("assigned_to"@, args.assigned_to);
    let pd = opt_param("milestone"@, args.milestone);
    let pe: Seq<(Seq<char>, Seq<char>)> = match args.closed {
        Some(x) => seq![(closed_key(collection), bool_text(x))],
        None => Seq::empty(),
    };
    let pf: Seq<(Seq<char>, Seq<char>)> = if args.tag@.len() > 0 {
        seq![("tags"@, join_commas(strings_view(args.tag@)))]
    } else {
        Seq::empty()
    };
    let q = query_spec(collection, args);
    let ab = pa + pb;
    let abc = ab + pc;
    let abcd = abc + pd;
    let abcde = abcd + pe;
    assert(q == abcde + pf);
    if args.project is Some {
        assert(q[0] == pa[0]);
    }
    if args.status is Some {
        assert(q[pa.len() as int] == pb[0]);
    }
    if args.assigned_to is Some {
        assert(q[ab.len() as int] == pc[0]);
    }
    if args.milestone is Some {
        assert(q[abc.len() as int] == pd[0]);
    }
    assert forall|i: int| 0 <= i < q.len() implies
        ((#[trigger] q[i]).0 == "project"@ ==> args.project is Some && q[i].1 == decimal(args.project->0 as nat))
        && (q[i].0 == "status"@ ==> args.status is Some && q[i].1 == decimal(args.status->0 as nat))
        && (q[i].0 == "assigned_to"@ ==> args.assigned_to is Some && q[i].1 == decimal(args.assigned_to->0 as nat))
        && (q[i].0 == "milestone"@ ==> args.milestone is Some && q[i].1 == decimal(args.milestone->0 as nat)) by {
        if i < pa.len() {
            assert(q[i] == pa[i]);
        } else if i < ab.len() {
            assert(q[i] == pb[i - pa.len()]);
        } else if i < abc.len() {
            assert(q[i] == pc[i - ab.len()]);
        } else if i < abcd.len() {
            assert(q[i] == pd[i - abc.len()]);
        } else if i < abcde.len() {
            assert(q[i] == pe[i - abcd.len()]);
        } else {
            assert(q[i] == pf[i - abcde.len()]);
        }
    }
}

/// `--closed` filters milestones by their own `closed` flag and never by
/// `status__is_closed`; every other collection is filtered by the closed
/// flag of the status.
pub proof fn lemma_closed_filter(collection: Seq<char>, args: ListArgs)
    ensures
        args.closed matches Some(b) ==> query_spec(collection, args).contains((closed_key(collection), bool_text(b))),
        collection == "milestones"@ ==> forall|i: int| 0 <= i < query_spec(collection, args).len()
            ==> (#[trigger] query_spec(collection, args)[i]).0 != "status__is_closed"@,
        collection != "milestones"@ ==> closed_key(collection) == "status__is_closed"@,
{
    let q = query_spec(collection, args);
    let pre = opt_param("project"@, args.project) + opt_param("status"@, args.status)
        + opt_param("assigned_to"@, args.assigned_to) + opt_param("milestone"@, args.milestone);
    if let Some(b) = args.closed {
        let f: Seq<(Seq<char>, Seq<char>)> = if args.tag@.len() > 0 {
            seq![("tags"@, join_commas(strings_view(args.tag@)))]
        } else {
            Seq::empty()
        };
        assert(q == pre + seq![(closed_key(collection), bool_text(b))] + f);
        assert(q[pre.len() as int] == (closed_key(collection), bool_text(b)));
    }
    lemma_query_keys(collection, args);
    if collection == "milestones"@ {
        reveal_strlit("project");
        reveal_strlit("status");
        reveal_strlit("assigned_to");
        reveal_strlit("milestone");
        reveal_strlit("closed");
        reveal_strlit("tags");
        reveal_strlit("status__is_closed");
        reveal_strlit("milestones");
        assert forall|i: int| 0 <= i < q.len() implies (#[trigger] q[i]).0 != "status__is_closed"@ by {
            assert(list_query_key(collection, q[i].0));
            assert(q[i].0.len() != "status__is_closed"@.len());
        }
    }
}

fn push_param(q: &mut Vec<(String, String)>, key: &str, value: String)
    ensures
        pairs_view(final(q)@) == pairs_view(old(q)@) + seq![(key@, value@)],
{
    let p = (owned(key), value);
    q.push(p);
    assert(pairs_view(q@) =~= pairs_view(old(q)@) + seq![(key@, value@)]);
}

fn push_opt_param(q: &mut Vec<(String, String)>, key: &str, value: Option<u64>)
    ensures
        pairs_view(final(q)@) == pairs_view(old(q)@) + opt_param(key@, value),
{
    match value {
        Some(n) => push_param(q, key, u64_to_string(n)),
        None => {
            assert(pairs_view(q@) =~= pairs_view(q@) + Seq::<(Seq<char>, Seq<char>)>::empty());
        },
    }
}

/// Joins texts with commas (`join(",")`).
pub fn join_with_commas(parts: &Vec<String>) -> (r: String)
    ensures
        r@ == join_commas(strings_view(parts@)),
{
    let mut r = String::new();
    assert(strings_view(parts@.take(0)) =~= Seq::empty());
    let mut i: usize = 0;
    while i < parts.len()
        invariant
            i <= parts.len(),
            r@ == join_commas(strings_view(parts@.take(i as int))),
        decreases parts.len() - i,
    {
        let ghost before = strings_view(parts@.take(i as int));
        assert(strings_view(parts@.take(i + 1)).drop_last() =~= before);
        if i == 0 {
            r = parts[i].clone();
            assert(strings_view(parts@.take(1)) =~= seq![parts@[0]@]);
        } else {
            let with_comma = concat(r.as_str(), ",");
            r = concat(with_comma.as_str(), parts[i].as_str());
        }
        i = i + 1;
    }
    assert(parts@.take(parts.len() as int) =~= parts@);
    r
}

/// The query of a `list` command on `collection`.
pub fn query(collection: &str, args: &ListArgs) -> (q: Vec<(String, String)>)
    ensures
        pairs_view(q@) == query_spec(collection@, *args),
{
    let mut q: Vec<(String, String)> = Vec::new();
    push_opt_param(&mut q, "project", args.project);
    push_opt_param(&mut q, "status", args.status);
    push_opt_param(&mut q, "assigned_to", args.assigned_to);
    push_opt_param(&mut q, "milestone", args.milestone);
    let ghost before_closed = pairs_view(q@);
    match args.closed {
        Some(b) => {
            let key = if crate::text::str_eq(collection, "milestones") { "closed" } else { "status__is_closed" };
            let text = if b { owned("true") } else { owned("false") };
            push_param(&mut q, key, text);
        },
        None => {},
    }
    let ghost before_tags = pairs_view(q@);
    if args.tag.len() > 0 {
        push_param(&mut q, "tags", join_with_commas(&args.tag));
    }
    assert(pairs_view(q@) =~= query_spec(collection@, *args));
    q
}

/// A JSON number for an unsigned integer.
pub open spec fn num_model(n: u64) -> JsonModel {
    JsonModel::Number(NumberModel::PosInt(n))
}

pub fn json_u64(n: u64) -> (j: Json)
    ensures
        json_model(j) == num_model(n),
{
    Json::Number(JsonNumber::PosInt(n))
}

/// Sets `key` when a string value is given.
pub open spec fn set_opt_str(ms: Seq<(Seq<char>, JsonModel)>, key: Seq<char>, v: Option<String>) -> Seq<(Seq<char>, JsonModel)> {
    match v {
        Some(s) => set_member(ms, key, JsonModel::Str(s@)),
        None => ms,
    }
}

/// Sets `key` when a number is given.
pub open spec fn set_opt_num(ms: Seq<(Seq<char>, JsonModel)>, key: Seq<char>, v: Option<u64>) -> Seq<(Seq<char>, JsonModel)> {
    match v {
        Some(n) => set_member(ms, key, num_model(n)),
        None => ms,
    }
}

pub open spec fn data_object_message() -> Seq<char> {
    "--data must be a JSON object"@
}

pub open spec fn edit_fields_message() -> Seq<char> {
    "edit needs at least one field"@
}

/// The members that `--data` starts a body with, or the error.
pub open spec fn data_members(data: Option<DataArg>) -> Result<Seq<(Seq<char>, JsonModel)>, AppErrorView> {
    match data {
        Some(DataArg::Invalid(m)) => Err(AppErrorView::Json(m@)),
        Some(DataArg::Parsed(j)) => match json_model(j) {
            JsonModel::Object(ms) => Ok(ms),
            _ => Err(AppErrorView::Usage(data_object_message())),
        },
        None => Ok(Seq::empty()),
    }
}

/// The body of a `create` command: the `--data` object with the project,
/// subject, description and status options set over it.
pub open spec fn body_spec(args: BodyArgs) -> Result<JsonModel, AppErrorView> {
    match data_members(args.data) {
        Err(e) => Err(e),
        Ok(ms) => Ok(JsonModel::Object(
            set_opt_num(set_opt_str(set_opt_str(set_opt_num(ms, "project"@, args.project), "subject"@, args.subject),
                "description"@, args.description), "status"@, args.status),
        )),
    }
}

/// The body of an `edit` command: the `--data` object with the subject,
/// description and status options set over it, which must not be empty,
/// and the version read before the edit.
pub open spec fn edit_body_spec(args: EditArgs, version: u64) -> Result<JsonModel, AppErrorView> {
    match data_members(args.data) {
        Err(e) => Err(e),
        Ok(ms) => {
            let fields = set_opt_num(set_opt_str(set_opt_str(ms, "subject"@, args.subject), "description"@,
                args.description), "status"@, args.status);
            if fields.len() == 0 {
                Err(AppErrorView::Usage(edit_fields_message()))
            } else {
                Ok(JsonModel::Object(set_member(fields, "version"@, num_model(version))))
            }
        },
    }
}

/// The distinct member names of create and edit bodies.
proof fn lemma_body_keys_differ()
    ensures
        "project"@ != "subject"@, "project"@ != "description"@, "project"@ != "status"@,
        "subject"@ != "description"@, "subject"@ != "status"@, "description"@ != "status"@,
        "version"@ != "subject"@, "version"@ != "description"@, "version"@ != "status"@,
{
    reveal_strlit("project");
    reveal_strlit("subject");
    reveal_strlit("description");
    reveal_strlit("status");
    reveal_strlit("version");
    assert("project"@[0] != "subject"@[0]);
    assert("version"@[0] != "subject"@[0]);
    assert("project"@.len() != "description"@.len() && "project"@.len() != "status"@.len());
    assert("subject"@.len() != "description"@.len() && "subject"@.len() != "status"@.len());
    assert("description"@.len() != "status"@.len());
    assert("version"@.len() != "description"@.len() && "version"@.len() != "status"@.len());
}

/// The body of a `create` command is built whenever no `--data` is given,
/// and it is always an object that holds each given option as its member:
/// `project` and `status` as numbers, `subject` and `description` as text.
pub proof fn lemma_create_body_holds_the_options(args: BodyArgs)
    ensures
        args.data is None ==> body_spec(args) is Ok,
        body_spec(args) is Ok ==> ({
            let b = body_spec(args)->Ok_0;
            &&& b is Object
            &&& args.project is Some ==> get_member(b, "project"@) == Some(num_model(args.project->0))
            &&& args.subject is Some ==> get_member(b, "subject"@) == Some(JsonModel::Str(args.subject->0@))
            &&& args.description is Some ==> get_member(b, "description"@) == Some(JsonModel::Str(args.description->0@))
            &&& args.status is Some ==> get_member(b, "status"@) == Some(num_model(args.status->0))
        }),
{
    lemma_body_keys_differ();
    if let Ok(ms) = data_members(args.data) {
        let m1 = set_opt_num(ms, "project"@, args.project);
        let m2 = set_opt_str(m1, "subject"@, args.subject);
        let m3 = set_opt_str(m2, "description"@, args.description);
        let m4 = set_opt_num(m3, "status"@, args.status);
        assert(body_spec(args) == Ok::<JsonModel, AppErrorView>(JsonModel::Object(m4)));
        if let Some(p) = args.project {
            lemma_member_after_set(ms, "project"@, num_model(p), "project"@);
        }
        if let Some(t) = args.subject {
            lemma_member_after_set(m1, "subject"@, JsonModel::Str(t@), "project"@);
            lemma_member_after_set(m1, "subject"@, JsonModel::Str(t@), "subject"@);
        }
        if let Some(d) = args.description {
            lemma_member_after_set(m2, "description"@, JsonModel::Str(d@), "project"@);
            lemma_member_after_set(m2, "description"@, JsonModel::Str(d@), "subject"@);
            lemma_member_after_set(m2, "description"@, JsonModel::Str(d@), "description"@);
        }
        if let Some(n) = args.status {
            lemma_member_after_set(m3, "status"@, num_model(n), "project"@);
            lemma_member_after_set(m3, "status"@, num_model(n), "subject"@);
            lemma_member_after_set(m3, "status"@, num_model(n), "description"@);
            lemma_member_after_set(m3, "status"@, num_model(n), "status"@);
        }
    }
}

/// Every body that an `edit` sends is an object whose member `version` is
/// the version read before the edit, and which holds each given option as
/// its member. Without `--data`, a body is built whenever some option is
/// given.
pub proof fn lemma_edit_body_carries_the_version(args: EditArgs, version: u64)
    ensures
        args.data is None && (args.subject is Some || args.description is Some || args.status is Some)
            ==> edit_body_spec(args, version) is Ok,
        edit_body_spec(args, version) is Ok ==> ({
            let b = edit_body_spec(args, version)->Ok_0;
            &&& b is Object
            &&& get_member(b, "version"@) == Some(num_model(version))
            &&& args.subject is Some ==> get_member(b, "subject"@) == Some(JsonModel::Str(args.subject->0@))
            &&& args.description is Some ==> get_member(b, "description"@) == Some(JsonModel::Str(args.description->0@))
            &&& args.status is Some ==> get_member(b, "status"@) == Some(num_model(args.status->0))
        }),
{
    lemma_body_keys_differ();
    if let Ok(ms) = data_members(args.data) {
        let m2 = set_opt_str(ms, "subject"@, args.subject);
        let m3 = set_opt_str(m2, "description"@, args.description);
        let m4 = set_opt_num(m3, "status"@, args.status);
        let v = num_model(version);
        lemma_member_after_set(m4, "version"@, v, "version"@);
        lemma_member_after_set(m4, "version"@, v, "subject"@);
        lemma_member_after_set(m4, "version"@, v, "description"@);
        lemma_member_after_set(m4, "version"@, v, "status"@);
        if let Some(t) = args.subject {
            lemma_member_after_set(ms, "subject"@, JsonModel::Str(t@), "subject"@);
        }
        if let Some(d) = args.description {
            lemma_member_after_set(m2, "description"@, JsonModel::Str(d@), "subject"@);
            lemma_member_after_set(m2, "description"@, JsonModel::Str(d@), "description"@);
        }
        if let Some(n) = args.status {
            lemma_member_after_set(m3, "status"@, num_model(n), "subject"@);
            lemma_member_after_set(m3, "status"@, num_model(n), "description"@);
            lemma_member_after_set(m3, "status"@, num_model(n), "status"@);
            assert(member_of(m4, "status"@) is Some);
        }
        if args.description is Some {
            assert(member_of(m3, "description"@) is Some);
        }
        if args.subject is Some {
            assert(member_of(m2, "subject"@) is Some);
        }
        if m4.len() == 0 {
            assert(member_of(m4, "subject"@) is None);
            assert(member_of(m4, "description"@) is None);
            assert(member_of(m4, "status"@) is None);
        }
    }
}

pub open spec fn json_outcome(r: Result<Json, AppError>) -> Result<JsonModel, AppErrorView> {
    match r {
        Ok(j) => Ok(json_model(j)),
        Err(e) => Err(e@),
    }
}

fn start_members(data: &Option<DataArg>) -> (r: Result<Vec<(String, Json)>, AppError>)
    ensures
        match r {
            Ok(ms) => data_members(*data) == Ok::<_, AppErrorView>(crate::json::members_model(ms@)),
            Err(e) => data_members(*data) == Err::<Seq<(Seq<char>, JsonModel)>, _>(e@),
        },
{
    match data {
        Some(DataArg::Invalid(m)) => Err(AppError::Json(m.clone())),
        Some(DataArg::Parsed(j)) => match json_clone(j) {
            Json::Object(ms) => Ok(ms),
            _ => Err(AppError::Usage(owned("--data must be a JSON object"))),
        },
        None => {
            let ms: Vec<(String, Json)> = Vec::new();
            assert(crate::json::members_model(ms@) =~= Seq::empty());
            Ok(ms)
        },
    }
}

fn set_str_field(ms: &mut Vec<(String, Json)>, key: &str, v: &Option<String>)
    ensures
        crate::json::members_model(final(ms)@) == set_opt_str(crate::json::members_model(old(ms)@), key@, *v),
{
    match v {
        Some(s) => object_set(ms, key, Json::Str(s.clone())),
        None => {},
    }
}

fn set_num_field(ms: &mut Vec<(String, Json)>, key: &str, v: Option<u64>)
    ensures
        crate::json::members_model(final(ms)@) == set_opt_num(crate::json::members_model(old(ms)@), key@, v),
{
    match v {
        Some(n) => object_set(ms, key, json_u64(n)),
        None => {},
    }
}

/// The body of a `create` command.
pub fn body(args: &BodyArgs) -> (r: Result<Json, AppError>)
    ensures
        json_outcome(r) == body_spec(*args),
{
    let mut ms = match start_members(&args.data) {
        Ok(ms) => ms,
        Err(e) => return Err(e),
    };
    set_num_field(&mut ms, "project", args.project);
    set_str_field(&mut ms, "subject", &args.subject);
    set_str_field(&mut ms, "description", &args.description);
    set_num_field(&mut ms, "status", args.status);
    Ok(Json::Object(ms))
}

/// The body of an `edit` command, given the current version of the resource.
pub fn edit_body(args: &EditArgs, version: u64) -> (r: Result<Json, AppError>)
    ensures
        json_outcome(r) == edit_body_spec(*args, version),
{
    let mut ms = match start_members(&args.data) {
        Ok(ms) => ms,
        Err(e) => return Err(e),
    };
    set_str_field(&mut ms, "subject", &args.subject);
    set_str_field(&mut ms, "description", &args.description);
    set_num_field(&mut ms, "status", args.status);
    proof { crate::json::lemma_members_model(ms@); }
    if ms.len() == 0 {
        return Err(AppError::Usage(owned("edit needs at least one field")));
    }
    object_set(&mut ms, "version", json_u64(version));
    Ok(Json::Object(ms))
}

/// Saves a new token pair in the configuration.
pub fn set_tokens(config: &mut Config, tokens: &TokenPair)
    ensures
        final(config)@ == (ConfigView {
            auth_token: Some(tokens.auth_token@),
            refresh_token: Some(tokens.refresh@),
            ..old(config)@
        }),
{
    config.auth_token = Some(tokens.auth_token.clone());
    config.refresh_token = Some(tokens.refresh.clone());
}

/// The message of a login without a user name.
pub open spec fn username_message() -> Seq<char> {
    "username required via --username or TAIGA_USERNAME"@
}

/// The user name of `auth login` (`--username` or `TAIGA_USERNAME`).
pub fn login_username(username: Option<String>) -> (r: Result<String, AppError>)
    ensures
        match username {
            Some(u) => r matches Ok(v) && v@ == u@,
            None => r matches Err(AppError::Config(m)) && m@ == username_message(),
        },
{
    match username {
        Some(u) => Ok(u),
        None => Err(AppError::Config(owned("username required via --username or TAIGA_USERNAME"))),
    }
}

/// A text without its trailing white space (std's `trim_end`).
pub open spec fn trim_end_whitespace(s: Seq<char>) -> Seq<char>
    decreases s.len(),
{
    if s.len() > 0 && is_whitespace(s.last()) {
        trim_end_whitespace(s.drop_last())
    } else {
        s
    }
}

/// The password read from standard input: the text without its trailing
/// white space (the line feed that ends it, above all).
pub fn stdin_password(text: &str) -> (p: String)
    ensures
        p@ == trim_end_whitespace(text@),
{
    let v = chars_of(text);
    let mut n: usize = v.len();
    proof {
        assert(v@.take(n as int) =~= v@);
    }
    while n > 0 && char_is_whitespace(v[n - 1])
        invariant
            v@ == text@,
            n <= v@.len(),
            trim_end_whitespace(text@) == trim_end_whitespace(v@.take(n as int)),
        decreases n,
    {
        proof {
            assert(v@.take(n as int).drop_last() =~= v@.take(n - 1));
        }
        n = n - 1;
    }
    let mut out: Vec<char> = Vec::new();
    let mut i: usize = 0;
    while i < n
        invariant
            v@ == text@,
            n <= v@.len(),
            i <= n,
            out@ == v@.take(i as int),
        decreases n - i,
    {
        out.push(v[i]);
        proof {
            assert(out@ =~= v@.take(i + 1));
        }
        i = i + 1;
    }
    string_of(&out)
}

/// Whether `auth login` keeps the password for silent re-login: with
/// `--remember`, or when the password of the same account at the same
/// server is kept already (a later login keeps it up to date).
pub open spec fn keeps_password_spec(cfg: ConfigView, api_url: Seq<char>, username: Seq<char>, remember: bool) -> bool {
    remember || (cfg.remember_password && cfg.username == Some(username) && cfg.api_url == Some(api_url))
}

/// Whether `auth login` keeps the password (see [`keeps_password_spec`]).
pub fn keeps_password(config: &Config, api_url: &str, username: &str, remember: bool) -> (r: bool)
    ensures
        r == keeps_password_spec(config@, api_url@, username@, remember),
{
    if remember {
        return true;
    }
    if !config.remember_password {
        return false;
    }
    let same_user = match &config.username {
        Some(u) => str_eq(u.as_str(), username),
        None => false,
    };
    let same_server = match &config.api_url {
        Some(a) => str_eq(a.as_str(), api_url),
        None => false,
    };
    same_user && same_server
}

/// Records a login in the configuration: the server, the new token pair,
/// the account, and whether its password is kept.
pub fn record_login(config: &mut Config, api_url: String, username: String, tokens: &TokenPair, password_kept: bool)
    ensures
        final(config)@ == (ConfigView {
            api_url: Some(api_url@),
            auth_token: Some(tokens.auth_token@),
            refresh_token: Some(tokens.refresh@),
            username: Some(username@),
            remember_password: password_kept,
        }),
{
    config.api_url = Some(api_url);
    set_tokens(config, tokens);
    config.username = Some(username);
    config.remember_password = password_kept;
}

/// Records a logout: the server stays; the tokens and the account are
/// dropped, and no password is kept.
pub fn record_logout(config: &mut Config)
    ensures
        final(config)@ == (ConfigView {
            api_url: old(config)@.api_url,
            auth_token: None,
            refresh_token: None,
            username: None,
            remember_password: false,
        }),
{
    config.auth_token = None;
    config.refresh_token = None;
    config.username = None;
    config.remember_password = false;
}

/// Records that the password is no longer kept; the session stays.
pub fn record_forget(config: &mut Config)
    ensures
        final(config)@ == (ConfigView { remember_password: false, ..old(config)@ }),
{
    config.remember_password = false;
}

/// What `auth login` prints: the account's id and name as the server gave
/// them, the server, and whether the password is kept.
pub open spec fn login_output_model(id: Option<u64>, username: Option<Seq<char>>, api_url: Seq<char>, stored: bool) -> JsonModel {
    JsonModel::Object(seq![
        ("id"@, match id { Some(n) => num_model(n), None => JsonModel::Null }),
        ("username"@, match username { Some(u) => JsonModel::Str(u), None => JsonModel::Null }),
        ("api_url"@, JsonModel::Str(api_url)),
        ("password_stored"@, JsonModel::Bool(stored)),
    ])
}

/// What `auth login` prints.
pub fn login_output(session: &AuthSession, api_url: &str, password_stored: bool) -> (j: Json)
    ensures
        json_model(j) == login_output_model(match session.id { Some(i) => Some(i.0), None => None },
            opt_str(session.username), api_url@, password_stored),
{
    let ghost opt_id: Option<u64> = match session.id { Some(i) => Some(i.0), None => None };
    let id = match session.id {
        Some(i) => json_u64(i.0),
        None => Json::Null,
    };
    assert(json_model(id) == match opt_id { Some(n) => num_model(n), None => JsonModel::Null });
    let name = match &session.username {
        Some(u) => Json::Str(u.clone()),
        None => Json::Null,
    };
    assert(json_model(name) == match opt_str(session.username) { Some(u) => JsonModel::Str(u), None => JsonModel::Null });
    let url = Json::Str(owned(api_url));
    let ms = vec![
        (owned("id"), id),
        (owned("username"), name),
        (owned("api_url"), url),
        (owned("password_stored"), Json::Bool(password_stored)),
    ];
    proof {
        lemma_members_model(ms@);
        let expected = login_output_model(opt_id, opt_str(session.username), api_url@, password_stored);
        assert(members_model(ms@) =~= expected->Object_0);
    }
    Json::Object(ms)
}

/// The saved password that `auth logout` and `auth forget` delete: the
/// password of the saved account at the saved server, when both are known.
pub open spec fn password_to_forget_spec(cfg: ConfigView) -> Option<(Seq<char>, Seq<char>)> {
    match (cfg.api_url, cfg.username) {
        (Some(a), Some(u)) => Some((a, u)),
        _ => None,
    }
}

/// The server and account whose saved password `auth logout` and
/// `auth forget` delete (see [`password_to_forget_spec`]).
pub fn password_to_forget(config: &Config) -> (r: Option<(String, String)>)
    ensures
        match r {
            Some((a, u)) => password_to_forget_spec(config@) == Some((a@, u@)),
            None => password_to_forget_spec(config@) is None,
        },
{
    match (&config.api_url, &config.username) {
        (Some(a), Some(u)) => Some((a.clone(), u.clone())),
        _ => None,
    }
}

/// After `auth logout` or `auth forget`, no password is kept for the saved
/// account at the saved server, and the other kept passwords are as before.
pub proof fn lemma_logout_forgets_password(store: Map<Seq<char>, Seq<char>>, cfg: ConfigView, key: Seq<char>)
    requires
        password_to_forget_spec(cfg) is Some,
    ensures
        ({
            let (a, u) = password_to_forget_spec(cfg)->0;
            let after = store.remove(crate::session::file_key_spec(a, u));
            &&& !after.contains_key(crate::session::file_key_spec(a, u))
            &&& key != crate::session::file_key_spec(a, u) ==> (after.contains_key(key) == store.contains_key(key)
                && (store.contains_key(key) ==> after[key] == store[key]))
        }),
{
}

} // verus!
