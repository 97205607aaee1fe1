//! The request and response logic of the Conduit API client: id normalization,
//! the form fields of the task and user searches, decoding of search results,
//! and the all-or-nothing assembly of concurrently fetched subtask trees. The
//! HTTP transport that sends the forms is the caller's.

use vstd::prelude::*;
use vstd::string::*;
use crate::dto::{Task, TaskFamily, TaskView, User, UserView, task_of_json, task_views, user_of_json};
use crate::error::{ErrorType, error_text};
use crate::json::{Json, member, json_text, parsed_document};
use crate::text::{decimal, decimal_string, occurs_in};

verus! {

pub struct CertIdentityConfig {
    pub pkcs12_path: String,
    pub pkcs12_password: String,
}

pub struct PhabricatorClientConfig {
    pub host: String,
    pub api_token: String,
    pub cert_identity_config: Option<CertIdentityConfig>,
}

/// A client of one task-tracker host. The client certificate, when one is
/// configured, is for the transport that carries the requests.
pub struct PhabricatorClient {
    pub host: String,
    pub api_token: String,
    pub cert_identity_config: Option<CertIdentityConfig>,
    /// The bytes of the configured PKCS12 certificate file, once read.
    pub pkcs12_der: Option<Vec<u8>>,
}

/// A form: the fields of a form-encoded request, in order.
pub type Form = Vec<(String, String)>;

pub open spec fn form_view(f: Seq<(String, String)>) -> Seq<(Seq<char>, Seq<char>)> {
    f.map_values(|p: (String, String)| (p.0@, p.1@))
}

pub open spec fn str_views(v: Seq<&str>) -> Seq<Seq<char>> {
    v.map_values(|s: &str| s@)
}

/// An id with one leading `T` taken off, as in `T1234`.
pub open spec fn clean_id_spec(id: Seq<char>) -> Seq<char> {
    if id.len() > 0 && id[0] == 'T' {
        id.drop_first()
    } else {
        id
    }
}

pub open spec fn constraint_key(kind: Seq<char>, i: nat) -> Seq<char> {
    "constraints["@ + kind + "]["@ + decimal(i) + "]"@
}

/// One field `constraints[kind][i]` for each value, in order.
pub open spec fn indexed(kind: Seq<char>, values: Seq<Seq<char>>) -> Seq<(Seq<char>, Seq<char>)> {
    Seq::new(values.len(), |i: int| (constraint_key(kind, i as nat), values[i]))
}

pub open spec fn token_field(token: Seq<char>) -> Seq<(Seq<char>, Seq<char>)> {
    seq![("api.token"@, token)]
}

pub open spec fn search_options() -> Seq<(Seq<char>, Seq<char>)> {
    seq![("order"@, "oldest"@), ("attachments[columns]"@, "true"@), ("attachments[projects]"@, "true"@)]
}

pub open spec fn cleaned(ids: Seq<Seq<char>>) -> Seq<Seq<char>> {
    ids.map_values(|id: Seq<char>| clean_id_spec(id))
}

pub open spec fn users_form(token: Seq<char>, phids: Seq<Seq<char>>) -> Seq<(Seq<char>, Seq<char>)> {
    token_field(token) + indexed("phids"@, phids)
}

pub open spec fn tasks_form(token: Seq<char>, ids: Seq<Seq<char>>) -> Seq<(Seq<char>, Seq<char>)> {
    token_field(token) + search_options() + indexed("ids"@, cleaned(ids))
}

pub open spec fn children_form(token: Seq<char>, parent_ids: Seq<Seq<char>>) -> Seq<
    (Seq<char>, Seq<char>),
> {
    token_field(token) + indexed("parentIDs"@, cleaned(parent_ids)) + search_options()
}

/// `result.data` of a search response.
pub open spec fn result_data(body: Json) -> Json {
    member(member(body, "result"@), "data"@)
}

/// The tasks of a search's `result.data`, when it is an array of well-formed
/// task objects.
pub open spec fn tasks_of_data(data: Json) -> Option<Seq<TaskView>> {
    match data {
        Json::Array(items) => if forall|i: int|
            0 <= i < items@.len() ==> (#[trigger] task_of_json(items@[i])) is Some {
            Some(items@.map_values(|x: Json| task_of_json(x)->0))
        } else {
            None
        },
        _ => None,
    }
}

/// The users of a search's `result.data`, when it is an array of well-formed
/// user objects.
pub open spec fn users_of_data(data: Json) -> Option<Seq<UserView>> {
    match data {
        Json::Array(items) => if forall|i: int|
            0 <= i < items@.len() ==> (#[trigger] user_of_json(items@[i])) is Some {
            Some(items@.map_values(|x: Json| user_of_json(x)->0))
        } else {
            None
        },
        _ => None,
    }
}

pub open spec fn user_views(v: Seq<User>) -> Seq<UserView> {
    v.map_values(|u: User| u@)
}

/// The text of the error with which the subtree under `parent_id` fails when
/// fetching its children failed with `e`.
pub open spec fn branch_failure_text(parent_id: Seq<char>, e: ErrorType) -> Seq<char> {
    "Fetch sub tasks error: "@ + "Could not fetch sub tasks with parent id "@ + parent_id
        + ", err: "@ + error_text(e)
}

/// The failures among the outcomes of sibling subtrees, each on a line of its
/// own after a line break, in the siblings' order.
pub open spec fn failure_report(
    ids: Seq<Seq<char>>,
    outcomes: Seq<Result<Vec<TaskFamily>, ErrorType>>,
) -> Seq<char>
    decreases outcomes.len(),
{
    if outcomes.len() == 0 {
        seq![]
    } else {
        let prev = failure_report(ids.drop_last(), outcomes.drop_last());
        match outcomes.last() {
            Err(e) => prev + "\n"@ + branch_failure_text(ids.last(), e),
            Ok(_) => prev,
        }
    }
}

/// The text of the parse error that names `v`.
pub open spec fn cannot_parse_text(v: Json) -> Seq<char> {
    "Cannot parse "@ + json_text(v)
}

pub open spec fn is_parse_error(e: ErrorType, text: Seq<char>) -> bool {
    match e {
        ErrorType::ParseError { message } => message@ == text,
        _ => false,
    }
}

/// The index of the first item from `i` on that is not a well-formed task;
/// the length when there is none.
pub open spec fn first_bad_task(items: Seq<Json>, i: int) -> int
    decreases items.len() - i,
{
    if i < 0 || i >= items.len() {
        items.len() as int
    } else if task_of_json(items[i]) is None {
        i
    } else {
        first_bad_task(items, i + 1)
    }
}

pub open spec fn first_bad_user(items: Seq<Json>, i: int) -> int
    decreases items.len() - i,
{
    if i < 0 || i >= items.len() {
        items.len() as int
    } else if user_of_json(items[i]) is None {
        i
    } else {
        first_bad_user(items, i + 1)
    }
}

/// The text of the parse error of a task search whose items cannot all be
/// read: it names the first bad item, or the whole body when `result.data`
/// is not an array.
pub open spec fn tasks_error_text(body: Json) -> Seq<char> {
    match result_data(body) {
        Json::Array(items) => cannot_parse_text(items@[first_bad_task(items@, 0)]),
        _ => cannot_parse_text(body),
    }
}

pub open spec fn users_error_text(body: Json) -> Seq<char> {
    match result_data(body) {
        Json::Array(items) => cannot_parse_text(items@[first_bad_user(items@, 0)]),
        _ => cannot_parse_text(body),
    }
}

/// The outcome of decoding the tasks of a search response body.
pub open spec fn tasks_outcome(body: Json, r: Result<Vec<Task>, ErrorType>) -> bool {
    match r {
        Ok(ts) => tasks_of_data(result_data(body)) == Some(task_views(ts@)),
        Err(e) => tasks_of_data(result_data(body)) is None && is_parse_error(e, tasks_error_text(body)),
    }
}

pub open spec fn users_outcome(body: Json, r: Result<Vec<User>, ErrorType>) -> bool {
    match r {
        Ok(us) => users_of_data(result_data(body)) == Some(user_views(us@)),
        Err(e) => users_of_data(result_data(body)) is None && is_parse_error(e, users_error_text(body)),
    }
}

/// The outcome of decoding the first task of a search response body: the
/// plural decoding's error unchanged, else its first task or none.
pub open spec fn first_task_outcome(body: Json, r: Result<Option<Task>, ErrorType>) -> bool {
    match r {
        Ok(t) => tasks_of_data(result_data(body)) is Some && match t {
            Some(t) => tasks_of_data(result_data(body))->0.len() > 0 && t@ == tasks_of_data(
                result_data(body),
            )->0[0],
            None => tasks_of_data(result_data(body))->0.len() == 0,
        },
        Err(e) => tasks_of_data(result_data(body)) is None && is_parse_error(e, tasks_error_text(body)),
    }
}

pub open spec fn first_user_outcome(body: Json, r: Result<Option<User>, ErrorType>) -> bool {
    match r {
        Ok(u) => users_of_data(result_data(body)) is Some && match u {
            Some(u) => users_of_data(result_data(body))->0.len() > 0 && u@ == users_of_data(
                result_data(body),
            )->0[0],
            None => users_of_data(result_data(body))->0.len() == 0,
        },
        Err(e) => users_of_data(result_data(body)) is None && is_parse_error(e, users_error_text(body)),
    }
}

pub open spec fn task_ids(tasks: Seq<Task>) -> Seq<Seq<char>> {
    tasks.map_values(|t: Task| t.id@)
}

/// The fields `constraints[kind][i]`, one per value, appended to `form`.
fn push_indexed(form: &mut Form, kind: &str, values: &Vec<&str>, clean: bool)
    ensures
        form_view(final(form)@) == form_view(old(form)@) + indexed(
            kind@,
            if clean {
                cleaned(str_views(values@))
            } else {
                str_views(values@)
            },
        ),
{
    let ghost vals = if clean {
        cleaned(str_views(values@))
    } else {
        str_views(values@)
    };
    let ghost start = form_view(form@);
    let mut i: usize = 0;
    while i < values.len()
        invariant
            i <= values@.len(),
            vals.len() == values@.len(),
            vals == (if clean {
                cleaned(str_views(values@))
            } else {
                str_views(values@)
            }),
            form_view(form@) == start + indexed(kind@, vals.subrange(0, i as int)),
        decreases values.len() - i,
    {
        let mut key = String::from_str("constraints[");
        key.append(kind);
        key.append("][");
        key.append(decimal_string(i as u64).as_str());
        key.append("]");
        let value = if clean {
            PhabricatorClient::clean_id(values[i])
        } else {
            values[i]
        };
        let ghost before = form@;
        form.push((key, String::from_str(value)));
        proof {
            assert(form@ == before.push(form@.last()));
            assert(form_view(form@) =~= form_view(before).push(
                (constraint_key(kind@, i as nat), vals[i as int]),
            ));
            assert(indexed(kind@, vals.subrange(0, i + 1)) =~= indexed(
                kind@,
                vals.subrange(0, i as int),
            ).push((constraint_key(kind@, i as nat), vals[i as int])));
        }
        i = i + 1;
    }
    assert(vals.subrange(0, vals.len() as int) =~= vals);
}

fn push_field(form: &mut Form, key: &str, value: &str)
    ensures
        form_view(final(form)@) == form_view(old(form)@).push((key@, value@)),
{
    let ghost before = form@;
    form.push((String::from_str(key), String::from_str(value)));
    assert(form_view(form@) =~= form_view(before).push((key@, value@)));
}

fn push_search_options(form: &mut Form)
    ensures
        form_view(final(form)@) == form_view(old(form)@) + search_options(),
{
    let ghost before = form_view(form@);
    push_field(form, "order", "oldest");
    push_field(form, "attachments[columns]", "true");
    push_field(form, "attachments[projects]", "true");
    assert(form_view(form@) =~= before + search_options());
}

fn decode_tasks(body: &Json) -> (r: Result<Vec<Task>, ErrorType>)
    ensures
        tasks_outcome(*body, r),
{
    let data = match body.get("result") {
        Some(x) => x.get("data"),
        None => None,
    };
    let items = match data {
        Some(Json::Array(items)) => items,
        _ => return Err(cannot_parse(body)),
    };
    let mut out: Vec<Task> = Vec::new();
    let mut i: usize = 0;
    while i < items.len()
        invariant
            i <= items@.len(),
            result_data(*body) == Json::Array(*items),
            out@.len() == i,
            forall|k: int|
                0 <= k < i ==> task_of_json(#[trigger] items@[k]) == Some(out@[k]@),
            first_bad_task(items@, 0) == first_bad_task(items@, i as int),
        decreases items.len() - i,
    {
        match Task::from_json(&items[i]) {
            Some(t) => out.push(t),
            None => {
                assert(first_bad_task(items@, i as int) == i);
                return Err(cannot_parse(&items[i]));
            },
        }
        i = i + 1;
    }
    assert(items@.map_values(|x: Json| task_of_json(x)->0) =~= task_views(out@));
    Ok(out)
}

fn decode_users(body: &Json) -> (r: Result<Vec<User>, ErrorType>)
    ensures
        users_outcome(*body, r),
{
    let data = match body.get("result") {
        Some(x) => x.get("data"),
        None => None,
    };
    let items = match data {
        Some(Json::Array(items)) => items,
        _ => return Err(cannot_parse(body)),
    };
    let mut out: Vec<User> = Vec::new();
    let mut i: usize = 0;
    while i < items.len()
        invariant
            i <= items@.len(),
            result_data(*body) == Json::Array(*items),
            out@.len() == i,
            forall|k: int|
                0 <= k < i ==> user_of_json(#[trigger] items@[k]) == Some(out@[k]@),
            first_bad_user(items@, 0) == first_bad_user(items@, i as int),
        decreases items.len() - i,
    {
        match User::from_json(&items[i]) {
            Some(u) => out.push(u),
            None => {
                assert(first_bad_user(items@, i as int) == i);
                return Err(cannot_parse(&items[i]));
            },
        }
        i = i + 1;
    }
    assert(items@.map_values(|x: Json| user_of_json(x)->0) =~= user_views(out@));
    Ok(out)
}

fn cannot_parse(v: &Json) -> (r: ErrorType)
    ensures
        is_parse_error(r, cannot_parse_text(*v)),
{
    let mut message = String::from_str("Cannot parse ");
    message.append(v.render().as_str());
    ErrorType::ParseError { message }
}

fn read_body(text: &str) -> (r: Result<Json, ErrorType>)
    ensures
        match parsed_document(text@) {
            Ok(body) => r == Ok::<Json, ErrorType>(body),
            Err(m) => r is Err && is_parse_error(r->Err_0, m),
        },
{
    match Json::parse(text) {
        Ok(body) => Ok(body),
        Err(message) => Err(ErrorType::ParseError { message }),
    }
}

/// Cleaning an id a second time changes nothing, for every id that does not
/// start with two `T`s.
pub proof fn lemma_clean_id_idempotent(id: Seq<char>)
    requires
        !(id.len() >= 2 && id[0] == 'T' && id[1] == 'T'),
    ensures
        clean_id_spec(clean_id_spec(id)) == clean_id_spec(id),
{
}

/// A search whose `result.data` is an empty array gives an empty list of
/// tasks and of users, not an error, and no first task or user.
pub proof fn lemma_no_results(body: Json)
    requires
        result_data(body) is Array,
        result_data(body)->Array_0@.len() == 0,
    ensures
        tasks_of_data(result_data(body)) == Some(Seq::<TaskView>::empty()),
        users_of_data(result_data(body)) == Some(Seq::<UserView>::empty()),
{
    let items = result_data(body)->Array_0;
    assert(items@.map_values(|x: Json| task_of_json(x)->0) =~= Seq::<TaskView>::empty());
    assert(items@.map_values(|x: Json| user_of_json(x)->0) =~= Seq::<UserView>::empty());
}

/// A text that occurs in one part of a concatenation occurs in the whole.
pub proof fn lemma_occurs_in_concat(x: Seq<char>, a: Seq<char>, b: Seq<char>)
    requires
        occurs_in(x, a) || occurs_in(x, b),
    ensures
        occurs_in(x, a + b),
{
    if occurs_in(x, a) {
        let k = choose|k: int|
            0 <= k && k + x.len() <= a.len() && #[trigger] a.subrange(k, k + x.len()) == x;
        assert((a + b).subrange(k, k + x.len()) =~= a.subrange(k, k + x.len()));
    } else {
        let k = choose|k: int|
            0 <= k && k + x.len() <= b.len() && #[trigger] b.subrange(k, k + x.len()) == x;
        assert((a + b).subrange(a.len() + k, a.len() + k + x.len()) =~= b.subrange(
            k,
            k + x.len(),
        ));
    }
}

pub proof fn lemma_occurs_in_self(x: Seq<char>)
    ensures
        occurs_in(x, x),
{
    assert(x.subrange(0, 0int + x.len()) =~= x);
}

/// When sibling subtrees are fetched and one of them fails, the aggregated
/// report holds the text of that subtree's failure, and within it the text of
/// the error that its fetch failed with.
pub proof fn lemma_failure_report_holds_each(
    ids: Seq<Seq<char>>,
    outcomes: Seq<Result<Vec<TaskFamily>, ErrorType>>,
    i: int,
)
    requires
        ids.len() == outcomes.len(),
        0 <= i < outcomes.len(),
        outcomes[i] is Err,
    ensures
        occurs_in(branch_failure_text(ids[i], outcomes[i]->Err_0), failure_report(ids, outcomes)),
        occurs_in(error_text(outcomes[i]->Err_0), failure_report(ids, outcomes)),
    decreases outcomes.len(),
{
    let n = outcomes.len() as int;
    let e = outcomes[i]->Err_0;
    let b = branch_failure_text(ids[i], e);
    let prev = failure_report(ids.drop_last(), outcomes.drop_last());
    lemma_occurs_in_self(error_text(e));
    lemma_occurs_in_concat(
        error_text(e),
        "Fetch sub tasks error: "@ + "Could not fetch sub tasks with parent id "@ + ids[i]
            + ", err: "@,
        error_text(e),
    );
    if i == n - 1 {
        lemma_occurs_in_self(b);
        lemma_occurs_in_concat(b, prev + "\n"@, b);
        lemma_occurs_in_concat(error_text(e), prev + "\n"@, b);
    } else {
        lemma_failure_report_holds_each(ids.drop_last(), outcomes.drop_last(), i);
        assert(ids.drop_last()[i] == ids[i]);
        assert(outcomes.drop_last()[i] == outcomes[i]);
        match outcomes.last() {
            Err(e2) => {
                let tail = "\n"@ + branch_failure_text(ids.last(), e2);
                assert(failure_report(ids, outcomes) =~= prev + tail);
                lemma_occurs_in_concat(b, prev, tail);
                lemma_occurs_in_concat(error_text(e), prev, tail);
            },
            Ok(_) => {},
        }
    }
}

impl PhabricatorClient {
    /// The error with which the subtree under `parent_id` fails when fetching
    /// its children failed with `e`.
    pub fn subtask_failure(parent_id: &str, e: &ErrorType) -> (r: ErrorType)
        ensures
            r is FetchSubTasksError,
            error_text(r) == branch_failure_text(parent_id@, *e),
    {
        let mut message = String::from_str("Could not fetch sub tasks with parent id ");
        message.append(parent_id);
        message.append(", err: ");
        message.append(e.to_message().as_str());
        let r = ErrorType::FetchSubTasksError { message };
        assert(error_text(r) =~= branch_failure_text(parent_id@, *e));
        r
    }

    /// Joins each task with the outcome of fetching its subtrees, all or
    /// nothing: the families in order when every fetch succeeded, otherwise one
    /// error that reports every failed fetch.
    pub fn assemble_families(
        tasks: Vec<Task>,
        outcomes: Vec<Result<Vec<TaskFamily>, ErrorType>>,
    ) -> (r: Result<Vec<TaskFamily>, ErrorType>)
        requires
            tasks@.len() == outcomes@.len(),
        ensures
            r is Err <==> exists|i: int| 0 <= i < outcomes@.len() && #[trigger] outcomes@[i] is Err,
            r matches Err(e) ==> e matches ErrorType::FetchSubTasksError { message } && message@
                == failure_report(task_ids(tasks@), outcomes@),
            r matches Ok(fs) ==> fs@.len() == tasks@.len() && forall|i: int|
                0 <= i < tasks@.len() ==> (#[trigger] fs@[i]).parent_task == tasks@[i]
                    && outcomes@[i] is Ok && fs@[i].children == outcomes@[i]->Ok_0,
    {
        let ghost ids = task_ids(tasks@);
        let ghost all_tasks = tasks@;
        let ghost all_outcomes = outcomes@;
        let mut tasks = tasks;
        let mut outcomes = outcomes;
        let n = tasks.len();
        let mut report = String::new();
        let mut failed = false;
        let mut families: Vec<TaskFamily> = Vec::new();
        let mut i: usize = 0;
        assert(all_tasks.subrange(0, n as int) =~= all_tasks);
        assert(all_outcomes.subrange(0, n as int) =~= all_outcomes);
        assert(ids.subrange(0, 0) =~= Seq::<Seq<char>>::empty());
        assert(all_outcomes.subrange(0, 0) =~= Seq::<Result<Vec<TaskFamily>, ErrorType>>::empty());
        while i < n
            invariant
                n == all_tasks.len(),
                n == all_outcomes.len(),
                ids == task_ids(all_tasks),
                i <= n,
                tasks@ == all_tasks.subrange(i as int, n as int),
                outcomes@ == all_outcomes.subrange(i as int, n as int),
                report@ == failure_report(ids.subrange(0, i as int), all_outcomes.subrange(0, i as int)),
                failed <==> exists|k: int| 0 <= k < i && #[trigger] all_outcomes[k] is Err,
                !failed ==> families@.len() == i && forall|k: int|
                    0 <= k < i ==> (#[trigger] families@[k]).parent_task == all_tasks[k]
                        && all_outcomes[k] is Ok && families@[k].children == all_outcomes[k]->Ok_0,
            decreases n - i,
        {
            let task = tasks.remove(0);
            let outcome = outcomes.remove(0);
            assert(task == all_tasks[i as int]);
            assert(outcome == all_outcomes[i as int]);
            assert(all_tasks.subrange(i as int, n as int).remove(0) =~= all_tasks.subrange(
                i + 1,
                n as int,
            ));
            assert(all_outcomes.subrange(i as int, n as int).remove(0) =~= all_outcomes.subrange(
                i + 1,
                n as int,
            ));
            assert(ids.subrange(0, i + 1).drop_last() =~= ids.subrange(0, i as int));
            assert(all_outcomes.subrange(0, i + 1).drop_last() =~= all_outcomes.subrange(
                0,
                i as int,
            ));
            assert(ids.subrange(0, i + 1).last() == task.id@);
            match outcome {
                Ok(children) => {
                    if !failed {
                        families.push(TaskFamily { parent_task: task, children });
                    }
                },
                Err(e) => {
                    let branch = PhabricatorClient::subtask_failure(task.id.as_str(), &e);
                    report.append("\n");
                    report.append(branch.to_message().as_str());
                    failed = true;
                },
            }
            i = i + 1;
        }
        assert(ids.subrange(0, n as int) =~= ids);
        if failed {
            Err(ErrorType::FetchSubTasksError { message: report })
        } else {
            Ok(families)
        }
    }

    /// Takes one leading `T` off a task id, as found in task URLs
    /// (`yourphabhost.com/T1234`).
    pub fn clean_id(id: &str) -> (r: &str)
        ensures
            r@ == clean_id_spec(id@),
    {
        let n = id.unicode_len();
        if n > 0 && id.get_char(0) == 'T' {
            id.substring_char(1, n)
        } else {
            id
        }
    }

    /// A client for the configured host. When a client certificate is
    /// configured, `pkcs12_read` is the outcome of reading its file: the bytes,
    /// or the reason the read failed, which makes a configuration error that
    /// names the file.
    pub fn new(config: PhabricatorClientConfig, pkcs12_read: Option<Result<Vec<u8>, String>>) -> (r:
        Result<PhabricatorClient, ErrorType>)
        ensures
            match (config.cert_identity_config, pkcs12_read) {
                (Some(cert), Some(Err(reason))) => r is Err && error_text(r->Err_0)
                    == "Fail to configure http client, error: "@ + "Failed to read pkcs12 from "@
                    + cert.pkcs12_path@ + ", "@ + reason@ && occurs_in(
                    cert.pkcs12_path@,
                    error_text(r->Err_0),
                ),
                (cert, read) => r is Ok && r->Ok_0.host == config.host && r->Ok_0.api_token
                    == config.api_token && r->Ok_0.cert_identity_config == cert && r->Ok_0.pkcs12_der
                    == (match (cert, read) {
                    (Some(_), Some(Ok(der))) => Some(der),
                    _ => None,
                }),
            },
    {
        let PhabricatorClientConfig { host, api_token, cert_identity_config } = config;
        let pkcs12_der = match &cert_identity_config {
            Some(cert) => match pkcs12_read {
                Some(Err(reason)) => {
                    return Err(
                        PhabricatorClient::pkcs12_read_error(
                            cert.pkcs12_path.as_str(),
                            reason.as_str(),
                        ),
                    );
                },
                Some(Ok(der)) => Some(der),
                None => None,
            },
            None => None,
        };
        Ok(PhabricatorClient { host, api_token, cert_identity_config, pkcs12_der })
    }

    /// The error for a client certificate file that could not be read.
    pub fn pkcs12_read_error(pkcs12_path: &str, reason: &str) -> (r: ErrorType)
        ensures
            r matches ErrorType::FailToConfigureHttpClient { message } && message@
                == "Failed to read pkcs12 from "@ + pkcs12_path@ + ", "@ + reason@,
            occurs_in(pkcs12_path@, error_text(r)),
    {
        let mut message = String::from_str("Failed to read pkcs12 from ");
        message.append(pkcs12_path);
        message.append(", ");
        message.append(reason);
        let r = ErrorType::FailToConfigureHttpClient { message };
        proof {
            let pre = "Fail to configure http client, error: "@ + "Failed to read pkcs12 from "@;
            let t = error_text(r);
            assert(t =~= pre + pkcs12_path@ + (", "@ + reason@));
            assert(t.subrange(pre.len() as int, (pre.len() + pkcs12_path@.len()) as int) =~= pkcs12_path@);
        }
        r
    }

    /// The error for certificate bytes that are not a PKCS12 identity for the
    /// configured password.
    pub fn certificate_identity_error(pkcs12_path: &str, message: &str) -> (r: ErrorType)
        ensures
            r matches ErrorType::CertificateIdentityError { pkcs12_path: p, message: m } && p@
                == pkcs12_path@ && m@ == message@,
    {
        ErrorType::CertificateIdentityError {
            pkcs12_path: String::from_str(pkcs12_path),
            message: String::from_str(message),
        }
    }

    /// `{host}/api/user.search`.
    pub fn user_search_url(&self) -> (r: String)
        ensures
            r@ == self.host@ + "/api/user.search"@,
    {
        let mut url = self.host.clone();
        url.append("/api/user.search");
        url
    }

    /// `{host}/api/maniphest.search`.
    pub fn task_search_url(&self) -> (r: String)
        ensures
            r@ == self.host@ + "/api/maniphest.search"@,
    {
        let mut url = self.host.clone();
        url.append("/api/maniphest.search");
        url
    }

    /// The form of a user search by phids.
    pub fn users_search_form(&self, user_phids: &Vec<&str>) -> (r: Form)
        ensures
            form_view(r@) == users_form(self.api_token@, str_views(user_phids@)),
    {
        let mut form: Form = Vec::new();
        push_field(&mut form, "api.token", self.api_token.as_str());
        push_indexed(&mut form, "phids", user_phids, false);
        form
    }

    /// The form of a task search by ids; each id is sent without its leading `T`.
    pub fn tasks_search_form(&self, task_ids: &Vec<&str>) -> (r: Form)
        ensures
            form_view(r@) == tasks_form(self.api_token@, str_views(task_ids@)),
    {
        let mut form: Form = Vec::new();
        push_field(&mut form, "api.token", self.api_token.as_str());
        push_search_options(&mut form);
        push_indexed(&mut form, "ids", task_ids, true);
        form
    }

    /// The form of a search for the children of the given parents; refused
    /// when no parent is given.
    pub fn child_tasks_search_form(&self, parent_task_ids: &Vec<&str>) -> (r: Result<
        Form,
        ErrorType,
    >)
        ensures
            parent_task_ids@.len() == 0 <==> r is Err,
            r matches Err(ErrorType::ValidationError { message }) ==> message@
                == "Parent ids cannot be empty"@,
            r is Err ==> r->Err_0 is ValidationError,
            r matches Ok(f) ==> form_view(f@) == children_form(
                self.api_token@,
                str_views(parent_task_ids@),
            ),
    {
        if parent_task_ids.len() == 0 {
            return Err(
                ErrorType::ValidationError {
                    message: String::from_str("Parent ids cannot be empty"),
                },
            );
        }
        let mut form: Form = Vec::new();
        push_field(&mut form, "api.token", self.api_token.as_str());
        push_indexed(&mut form, "parentIDs", parent_task_ids, true);
        push_search_options(&mut form);
        Ok(form)
    }

    /// The tasks of a decoded search response: every item of `result.data`,
    /// in order. A `result.data` that is not an array, or an item that is not
    /// a well-formed task, is a parse error that names it.
    pub fn tasks_from_body(body: &Json) -> (r: Result<Vec<Task>, ErrorType>)
        ensures
            tasks_outcome(*body, r),
    {
        decode_tasks(body)
    }

    /// The users of a decoded search response, as `tasks_from_body` does for
    /// tasks.
    pub fn users_from_body(body: &Json) -> (r: Result<Vec<User>, ErrorType>)
        ensures
            users_outcome(*body, r),
    {
        decode_users(body)
    }

    /// The first task of a decoded search response, `None` when it has none.
    pub fn first_task_from_body(body: &Json) -> (r: Result<Option<Task>, ErrorType>)
        ensures
            first_task_outcome(*body, r),
    {
        let mut tasks = decode_tasks(body)?;
        if tasks.len() == 0 {
            Ok(None)
        } else {
            Ok(Some(tasks.remove(0)))
        }
    }

    /// The first user of a decoded search response, `None` when it has none.
    pub fn first_user_from_body(body: &Json) -> (r: Result<Option<User>, ErrorType>)
        ensures
            first_user_outcome(*body, r),
    {
        let mut users = decode_users(body)?;
        if users.len() == 0 {
            Ok(None)
        } else {
            Ok(Some(users.remove(0)))
        }
    }

    /// The tasks of a search response's text: a parse error with serde_json's
    /// words when the text cannot be read, else as `tasks_from_body`.
    pub fn tasks_from_response(text: &str) -> (r: Result<Vec<Task>, ErrorType>)
        ensures
            match parsed_document(text@) {
                Err(m) => r is Err && is_parse_error(r->Err_0, m),
                Ok(body) => tasks_outcome(body, r),
            },
    {
        let body = read_body(text)?;
        decode_tasks(&body)
    }

    /// The users of a search response's text, as `tasks_from_response`.
    pub fn users_from_response(text: &str) -> (r: Result<Vec<User>, ErrorType>)
        ensures
            match parsed_document(text@) {
                Err(m) => r is Err && is_parse_error(r->Err_0, m),
                Ok(body) => users_outcome(body, r),
            },
    {
        let body = read_body(text)?;
        decode_users(&body)
    }

    /// The first task of a search response's text, `None` when it has none;
    /// its errors are those of `tasks_from_response` on the same text.
    pub fn task_from_response(text: &str) -> (r: Result<Option<Task>, ErrorType>)
        ensures
            match parsed_document(text@) {
                Err(m) => r is Err && is_parse_error(r->Err_0, m),
                Ok(body) => first_task_outcome(body, r),
            },
    {
        let body = read_body(text)?;
        PhabricatorClient::first_task_from_body(&body)
    }

    /// The first user of a search response's text, `None` when it has none;
    /// its errors are those of `users_from_response` on the same text.
    pub fn user_from_response(text: &str) -> (r: Result<Option<User>, ErrorType>)
        ensures
            match parsed_document(text@) {
                Err(m) => r is Err && is_parse_error(r->Err_0, m),
                Ok(body) => first_user_outcome(body, r),
            },
    {
        let body = read_body(text)?;
        PhabricatorClient::first_user_from_body(&body)
    }

    /// The family of a task: none when the task was not found, else the task
    /// with the subtrees fetched under it.
    pub fn task_family(parent_task: Option<Task>, children: Vec<TaskFamily>) -> (r: Option<
        TaskFamily,
    >)
        ensures
            match parent_task {
                None => r is None,
                Some(t) => r == Some(TaskFamily { parent_task: t, children }),
            },
    {
        match parent_task {
            None => None,
            Some(t) => Some(TaskFamily { parent_task: t, children }),
        }
    }
}

} // verus!
