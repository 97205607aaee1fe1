//! The records exchanged with the task tracker: tasks, boards, users,
//! watchlists and task families, their mathematical views, and their decoding
//! from the Conduit API's JSON objects.

use vstd::prelude::*;
use crate::error::ErrorType;
use crate::json::{Json, member, first_element, as_text, as_uint, text_list};
use crate::text::{decimal, decimal_string};

verus! {

#[derive(Clone, Debug, PartialEq, Eq)]
pub struct Board {
    pub id: u64,
    pub phid: String,
    pub name: String,
}

pub struct BoardView {
    pub id: u64,
    pub phid: Seq<char>,
    pub name: Seq<char>,
}

impl View for Board {
    type V = BoardView;

    open spec fn view(&self) -> BoardView {
        BoardView { id: self.id, phid: self.phid@, name: self.name@ }
    }
}

#[derive(Clone, Debug, PartialEq, Eq)]
pub struct Task {
    pub id: String,
    pub task_type: String,
    pub phid: String,
    pub name: String,
    pub description: String,
    pub author_phid: String,
    pub assigned_phid: Option<String>,
    pub status: String,
    pub priority: String,
    pub point: Option<u64>,
    pub project_phids: Vec<String>,
    pub board: Option<Board>,
    pub created_at: u64,
    pub updated_at: u64,
}

pub struct TaskView {
    pub id: Seq<char>,
    pub task_type: Seq<char>,
    pub phid: Seq<char>,
    pub name: Seq<char>,
    pub description: Seq<char>,
    pub author_phid: Seq<char>,
    pub assigned_phid: Option<Seq<char>>,
    pub status: Seq<char>,
    pub priority: Seq<char>,
    pub point: Option<u64>,
    pub project_phids: Seq<Seq<char>>,
    pub board: Option<BoardView>,
    pub created_at: u64,
    pub updated_at: u64,
}

pub open spec fn text_opt(o: Option<String>) -> Option<Seq<char>> {
    match o {
        Some(s) => Some(s@),
        None => None,
    }
}

pub open spec fn texts(v: Seq<String>) -> Seq<Seq<char>> {
    v.map_values(|s: String| s@)
}

pub open spec fn task_views(v: Seq<Task>) -> Seq<TaskView> {
    v.map_values(|t: Task| t@)
}

pub open spec fn board_opt(o: Option<Board>) -> Option<BoardView> {
    match o {
        Some(b) => Some(b@),
        None => None,
    }
}

impl View for Task {
    type V = TaskView;

    open spec fn view(&self) -> TaskView {
        TaskView {
            id: self.id@,
            task_type: self.task_type@,
            phid: self.phid@,
            name: self.name@,
            description: self.description@,
            author_phid: self.author_phid@,
            assigned_phid: text_opt(self.assigned_phid),
            status: self.status@,
            priority: self.priority@,
            point: self.point,
            project_phids: texts(self.project_phids@),
            board: board_opt(self.board),
            created_at: self.created_at,
            updated_at: self.updated_at,
        }
    }
}

#[derive(Clone, Debug, PartialEq, Eq)]
pub struct User {
    pub id: String,
    pub phid: String,
    pub username: String,
    pub name: String,
    pub created_at: u64,
    pub updated_at: u64,
}

pub struct UserView {
    pub id: Seq<char>,
    pub phid: Seq<char>,
    pub username: Seq<char>,
    pub name: Seq<char>,
    pub created_at: u64,
    pub updated_at: u64,
}

impl View for User {
    type V = UserView;

    open spec fn view(&self) -> UserView {
        UserView {
            id: self.id@,
            phid: self.phid@,
            username: self.username@,
            name: self.name@,
            created_at: self.created_at,
            updated_at: self.updated_at,
        }
    }
}

/// A task with the tree of its subtasks.
#[derive(Debug, PartialEq, Eq)]
pub struct TaskFamily {
    pub parent_task: Task,
    pub children: Vec<TaskFamily>,
}

/// A named collection of task snapshots; `id` is absent until the watchlist
/// is stored.
#[derive(Clone, Debug, PartialEq, Eq)]
pub struct Watchlist {
    pub id: Option<String>,
    pub name: String,
    pub tasks: Vec<Task>,
}

// Decoding from the API's JSON objects.

/// `member` along a path of keys.
pub open spec fn path2(v: Json, a: Seq<char>, b: Seq<char>) -> Json {
    member(member(v, a), b)
}

pub open spec fn path3(v: Json, a: Seq<char>, b: Seq<char>, c: Seq<char>) -> Json {
    member(member(member(v, a), b), c)
}

/// The first of `phids` that has a non-null entry in `boards`.
pub open spec fn first_on_board(boards: Json, phids: Seq<Seq<char>>) -> Option<Seq<char>>
    decreases phids.len(),
{
    if phids.len() == 0 {
        None
    } else if !(member(boards, phids[0]) is Null) {
        Some(phids[0])
    } else {
        first_on_board(boards, phids.drop_first())
    }
}

/// A board column object: `id`, `phid` and `name`.
pub open spec fn board_of_column(col: Json) -> Option<BoardView> {
    if as_uint(member(col, "id"@)) is Some && as_text(member(col, "phid"@)) is Some && as_text(
        member(col, "name"@),
    ) is Some {
        Some(
            BoardView {
                id: as_uint(member(col, "id"@))->0,
                phid: as_text(member(col, "phid"@))->0,
                name: as_text(member(col, "name"@))->0,
            },
        )
    } else {
        None
    }
}

/// The board of a task: the first column of the first of its projects that
/// has an entry in `boards`; `Some(None)` when none has, `None` when that
/// column is malformed.
pub open spec fn board_of(boards: Json, phids: Seq<Seq<char>>) -> Option<Option<BoardView>> {
    match first_on_board(boards, phids) {
        None => Some(None),
        Some(p) => match board_of_column(first_element(member(member(boards, p), "columns"@))) {
            Some(b) => Some(Some(b)),
            None => None,
        },
    }
}

/// The task that a JSON task object of the API describes, when it has every
/// required field with the right shape.
pub open spec fn task_of_json(v: Json) -> Option<TaskView> {
    let fields = member(v, "fields"@);
    let phids = text_list(path3(v, "attachments"@, "projects"@, "projectPHIDs"@));
    let boards = path3(v, "attachments"@, "columns"@, "boards"@);
    if phids is Some && board_of(boards, phids->0) is Some && as_uint(member(v, "id"@)) is Some
        && as_text(member(v, "type"@)) is Some && as_text(member(v, "phid"@)) is Some && as_text(
        member(fields, "name"@),
    ) is Some && as_text(path2(fields, "description"@, "raw"@)) is Some && as_text(
        member(fields, "authorPHID"@),
    ) is Some && as_text(path2(fields, "status"@, "value"@)) is Some && as_text(
        path2(fields, "priority"@, "name"@),
    ) is Some && as_uint(member(fields, "dateCreated"@)) is Some && as_uint(
        member(fields, "dateModified"@),
    ) is Some {
        Some(
            TaskView {
                id: decimal(as_uint(member(v, "id"@))->0 as nat),
                task_type: as_text(member(v, "type"@))->0,
                phid: as_text(member(v, "phid"@))->0,
                name: as_text(member(fields, "name"@))->0,
                description: as_text(path2(fields, "description"@, "raw"@))->0,
                author_phid: as_text(member(fields, "authorPHID"@))->0,
                assigned_phid: as_text(member(fields, "ownerPHID"@)),
                status: as_text(path2(fields, "status"@, "value"@))->0,
                priority: as_text(path2(fields, "priority"@, "name"@))->0,
                point: as_uint(member(fields, "points"@)),
                project_phids: phids->0,
                board: board_of(boards, phids->0)->0,
                created_at: as_uint(member(fields, "dateCreated"@))->0,
                updated_at: as_uint(member(fields, "dateModified"@))->0,
            },
        )
    } else {
        None
    }
}

/// The user that a JSON user object of the API describes, when it has every
/// required field with the right shape.
pub open spec fn user_of_json(v: Json) -> Option<UserView> {
    let fields = member(v, "fields"@);
    if as_uint(member(v, "id"@)) is Some && as_text(member(v, "phid"@)) is Some && as_text(
        member(fields, "username"@),
    ) is Some && as_text(member(fields, "realName"@)) is Some && as_uint(
        member(fields, "dateCreated"@),
    ) is Some && as_uint(member(fields, "dateModified"@)) is Some {
        Some(
            UserView {
                id: decimal(as_uint(member(v, "id"@))->0 as nat),
                phid: as_text(member(v, "phid"@))->0,
                username: as_text(member(fields, "username"@))->0,
                name: as_text(member(fields, "realName"@))->0,
                created_at: as_uint(member(fields, "dateCreated"@))->0,
                updated_at: as_uint(member(fields, "dateModified"@))->0,
            },
        )
    } else {
        None
    }
}

pub open spec fn or_null(o: Option<&Json>) -> Json {
    match o {
        Some(x) => *x,
        None => Json::Null,
    }
}

/// `v[key]`, with an absent value standing for `Null`.
pub(crate) fn child<'a>(v: Option<&'a Json>, key: &str) -> (r: Option<&'a Json>)
    ensures
        or_null(r) == member(or_null(v), key@),
{
    match v {
        Some(x) => x.get(key),
        None => None,
    }
}

pub(crate) fn text_at(v: Option<&Json>) -> (r: Option<String>)
    ensures
        text_opt(r) == as_text(or_null(v)),
{
    match v {
        Some(x) => match x.as_str() {
            Some(s) => Some(s.clone()),
            None => None,
        },
        None => None,
    }
}

pub(crate) fn uint_at(v: Option<&Json>) -> (r: Option<u64>)
    ensures
        r == as_uint(or_null(v)),
{
    match v {
        Some(x) => x.as_u64(),
        None => None,
    }
}

pub(crate) fn texts_at(v: Option<&Json>) -> (r: Option<Vec<String>>)
    ensures
        match r {
            Some(l) => text_list(or_null(v)) == Some(texts(l@)),
            None => text_list(or_null(v)) is None,
        },
{
    match v {
        Some(Json::Array(items)) => {
            let mut out: Vec<String> = Vec::new();
            let mut i: usize = 0;
            while i < items.len()
                invariant
                    i <= items@.len(),
                    or_null(v) == Json::Array(*items),
                    out@.len() == i,
                    forall|k: int| 0 <= k < i ==> as_text(#[trigger] items@[k]) == Some(out@[k]@),
                decreases items.len() - i,
            {
                match items[i].as_str() {
                    Some(s) => out.push(s.clone()),
                    None => {
                        assert(as_text(items@[i as int]) is None);
                        return None;
                    },
                }
                i = i + 1;
            }
            assert(items@.map_values(|x: Json| as_text(x).unwrap()) =~= texts(out@));
            Some(out)
        },
        _ => None,
    }
}

impl Task {
    /// Resolves the board of a task from the `boards` attachment and the task's
    /// project phids: the first column of the first project, in list order,
    /// that has an entry in `boards`. No such project means no board.
    pub fn guess_board_from_projects(boards: &Json, project_phids: &Vec<String>) -> (r: Result<
        Option<Board>,
        ErrorType,
    >)
        ensures
            match r {
                Ok(b) => board_of(*boards, texts(project_phids@)) == Some(board_opt(b)),
                Err(e) => board_of(*boards, texts(project_phids@)) is None && e is ParseError,
            },
    {
        let ghost phids = texts(project_phids@);
        let mut i: usize = 0;
        assert(phids.subrange(0, phids.len() as int) =~= phids);
        while i < project_phids.len()
            invariant
                i <= project_phids@.len(),
                phids == texts(project_phids@),
                first_on_board(*boards, phids) == first_on_board(
                    *boards,
                    phids.subrange(i as int, phids.len() as int),
                ),
            decreases project_phids.len() - i,
        {
            let ghost rest = phids.subrange(i as int, phids.len() as int);
            assert(rest[0] == project_phids@[i as int]@);
            let entry = child(Some(boards), project_phids[i].as_str());
            if entry.is_some() && !matches!(entry, Some(Json::Null)) {
                let col = match child(entry, "columns") {
                    Some(Json::Array(items)) => if items.len() > 0 {
                        Some(&items[0])
                    } else {
                        None
                    },
                    _ => None,
                };
                assert(or_null(col) == first_element(
                    member(member(*boards, phids[i as int]), "columns"@),
                ));
                let id = uint_at(child(col, "id"));
                let phid = text_at(child(col, "phid"));
                let name = text_at(child(col, "name"));
                return match (id, phid, name) {
                    (Some(id), Some(phid), Some(name)) => Ok(Some(Board { id, phid, name })),
                    _ => Err(
                        ErrorType::ParseError {
                            message: String::from_str("board column lacks id, phid or name"),
                        },
                    ),
                };
            }
            assert(rest.drop_first() =~= phids.subrange(i + 1, phids.len() as int));
            i = i + 1;
        }
        Ok(None)
    }

    /// Decodes one task object of the API. `None` when a required field is
    /// absent or has the wrong shape.
    pub fn from_json(v: &Json) -> (r: Option<Task>)
        ensures
            match r {
                Some(t) => task_of_json(*v) == Some(t@),
                None => task_of_json(*v) is None,
            },
    {
        let root = Some(v);
        let attachments = child(root, "attachments");
        let project_phids = match texts_at(child(child(attachments, "projects"), "projectPHIDs")) {
            Some(p) => p,
            None => return None,
        };
        let null = Json::Null;
        let boards: &Json = match child(child(attachments, "columns"), "boards") {
            Some(b) => b,
            None => &null,
        };
        let board = match Task::guess_board_from_projects(boards, &project_phids) {
            Ok(b) => b,
            Err(_) => return None,
        };
        let fields = child(root, "fields");
        let id = match uint_at(child(root, "id")) {
            Some(x) => x,
            None => return None,
        };
        let task_type = match text_at(child(root, "type")) {
            Some(x) => x,
            None => return None,
        };
        let phid = match text_at(child(root, "phid")) {
            Some(x) => x,
            None => return None,
        };
        let name = match text_at(child(fields, "name")) {
            Some(x) => x,
            None => return None,
        };
        let description = match text_at(child(child(fields, "description"), "raw")) {
            Some(x) => x,
            None => return None,
        };
        let author_phid = match text_at(child(fields, "authorPHID")) {
            Some(x) => x,
            None => return None,
        };
        let status = match text_at(child(child(fields, "status"), "value")) {
            Some(x) => x,
            None => return None,
        };
        let priority = match text_at(child(child(fields, "priority"), "name")) {
            Some(x) => x,
            None => return None,
        };
        let created_at = match uint_at(child(fields, "dateCreated")) {
            Some(x) => x,
            None => return None,
        };
        let updated_at = match uint_at(child(fields, "dateModified")) {
            Some(x) => x,
            None => return None,
        };
        Some(
            Task {
                id: decimal_string(id),
                task_type,
                phid,
                name,
                description,
                author_phid,
                assigned_phid: text_at(child(fields, "ownerPHID")),
                status,
                priority,
                point: uint_at(child(fields, "points")),
                project_phids,
                board,
                created_at,
                updated_at,
            },
        )
    }
}

impl User {
    /// Decodes one user object of the API. `None` when a required field is
    /// absent or has the wrong shape.
    pub fn from_json(v: &Json) -> (r: Option<User>)
        ensures
            match r {
                Some(u) => user_of_json(*v) == Some(u@),
                None => user_of_json(*v) is None,
            },
    {
        let root = Some(v);
        let fields = child(root, "fields");
        let id = match uint_at(child(root, "id")) {
            Some(x) => x,
            None => return None,
        };
        let phid = match text_at(child(root, "phid")) {
            Some(x) => x,
            None => return None,
        };
        let username = match text_at(child(fields, "username")) {
            Some(x) => x,
            None => return None,
        };
        let name = match text_at(child(fields, "realName")) {
            Some(x) => x,
            None => return None,
        };
        let created_at = match uint_at(child(fields, "dateCreated")) {
            Some(x) => x,
            None => return None,
        };
        let updated_at = match uint_at(child(fields, "dateModified")) {
            Some(x) => x,
            None => return None,
        };
        Some(User { id: decimal_string(id), phid, username, name, created_at, updated_at })
    }
}

} // verus!
