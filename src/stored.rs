//! The JSON layout in which records are written: each record as an object
//! with one member per field, named as the field. Encoding is proved to be
//! undone by decoding.

use vstd::prelude::*;
use vstd::string::*;
use crate::dto::{
    Board, BoardView, Task, TaskFamily, TaskView, Watchlist, board_of_column, board_opt, text_opt, texts,
    or_null, child, text_at, uint_at, texts_at, task_views,
};
use crate::json::{Json, member, as_text, as_uint, text_list, json_text};

verus! {

/// The lookup of a key finds the first entry that has it.
pub proof fn lemma_lookup_at(entries: Seq<(String, Json)>, key: Seq<char>, i: int)
    requires
        0 <= i < entries.len(),
        entries[i].0@ == key,
        forall|j: int| 0 <= j < i ==> (#[trigger] entries[j]).0@ != key,
    ensures
        crate::json::entry_lookup(entries, key) == Some(entries[i].1),
    decreases i,
{
    if i > 0 {
        lemma_lookup_at(entries.drop_first(), key, i - 1);
        assert forall|j: int| 0 <= j < i - 1 implies (#[trigger] entries.drop_first()[j]).0@ != key by {
            assert(entries.drop_first()[j] == entries[j + 1]);
        }
        assert(entries[0].0@ != key);
    }
}

/// `Json::Str` of a copy of `s`.
fn text_json(s: &String) -> (r: Json)
    ensures
        r is Str && r->Str_0@ == s@,
{
    Json::Str(s.clone())
}

pub struct WatchlistView {
    pub id: Option<Seq<char>>,
    pub name: Seq<char>,
    pub tasks: Seq<TaskView>,
}

impl View for Watchlist {
    type V = WatchlistView;

    open spec fn view(&self) -> WatchlistView {
        WatchlistView { id: text_opt(self.id), name: self.name@, tasks: task_views(self.tasks@) }
    }
}

/// An optional text: `null` or a string.
pub open spec fn opt_text_of(v: Json) -> Option<Option<Seq<char>>> {
    match v {
        Json::Null => Some(None),
        Json::Str(s) => Some(Some(s@)),
        _ => None,
    }
}

/// An optional number: `null` or an unsigned integer.
pub open spec fn opt_uint_of(v: Json) -> Option<Option<u64>> {
    match v {
        Json::Null => Some(None),
        Json::UInt(n) => Some(Some(n)),
        _ => None,
    }
}

/// An optional board: `null` or a board object.
pub open spec fn opt_board_of(v: Json) -> Option<Option<BoardView>> {
    match v {
        Json::Null => Some(None),
        _ => match board_of_column(v) {
            Some(b) => Some(Some(b)),
            None => None,
        },
    }
}

/// The task that a stored task object describes.
pub open spec fn stored_task(v: Json) -> Option<TaskView> {
    if as_text(member(v, "id"@)) is Some && as_text(member(v, "task_type"@)) is Some && as_text(
        member(v, "phid"@),
    ) is Some && as_text(member(v, "name"@)) is Some && as_text(member(v, "description"@)) is Some
        && as_text(member(v, "author_phid"@)) is Some && opt_text_of(member(v, "assigned_phid"@)) is Some
        && as_text(member(v, "status"@)) is Some && as_text(member(v, "priority"@)) is Some
        && opt_uint_of(member(v, "point"@)) is Some && text_list(member(v, "project_phids"@)) is Some
        && opt_board_of(member(v, "board"@)) is Some && as_uint(member(v, "created_at"@)) is Some
        && as_uint(member(v, "updated_at"@)) is Some {
        Some(
            TaskView {
                id: as_text(member(v, "id"@))->0,
                task_type: as_text(member(v, "task_type"@))->0,
                phid: as_text(member(v, "phid"@))->0,
                name: as_text(member(v, "name"@))->0,
                description: as_text(member(v, "description"@))->0,
                author_phid: as_text(member(v, "author_phid"@))->0,
                assigned_phid: opt_text_of(member(v, "assigned_phid"@))->0,
                status: as_text(member(v, "status"@))->0,
                priority: as_text(member(v, "priority"@))->0,
                point: opt_uint_of(member(v, "point"@))->0,
                project_phids: text_list(member(v, "project_phids"@))->0,
                board: opt_board_of(member(v, "board"@))->0,
                created_at: as_uint(member(v, "created_at"@))->0,
                updated_at: as_uint(member(v, "updated_at"@))->0,
            },
        )
    } else {
        None
    }
}

/// The tasks of an array of stored task objects.
pub open spec fn stored_tasks(v: Json) -> Option<Seq<TaskView>> {
    match v {
        Json::Array(items) => if forall|i: int|
            0 <= i < items@.len() ==> (#[trigger] stored_task(items@[i])) is Some {
            Some(items@.map_values(|x: Json| stored_task(x)->0))
        } else {
            None
        },
        _ => None,
    }
}

/// The watchlist that a stored watchlist object describes.
pub open spec fn stored_watchlist(v: Json) -> Option<WatchlistView> {
    if opt_text_of(member(v, "id"@)) is Some && as_text(member(v, "name"@)) is Some && stored_tasks(
        member(v, "tasks"@),
    ) is Some {
        Some(
            WatchlistView {
                id: opt_text_of(member(v, "id"@))->0,
                name: as_text(member(v, "name"@))->0,
                tasks: stored_tasks(member(v, "tasks"@))->0,
            },
        )
    } else {
        None
    }
}

fn keyed(key: &str, value: Json) -> (r: (String, Json))
    ensures
        r.0@ == key@,
        r.1 == value,
{
    (String::from_str(key), value)
}

fn opt_text_json(s: &Option<String>) -> (r: Json)
    ensures
        opt_text_of(r) == Some(text_opt(*s)),
{
    match s {
        Some(t) => text_json(t),
        None => Json::Null,
    }
}

fn texts_json(v: &Vec<String>) -> (r: Json)
    ensures
        text_list(r) == Some(texts(v@)),
{
    let mut items: Vec<Json> = Vec::new();
    let mut i: usize = 0;
    while i < v.len()
        invariant
            i <= v@.len(),
            items@.len() == i,
            forall|k: int| 0 <= k < i ==> as_text(#[trigger] items@[k]) == Some(v@[k]@),
        decreases v.len() - i,
    {
        items.push(text_json(&v[i]));
        i = i + 1;
    }
    let r = Json::Array(items);
    assert(items@.map_values(|x: Json| as_text(x).unwrap()) =~= texts(v@));
    r
}

fn copy_texts(v: &Vec<String>) -> (r: Vec<String>)
    ensures
        r@ == v@,
{
    let mut out: Vec<String> = Vec::new();
    let mut i: usize = 0;
    while i < v.len()
        invariant
            i <= v@.len(),
            out@ == v@.subrange(0, i as int),
        decreases v.len() - i,
    {
        out.push(v[i].clone());
        assert(out@ =~= v@.subrange(0, i + 1));
        i = i + 1;
    }
    assert(v@.subrange(0, v@.len() as int) =~= v@);
    out
}

fn copy_text_opt(o: &Option<String>) -> (r: Option<String>)
    ensures
        r == *o,
{
    match o {
        Some(s) => Some(s.clone()),
        None => None,
    }
}

impl Board {
    /// A copy of the board.
    pub fn duplicate(&self) -> (r: Board)
        ensures
            r@ == self@,
    {
        Board { id: self.id, phid: self.phid.clone(), name: self.name.clone() }
    }

    /// The board as a JSON object with members `id`, `phid` and `name`.
    pub fn to_json(&self) -> (r: Json)
        ensures
            board_of_column(r) == Some(self@),
    {
        let mut members: Vec<(String, Json)> = Vec::new();
        members.push((String::from_str("id"), Json::UInt(self.id)));
        members.push((String::from_str("phid"), text_json(&self.phid)));
        members.push((String::from_str("name"), text_json(&self.name)));
        let r = Json::Object(members);
        proof {
            reveal_strlit("id");
            reveal_strlit("phid");
            reveal_strlit("name");
        }
        assert("name"@.len() == 4 && "name"@[0] == 'n');
        assert("phid"@.len() == 4 && "phid"@[0] == 'p');
        assert("id"@.len() == 2 && "id"@[0] == 'i');
        proof {
            lemma_lookup_at(members@, "id"@, 0);
            lemma_lookup_at(members@, "phid"@, 1);
            lemma_lookup_at(members@, "name"@, 2);
        }
        r
    }
}

fn opt_text_at(v: Option<&Json>) -> (r: Option<Option<String>>)
    ensures
        match r {
            Some(o) => opt_text_of(or_null(v)) == Some(text_opt(o)),
            None => opt_text_of(or_null(v)) is None,
        },
{
    match v {
        None => Some(None),
        Some(Json::Null) => Some(None),
        Some(Json::Str(s)) => Some(Some(s.clone())),
        _ => None,
    }
}

fn opt_uint_at(v: Option<&Json>) -> (r: Option<Option<u64>>)
    ensures
        r == opt_uint_of(or_null(v)),
{
    match v {
        None => Some(None),
        Some(Json::Null) => Some(None),
        Some(Json::UInt(n)) => Some(Some(*n)),
        _ => None,
    }
}

fn opt_board_at(v: Option<&Json>) -> (r: Option<Option<Board>>)
    ensures
        match r {
            Some(o) => opt_board_of(or_null(v)) == Some(board_opt(o)),
            None => opt_board_of(or_null(v)) is None,
        },
{
    match v {
        None => Some(None),
        Some(Json::Null) => Some(None),
        Some(_) => {
            let id = uint_at(child(v, "id"));
            let phid = text_at(child(v, "phid"));
            let name = text_at(child(v, "name"));
            match (id, phid, name) {
                (Some(id), Some(phid), Some(name)) => Some(Some(Board { id, phid, name })),
                _ => None,
            }
        },
    }
}

impl Task {
    /// Decodes a stored task object; `None` when a member is absent or has
    /// the wrong shape.
    pub fn from_stored_json(v: &Json) -> (r: Option<Task>)
        ensures
            match r {
                Some(t) => stored_task(*v) == Some(t@),
                None => stored_task(*v) is None,
            },
    {
        let root = Some(v);
        let id = match text_at(child(root, "id")) {
            Some(x) => x,
            None => return None,
        };
        let task_type = match text_at(child(root, "task_type")) {
            Some(x) => x,
            None => return None,
        };
        let phid = match text_at(child(root, "phid")) {
            Some(x) => x,
            None => return None,
        };
        let name = match text_at(child(root, "name")) {
            Some(x) => x,
            None => return None,
        };
        let description = match text_at(child(root, "description")) {
            Some(x) => x,
            None => return None,
        };
        let author_phid = match text_at(child(root, "author_phid")) {
            Some(x) => x,
            None => return None,
        };
        let assigned_phid = match opt_text_at(child(root, "assigned_phid")) {
            Some(x) => x,
            None => return None,
        };
        let status = match text_at(child(root, "status")) {
            Some(x) => x,
            None => return None,
        };
        let priority = match text_at(child(root, "priority")) {
            Some(x) => x,
            None => return None,
        };
        let point = match opt_uint_at(child(root, "point")) {
            Some(x) => x,
            None => return None,
        };
        let project_phids = match texts_at(child(root, "project_phids")) {
            Some(x) => x,
            None => return None,
        };
        let board = match opt_board_at(child(root, "board")) {
            Some(x) => x,
            None => return None,
        };
        let created_at = match uint_at(child(root, "created_at")) {
            Some(x) => x,
            None => return None,
        };
        let updated_at = match uint_at(child(root, "updated_at")) {
            Some(x) => x,
            None => return None,
        };
        Some(
            Task {
                id,
                task_type,
                phid,
                name,
                description,
                author_phid,
                assigned_phid,
                status,
                priority,
                point,
                project_phids,
                board,
                created_at,
                updated_at,
            },
        )
    }

    /// A copy of the task.
    pub fn duplicate(&self) -> (r: Task)
        ensures
            r@ == self@,
    {
        Task {
            id: self.id.clone(),
            task_type: self.task_type.clone(),
            phid: self.phid.clone(),
            name: self.name.clone(),
            description: self.description.clone(),
            author_phid: self.author_phid.clone(),
            assigned_phid: copy_text_opt(&self.assigned_phid),
            status: self.status.clone(),
            priority: self.priority.clone(),
            point: self.point,
            project_phids: copy_texts(&self.project_phids),
            board: match &self.board {
                Some(b) => Some(b.duplicate()),
                None => None,
            },
            created_at: self.created_at,
            updated_at: self.updated_at,
        }
    }

    /// The task as a JSON object with one member per field.
    pub fn to_json(&self) -> (r: Json)
        ensures
            stored_task(r) == Some(self@),
    {
        let board = match &self.board {
            Some(b) => b.to_json(),
            None => Json::Null,
        };
        let point = match self.point {
            Some(n) => Json::UInt(n),
            None => Json::Null,
        };
        let members: Vec<(String, Json)> = vec![
            keyed("id", text_json(&self.id)),
            keyed("task_type", text_json(&self.task_type)),
            keyed("phid", text_json(&self.phid)),
            keyed("name", text_json(&self.name)),
            keyed("description", text_json(&self.description)),
            keyed("author_phid", text_json(&self.author_phid)),
            keyed("assigned_phid", opt_text_json(&self.assigned_phid)),
            keyed("status", text_json(&self.status)),
            keyed("priority", text_json(&self.priority)),
            keyed("point", point),
            keyed("project_phids", texts_json(&self.project_phids)),
            keyed("board", board),
            keyed("created_at", Json::UInt(self.created_at)),
            keyed("updated_at", Json::UInt(self.updated_at)),
        ];
        let r = Json::Object(members);
        proof {
            let ks = members@;
            reveal_strlit("id");
            reveal_strlit("task_type");
            reveal_strlit("phid");
            reveal_strlit("name");
            reveal_strlit("description");
            reveal_strlit("author_phid");
            reveal_strlit("assigned_phid");
            reveal_strlit("status");
            reveal_strlit("priority");
            reveal_strlit("point");
            reveal_strlit("project_phids");
            reveal_strlit("board");
            reveal_strlit("created_at");
            reveal_strlit("updated_at");
            assert("id"@.len() == 2 && "id"@[0] == 'i');
            assert("task_type"@.len() == 9 && "task_type"@[0] == 't');
            assert("phid"@.len() == 4 && "phid"@[0] == 'p');
            assert("name"@.len() == 4 && "name"@[0] == 'n');
            assert("description"@.len() == 11 && "description"@[0] == 'd');
            assert("author_phid"@.len() == 11 && "author_phid"@[0] == 'a');
            assert("assigned_phid"@.len() == 13 && "assigned_phid"@[0] == 'a');
            assert("status"@.len() == 6 && "status"@[0] == 's');
            assert("priority"@.len() == 8 && "priority"@[0] == 'p');
            assert("point"@.len() == 5 && "point"@[0] == 'p');
            assert("project_phids"@.len() == 13 && "project_phids"@[0] == 'p');
            assert("board"@.len() == 5 && "board"@[0] == 'b');
            assert("created_at"@.len() == 10 && "created_at"@[0] == 'c');
            assert("updated_at"@.len() == 10 && "updated_at"@[0] == 'u');
            lemma_lookup_at(ks, "id"@, 0);
            lemma_lookup_at(ks, "task_type"@, 1);
            lemma_lookup_at(ks, "phid"@, 2);
            lemma_lookup_at(ks, "name"@, 3);
            lemma_lookup_at(ks, "description"@, 4);
            lemma_lookup_at(ks, "author_phid"@, 5);
            lemma_lookup_at(ks, "assigned_phid"@, 6);
            lemma_lookup_at(ks, "status"@, 7);
            lemma_lookup_at(ks, "priority"@, 8);
            lemma_lookup_at(ks, "point"@, 9);
            lemma_lookup_at(ks, "project_phids"@, 10);
            lemma_lookup_at(ks, "board"@, 11);
            lemma_lookup_at(ks, "created_at"@, 12);
            lemma_lookup_at(ks, "updated_at"@, 13);
        }
        r
    }
}

fn tasks_json(tasks: &Vec<Task>) -> (r: Json)
    ensures
        stored_tasks(r) == Some(task_views(tasks@)),
{
    let mut items: Vec<Json> = Vec::new();
    let mut i: usize = 0;
    while i < tasks.len()
        invariant
            i <= tasks@.len(),
            items@.len() == i,
            forall|k: int| 0 <= k < i ==> stored_task(#[trigger] items@[k]) == Some(tasks@[k]@),
        decreases tasks.len() - i,
    {
        items.push(tasks[i].to_json());
        i = i + 1;
    }
    assert(items@.map_values(|x: Json| stored_task(x)->0) =~= task_views(tasks@));
    Json::Array(items)
}

fn tasks_at(v: Option<&Json>) -> (r: Option<Vec<Task>>)
    ensures
        match r {
            Some(ts) => stored_tasks(or_null(v)) == Some(task_views(ts@)),
            None => stored_tasks(or_null(v)) is None,
        },
{
    match v {
        Some(Json::Array(items)) => {
            let mut out: Vec<Task> = Vec::new();
            let mut i: usize = 0;
            while i < items.len()
                invariant
                    i <= items@.len(),
                    or_null(v) == Json::Array(*items),
                    out@.len() == i,
                    forall|k: int|
                        0 <= k < i ==> stored_task(#[trigger] items@[k]) == Some(out@[k]@),
                decreases items.len() - i,
            {
                match Task::from_stored_json(&items[i]) {
                    Some(t) => out.push(t),
                    None => return None,
                }
                i = i + 1;
            }
            assert(items@.map_values(|x: Json| stored_task(x)->0) =~= task_views(out@));
            Some(out)
        },
        _ => None,
    }
}

pub fn copy_tasks(tasks: &Vec<Task>) -> (r: Vec<Task>)
    ensures
        task_views(r@) == task_views(tasks@),
{
    let mut out: Vec<Task> = Vec::new();
    let mut i: usize = 0;
    while i < tasks.len()
        invariant
            i <= tasks@.len(),
            out@.len() == i,
            forall|k: int| 0 <= k < i ==> (#[trigger] out@[k])@ == tasks@[k]@,
        decreases tasks.len() - i,
    {
        out.push(tasks[i].duplicate());
        i = i + 1;
    }
    assert(task_views(out@) =~= task_views(tasks@));
    out
}

impl Watchlist {
    /// A copy of the watchlist.
    pub fn duplicate(&self) -> (r: Watchlist)
        ensures
            r@ == self@,
    {
        Watchlist {
            id: copy_text_opt(&self.id),
            name: self.name.clone(),
            tasks: copy_tasks(&self.tasks),
        }
    }

    /// The watchlist as a JSON object with members `id`, `name` and `tasks`.
    pub fn to_json(&self) -> (r: Json)
        ensures
            stored_watchlist(r) == Some(self@),
    {
        let members: Vec<(String, Json)> = vec![
            keyed("id", opt_text_json(&self.id)),
            keyed("name", text_json(&self.name)),
            keyed("tasks", tasks_json(&self.tasks)),
        ];
        let r = Json::Object(members);
        proof {
            reveal_strlit("id");
            reveal_strlit("name");
            reveal_strlit("tasks");
            assert("id"@.len() == 2);
            assert("name"@.len() == 4 && "name"@[0] == 'n');
            assert("tasks"@.len() == 5);
            lemma_lookup_at(members@, "id"@, 0);
            lemma_lookup_at(members@, "name"@, 1);
            lemma_lookup_at(members@, "tasks"@, 2);
        }
        r
    }

    /// Decodes a stored watchlist object; `None` when a member is absent or
    /// has the wrong shape.
    pub fn from_stored_json(v: &Json) -> (r: Option<Watchlist>)
        ensures
            match r {
                Some(w) => stored_watchlist(*v) == Some(w@),
                None => stored_watchlist(*v) is None,
            },
    {
        let root = Some(v);
        let id = match opt_text_at(child(root, "id")) {
            Some(x) => x,
            None => return None,
        };
        let name = match text_at(child(root, "name")) {
            Some(x) => x,
            None => return None,
        };
        let tasks = match tasks_at(child(root, "tasks")) {
            Some(x) => x,
            None => return None,
        };
        Some(Watchlist { id, name, tasks })
    }
}

/// `j` is the stored form of the family `f`: an object whose `parent_task`
/// is the stored task and whose `children` is an array of the children's
/// stored forms, in order.
pub open spec fn stores_family(j: Json, f: TaskFamily) -> bool
    decreases f,
{
    &&& stored_task(member(j, "parent_task"@)) == Some(f.parent_task@)
    &&& member(j, "children"@) is Array
    &&& stores_families(member(j, "children"@)->Array_0@, f.children@)
}

/// Each of `js` is the stored form of the family at the same place in `fs`.
pub open spec fn stores_families(js: Seq<Json>, fs: Seq<TaskFamily>) -> bool
    decreases fs,
{
    &&& js.len() == fs.len()
    &&& (fs.len() == 0 || (stores_families(js.drop_last(), fs.drop_last()) && stores_family(
        js[js.len() - 1],
        fs[fs.len() - 1],
    )))
}

impl TaskFamily {
    /// The family as a JSON object with members `parent_task` and `children`.
    pub fn to_json(&self) -> (r: Json)
        ensures
            stores_family(r, *self),
        decreases self,
    {
        let mut children: Vec<Json> = Vec::new();
        let mut i: usize = 0;
        assert(self.children@.subrange(0, 0) =~= Seq::<TaskFamily>::empty());
        while i < self.children.len()
            invariant
                i <= self.children@.len(),
                stores_families(children@, self.children@.subrange(0, i as int)),
            decreases self.children.len() - i,
        {
            proof {
                broadcast use vstd::std_specs::vec::axiom_vec_index_decreases;

                assert(decreases_to!(*self => self.children));
                assert(decreases_to!(self.children => self.children[i as int]));
            }
            let ghost before = children@;
            children.push(self.children[i].to_json());
            proof {
                let fs = self.children@.subrange(0, i + 1);
                assert(fs.drop_last() =~= self.children@.subrange(0, i as int));
                assert(children@.drop_last() =~= before);
                assert(fs[fs.len() - 1] == self.children@[i as int]);
            }
            i = i + 1;
        }
        let ghost cs = children@;
        let members: Vec<(String, Json)> = vec![
            keyed("parent_task", self.parent_task.to_json()),
            keyed("children", Json::Array(children)),
        ];
        let r = Json::Object(members);
        proof {
            reveal_strlit("parent_task");
            reveal_strlit("children");
            assert("parent_task"@.len() == 11);
            assert("children"@.len() == 8);
            lemma_lookup_at(members@, "parent_task"@, 0);
            lemma_lookup_at(members@, "children"@, 1);
            assert(member(r, "children"@) == members@[1].1);
            assert(self.children@.subrange(0, self.children@.len() as int) =~= self.children@);
        }
        r
    }

    /// The families as a JSON array, in serde_json's compact text.
    pub fn json_string(task_families: &Vec<TaskFamily>) -> (r: String)
        ensures
            exists|j: Json|
                j is Array && stores_families(j->Array_0@, task_families@) && r@ == json_text(j),
    {
        let mut items: Vec<Json> = Vec::new();
        let mut i: usize = 0;
        assert(task_families@.subrange(0, 0) =~= Seq::<TaskFamily>::empty());
        while i < task_families.len()
            invariant
                i <= task_families@.len(),
                stores_families(items@, task_families@.subrange(0, i as int)),
            decreases task_families.len() - i,
        {
            let ghost before = items@;
            items.push(task_families[i].to_json());
            proof {
                let fs = task_families@.subrange(0, i + 1);
                assert(fs.drop_last() =~= task_families@.subrange(0, i as int));
                assert(items@.drop_last() =~= before);
                assert(fs[fs.len() - 1] == task_families@[i as int]);
            }
            i = i + 1;
        }
        assert(task_families@.subrange(0, task_families@.len() as int) =~= task_families@);
        let j = Json::Array(items);
        let r = j.render();
        assert(j is Array && stores_families(j->Array_0@, task_families@) && r@ == json_text(j));
        r
    }
}

} // verus!
