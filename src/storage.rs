//! The watchlist store: a table of watchlists keyed by the slug of their
//! names, held in memory, and the JSON document in which it is persisted,
//! `{"watchlists": {<slug>: <watchlist>, ...}}`. Reading and writing the file
//! that holds the document is the caller's: after opening, the caller hands the
//! file's text (or its absence) to `reload`, and after each change writes
//! `document_text` back.

use vstd::prelude::*;
use vstd::string::*;
use crate::dto::{Task, TaskView, Watchlist, child, task_views};
use crate::json::{Json, member, json_text, parsed_document};
use crate::stored::{WatchlistView, stored_watchlist, copy_tasks, lemma_lookup_at};
use crate::text::same_text;

verus! {

/// The slug that slugify makes of a name.
pub uninterp spec fn slug_of(name: Seq<char>) -> Seq<char>;

/// Relies on slugify::slugify with no stop words, `-` as separator and no
/// length bound, which is what `slugify!(name)` expands to: a URL-safe slug
/// that depends on the name alone.
#[verifier::external_body]
fn slugify_name(name: &str) -> (r: String)
    ensures
        r@ == slug_of(name@),
{
    slugify::slugify(name, "", "-", None)
}

/// A table of watchlists: each entry a key and the watchlist stored under it.
pub type TableView = Seq<(Seq<char>, WatchlistView)>;

pub open spec fn keys_unique(t: TableView) -> bool {
    forall|i: int, j: int| 0 <= i < j < t.len() ==> (#[trigger] t[i]).0 != (#[trigger] t[j]).0
}

/// The watchlist stored under `key`.
pub open spec fn table_get(t: TableView, key: Seq<char>) -> Option<WatchlistView>
    decreases t.len(),
{
    if t.len() == 0 {
        None
    } else if t[0].0 == key {
        Some(t[0].1)
    } else {
        table_get(t.drop_first(), key)
    }
}

/// The table with `w` stored under `key`: in place of the watchlist already
/// there, or added at the end.
pub open spec fn table_put(t: TableView, key: Seq<char>, w: WatchlistView) -> TableView {
    if exists|i: int| 0 <= i < t.len() && (#[trigger] t[i]).0 == key {
        let i = choose|i: int| 0 <= i < t.len() && (#[trigger] t[i]).0 == key;
        t.update(i, (key, w))
    } else {
        t.push((key, w))
    }
}

/// The table with `task` added at the end of the watchlist under `key`.
pub open spec fn table_add_task(t: TableView, key: Seq<char>, task: TaskView) -> TableView {
    let i = choose|i: int| 0 <= i < t.len() && (#[trigger] t[i]).0 == key;
    t.update(i, (key, WatchlistView { tasks: t[i].1.tasks.push(task), ..t[i].1 }))
}

pub open spec fn table_view(entries: Seq<(String, Watchlist)>) -> TableView {
    entries.map_values(|e: (String, Watchlist)| (e.0@, e.1@))
}

pub open spec fn member_keys_unique(entries: Seq<(String, Json)>) -> bool {
    forall|i: int, j: int|
        0 <= i < j < entries.len() ==> (#[trigger] entries[i]).0@ != (#[trigger] entries[j]).0@
}

/// The table that a stored document describes: the members of its
/// `watchlists` object, each a well-formed watchlist, under distinct keys.
pub open spec fn stored_table(doc: Json) -> Option<TableView> {
    match member(doc, "watchlists"@) {
        Json::Object(entries) => if (forall|i: int|
            0 <= i < entries@.len() ==> (#[trigger] stored_watchlist(entries@[i].1)) is Some)
            && member_keys_unique(entries@) {
            Some(
                entries@.map_values(
                    |e: (String, Json)| (e.0@, stored_watchlist(e.1)->0),
                ),
            )
        } else {
            None
        },
        _ => None,
    }
}

#[derive(Debug, Clone, PartialEq, Eq)]
pub enum PhabStorageFilesystemError {
    QueryError { message: String },
    DecodeError { message: String },
}

fn decode_error() -> (r: PhabStorageFilesystemError)
    ensures
        r is DecodeError,
{
    PhabStorageFilesystemError::DecodeError {
        message: String::from_str("the document holds no well-formed watchlist table"),
    }
}

impl PhabStorageFilesystemError {
    pub fn query_error(message: &str) -> (r: PhabStorageFilesystemError)
        ensures
            r matches PhabStorageFilesystemError::QueryError { message: m } && m@ == message@,
    {
        PhabStorageFilesystemError::QueryError { message: String::from_str(message) }
    }
}

/// The operations of a watchlist store, which keep the store's invariant.
pub trait PhabStorage: Sized {
    spec fn inv(&self) -> bool;

    fn add_to_watchlist(&mut self, watchlist_id: &str, task: &Task) -> (r: Result<
        (),
        PhabStorageFilesystemError,
    >)
        requires
            old(self).inv(),
        ensures
            final(self).inv(),
    ;

    fn create_watchlist(&mut self, watchlist: &Watchlist) -> (r: Watchlist)
        requires
            old(self).inv(),
        ensures
            final(self).inv(),
    ;

    fn get_watchlists(&self) -> Vec<Watchlist>;

    fn get_watchlist_by_id(&self, watchlist_id: &str) -> Option<Watchlist>
        requires
            self.inv(),
    ;
}

/// A watchlist store backed by the JSON document in the file at `filepath`.
pub struct PhabStorageFilesystem {
    filepath: String,
    db_content: Vec<(String, Watchlist)>,
}

impl View for PhabStorageFilesystem {
    type V = TableView;

    closed spec fn view(&self) -> TableView {
        table_view(self.db_content@)
    }
}

fn find_key(entries: &Vec<(String, Watchlist)>, key: &str) -> (r: Option<usize>)
    ensures
        match r {
            Some(i) => i < entries@.len() && table_view(entries@)[i as int].0 == key@,
            None => forall|i: int|
                0 <= i < entries@.len() ==> (#[trigger] table_view(entries@)[i]).0 != key@,
        },
{
    let mut i: usize = 0;
    while i < entries.len()
        invariant
            i <= entries@.len(),
            forall|k: int| 0 <= k < i ==> (#[trigger] table_view(entries@)[k]).0 != key@,
        decreases entries.len() - i,
    {
        if same_text(entries[i].0.as_str(), key) {
            return Some(i);
        }
        i = i + 1;
    }
    None
}

pub proof fn lemma_table_get_at(t: TableView, key: Seq<char>, i: int)
    requires
        0 <= i < t.len(),
        t[i].0 == key,
        keys_unique(t),
    ensures
        table_get(t, key) == Some(t[i].1),
    decreases i,
{
    if i > 0 {
        assert(t[0].0 != key);
        assert(keys_unique(t.drop_first())) by {
            assert forall|a: int, b: int| 0 <= a < b < t.drop_first().len() implies (
            #[trigger] t.drop_first()[a]).0 != (#[trigger] t.drop_first()[b]).0 by {
                assert(t.drop_first()[a] == t[a + 1]);
                assert(t.drop_first()[b] == t[b + 1]);
            }
        }
        lemma_table_get_at(t.drop_first(), key, i - 1);
    }
}

pub proof fn lemma_table_get_absent(t: TableView, key: Seq<char>)
    requires
        forall|i: int| 0 <= i < t.len() ==> (#[trigger] t[i]).0 != key,
    ensures
        table_get(t, key) is None,
    decreases t.len(),
{
    if t.len() > 0 {
        assert(t[0].0 != key);
        assert forall|i: int| 0 <= i < t.drop_first().len() implies (
        #[trigger] t.drop_first()[i]).0 != key by {
            assert(t.drop_first()[i] == t[i + 1]);
        }
        lemma_table_get_absent(t.drop_first(), key);
    }
}

/// After a watchlist is stored under a key, looking that key up finds it, and
/// keys stay unique.
pub proof fn lemma_put_then_get(t: TableView, key: Seq<char>, w: WatchlistView)
    requires
        keys_unique(t),
    ensures
        keys_unique(table_put(t, key, w)),
        table_get(table_put(t, key, w), key) == Some(w),
{
    let t2 = table_put(t, key, w);
    if exists|i: int| 0 <= i < t.len() && (#[trigger] t[i]).0 == key {
        let i = choose|i: int| 0 <= i < t.len() && (#[trigger] t[i]).0 == key;
        assert(keys_unique(t2)) by {
            assert forall|a: int, b: int| 0 <= a < b < t2.len() implies (#[trigger] t2[a]).0 != (
            #[trigger] t2[b]).0 by {
                assert(t[a].0 != t[b].0);
            }
        }
        lemma_table_get_at(t2, key, i);
    } else {
        assert(keys_unique(t2)) by {
            assert forall|a: int, b: int| 0 <= a < b < t2.len() implies (#[trigger] t2[a]).0 != (
            #[trigger] t2[b]).0 by {
                if b < t.len() {
                    assert(t[a].0 != t[b].0);
                } else {
                    assert(t2[a] == t[a]);
                }
            }
        }
        lemma_table_get_at(t2, key, t.len() as int);
    }
}

/// After a task is added to the watchlist under a key, that watchlist holds
/// its earlier tasks followed by the new one, in the order they were added.
pub proof fn lemma_add_then_get(t: TableView, key: Seq<char>, task: TaskView)
    requires
        keys_unique(t),
        table_get(t, key) is Some,
    ensures
        table_get(table_add_task(t, key, task), key) == Some(
            WatchlistView { tasks: table_get(t, key)->0.tasks.push(task), ..table_get(t, key)->0 },
        ),
{
    if forall|i: int| 0 <= i < t.len() ==> (#[trigger] t[i]).0 != key {
        lemma_table_get_absent(t, key);
    }
    let i = choose|i: int| 0 <= i < t.len() && (#[trigger] t[i]).0 == key;
    lemma_table_get_at(t, key, i);
    let t2 = table_add_task(t, key, task);
    assert(keys_unique(t2)) by {
        assert forall|a: int, b: int| 0 <= a < b < t2.len() implies (#[trigger] t2[a]).0 != (
        #[trigger] t2[b]).0 by {
            assert(t[a].0 != t[b].0);
        }
    }
    lemma_table_get_at(t2, key, i);
}

impl PhabStorageFilesystem {
    /// Keys are unique.
    pub open spec fn wf(&self) -> bool {
        keys_unique(self@)
    }

    /// The path of the file that holds the store's document.
    pub closed spec fn file_path(&self) -> Seq<char> {
        self.filepath@
    }

    pub fn filepath(&self) -> (r: &String)
        ensures
            r@ == self.file_path(),
    {
        &self.filepath
    }

    /// A store for the file at `filepath`, with an empty table until the
    /// file's document is loaded.
    pub fn new(filepath: &str) -> (r: PhabStorageFilesystem)
        ensures
            r.file_path() == filepath@,
            r@ == Seq::<(Seq<char>, WatchlistView)>::empty(),
            r.wf(),
    {
        let r = PhabStorageFilesystem { filepath: String::from_str(filepath), db_content: Vec::new() };
        assert(r@ =~= Seq::<(Seq<char>, WatchlistView)>::empty());
        r
    }

    /// The table of watchlists, keyed by slug.
    pub fn watchlist_table(&self) -> (r: &Vec<(String, Watchlist)>)
        ensures
            table_view(r@) == self@,
    {
        &self.db_content
    }

    /// Stores a copy of `watchlist` under the slug of its name, with that slug
    /// as its id, in place of any watchlist already stored under it; returns
    /// the stored copy.
    pub fn create_watchlist(&mut self, watchlist: &Watchlist) -> (r: Watchlist)
        requires
            old(self).wf(),
        ensures
            final(self).wf(),
            r@ == (WatchlistView {
                id: Some(slug_of(watchlist.name@)),
                name: watchlist.name@,
                tasks: watchlist@.tasks,
            }),
            final(self)@ == table_put(old(self)@, slug_of(watchlist.name@), r@),
            table_get(final(self)@, slug_of(watchlist.name@)) == Some(r@),
            final(self).file_path() == old(self).file_path(),
    {
        let key = slugify_name(watchlist.name.as_str());
        let stored = Watchlist {
            id: Some(key.clone()),
            name: watchlist.name.clone(),
            tasks: copy_tasks(&watchlist.tasks),
        };
        let r = stored.duplicate();
        let ghost before = self@;
        let ghost entry = (key@, stored@);
        match find_key(&self.db_content, key.as_str()) {
            Some(i) => {
                self.db_content[i] = (key, stored);
                proof {
                    assert(before[i as int].0 == key@);
                    assert(table_put(before, key@, r@) == before.update(i as int, entry)) by {
                        let j = choose|j: int| 0 <= j < before.len() && (#[trigger] before[j]).0
                            == key@;
                        assert(j == i as int);
                    }
                    assert(self@ =~= before.update(i as int, entry));
                }
            },
            None => {
                self.db_content.push((key, stored));
                assert(self@ =~= before.push(entry));
            },
        }
        proof {
            lemma_put_then_get(before, key@, r@);
        }
        r
    }

    /// Adds a copy of `task` at the end of the watchlist stored under
    /// `watchlist_id`; an error when there is none.
    pub fn add_to_watchlist(&mut self, watchlist_id: &str, task: &Task) -> (r: Result<
        (),
        PhabStorageFilesystemError,
    >)
        requires
            old(self).wf(),
        ensures
            final(self).wf(),
            final(self).file_path() == old(self).file_path(),
            r is Ok <==> table_get(old(self)@, watchlist_id@) is Some,
            r is Ok ==> final(self)@ == table_add_task(old(self)@, watchlist_id@, task@),
            r is Err ==> final(self)@ == old(self)@ && r->Err_0 is QueryError,
    {
        let ghost before = self@;
        match find_key(&self.db_content, watchlist_id) {
            Some(i) => {
                proof {
                    lemma_table_get_at(before, watchlist_id@, i as int);
                }
                let copy = task.duplicate();
                let ghost old_entries = self.db_content@;
                let ghost copied = copy;
                self.db_content[i].1.tasks.push(copy);
                proof {
                    let e = self.db_content@[i as int];
                    let o = old_entries[i as int];
                    assert(self.db_content@ =~= old_entries.update(i as int, e));
                    assert(e.1.tasks@ == o.1.tasks@.push(copied));
                    assert(e.0 == o.0 && e.1.id == o.1.id && e.1.name == o.1.name);
                    assert(task_views(e.1.tasks@) =~= task_views(o.1.tasks@).push(task@));
                    let j = choose|j: int| 0 <= j < before.len() && (#[trigger] before[j]).0
                        == watchlist_id@;
                    assert(j == i as int);
                    assert(self@ =~= table_add_task(before, watchlist_id@, task@));
                }
                Ok(())
            },
            None => {
                proof {
                    lemma_table_get_absent(before, watchlist_id@);
                }
                let mut message = String::from_str("Watchlist not found: ");
                message.append(watchlist_id);
                Err(PhabStorageFilesystemError::QueryError { message })
            },
        }
    }

    /// The document in which the store is persisted; decoding it gives back
    /// the table exactly.
    pub fn to_document(&self) -> (r: Json)
        requires
            self.wf(),
        ensures
            stored_table(r) == Some(self@),
    {
        let mut entries: Vec<(String, Json)> = Vec::new();
        let mut i: usize = 0;
        while i < self.db_content.len()
            invariant
                i <= self.db_content@.len(),
                keys_unique(self@),
                entries@.len() == i,
                forall|k: int|
                    0 <= k < i ==> (#[trigger] entries@[k]).0@ == self@[k].0 && stored_watchlist(
                        entries@[k].1,
                    ) == Some(self@[k].1),
            decreases self.db_content.len() - i,
        {
            let (key, w) = &self.db_content[i];
            entries.push((key.clone(), w.to_json()));
            i = i + 1;
        }
        let ghost es = entries@;
        let table = Json::Object(entries);
        let members: Vec<(String, Json)> = vec![(String::from_str("watchlists"), table)];
        let r = Json::Object(members);
        proof {
            lemma_lookup_at(members@, "watchlists"@, 0);
            assert(member_keys_unique(es)) by {
                assert forall|a: int, b: int| 0 <= a < b < es.len() implies (#[trigger] es[a]).0@
                    != (#[trigger] es[b]).0@ by {
                    assert(self@[a].0 != self@[b].0);
                }
            }
            assert(es.map_values(|e: (String, Json)| (e.0@, stored_watchlist(e.1)->0)) =~= self@);
        }
        r
    }

    /// The text of the document in which the store is persisted, as
    /// serde_json writes it.
    pub fn document_text(&self) -> (r: String)
        requires
            self.wf(),
        ensures
            exists|d: Json| stored_table(d) == Some(self@) && r@ == json_text(d),
    {
        self.to_document().render()
    }

    /// Replaces the table with the one that `doc` describes; an error, with
    /// the table unchanged, when `doc` describes none.
    pub fn load_document(&mut self, doc: &Json) -> (r: Result<(), PhabStorageFilesystemError>)
        ensures
            final(self).file_path() == old(self).file_path(),
            r is Ok <==> stored_table(*doc) is Some,
            r is Ok ==> final(self)@ == stored_table(*doc)->0 && final(self).wf(),
            r is Err ==> final(self)@ == old(self)@ && r->Err_0 is DecodeError,
    {
        let entries = match child(Some(doc), "watchlists") {
            Some(Json::Object(entries)) => entries,
            _ => return Err(decode_error()),
        };
        let mut table: Vec<(String, Watchlist)> = Vec::new();
        let mut i: usize = 0;
        while i < entries.len()
            invariant
                i <= entries@.len(),
                member(*doc, "watchlists"@) == Json::Object(*entries),
                table@.len() == i,
                forall|k: int|
                    0 <= k < i ==> (#[trigger] table_view(table@)[k]).0 == entries@[k].0@
                        && stored_watchlist(entries@[k].1) == Some(table_view(table@)[k].1),
                member_keys_unique(entries@.subrange(0, i as int)),
            decreases entries.len() - i,
        {
            let key = &entries[i].0;
            let value = &entries[i].1;
            if find_key(&table, key.as_str()).is_some() {
                proof {
                    let k = choose|k: int|
                        0 <= k < i && (#[trigger] table_view(table@)[k]).0 == key@;
                    assert(entries@[k].0@ == entries@[i as int].0@);
                }
                return Err(decode_error());
            }
            let w = match Watchlist::from_stored_json(value) {
                Some(w) => w,
                None => return Err(decode_error()),
            };
            let ghost wv = w@;
            let ghost old_table = table@;
            assert(forall|k: int|
                0 <= k < old_table.len() ==> (#[trigger] table_view(old_table)[k]).0 != key@);
            table.push((key.clone(), w));
            proof {
                assert(forall|k: int|
                    0 <= k < old_table.len() ==> table_view(table@)[k] == table_view(old_table)[k]);
                assert(table_view(table@)[i as int] == (entries@[i as int].0@, wv));
                assert(stored_watchlist(entries@[i as int].1) == Some(wv));
                assert forall|k: int| 0 <= k < i + 1 implies (#[trigger] table_view(table@)[k]).0
                    == entries@[k].0@ && stored_watchlist(entries@[k].1) == Some(
                    table_view(table@)[k].1,
                ) by {
                    if k < i {
                        assert(table_view(old_table)[k].0 == entries@[k].0@);
                    }
                }
                let pre = entries@.subrange(0, i + 1);
                assert forall|a: int, b: int| 0 <= a < b < pre.len() implies (#[trigger] pre[a]).0@
                    != (#[trigger] pre[b]).0@ by {
                    assert(pre[a] == entries@[a]);
                    assert(pre[b] == entries@[b]);
                    if b < i {
                        assert(entries@.subrange(0, i as int)[a] == entries@[a]);
                        assert(entries@.subrange(0, i as int)[b] == entries@[b]);
                    } else {
                        assert(table_view(old_table)[a].0 == entries@[a].0@);
                        assert(table_view(old_table)[a].0 != key@);
                    }
                }
            }
            i = i + 1;
        }
        proof {
            assert(entries@.subrange(0, entries@.len() as int) =~= entries@);
            assert(member_keys_unique(entries@));
            assert forall|k: int| 0 <= k < entries@.len() implies (#[trigger] stored_watchlist(
                entries@[k].1,
            )) is Some by {
                assert(table_view(table@)[k].0 == entries@[k].0@);
            }
            assert(entries@.map_values(|e: (String, Json)| (e.0@, stored_watchlist(e.1)->0))
                =~= table_view(table@));
            assert(keys_unique(table_view(table@))) by {
                assert forall|a: int, b: int|
                    0 <= a < b < table_view(table@).len() implies (#[trigger] table_view(
                    table@,
                )[a]).0 != (#[trigger] table_view(table@)[b]).0 by {
                    assert(entries@[a].0@ != entries@[b].0@);
                }
            }
        }
        self.db_content = table;
        Ok(())
    }

    /// Brings the table in line with the store's file: `None` when the file
    /// does not exist yet, which keeps the table as it is (the caller then
    /// writes `document_text` out), or the file's text, whose document then
    /// replaces the table. Text that serde_json cannot read, or whose document
    /// describes no table, is an error and leaves the table unchanged.
    pub fn reload(&mut self, content: Option<&str>) -> (r: Result<(), PhabStorageFilesystemError>)
        requires
            old(self).wf(),
        ensures
            final(self).wf(),
            final(self).file_path() == old(self).file_path(),
            content is None ==> r is Ok && final(self)@ == old(self)@,
            r is Err ==> final(self)@ == old(self)@ && r->Err_0 is DecodeError,
            content matches Some(t) ==> match parsed_document(t@) {
                Err(_) => r is Err,
                Ok(doc) => (r is Ok <==> stored_table(doc) is Some) && (r is Ok ==> final(self)@
                    == stored_table(doc)->0),
            },
    {
        match content {
            None => Ok(()),
            Some(text) => match Json::parse(text) {
                Ok(doc) => self.load_document(&doc),
                Err(message) => Err(PhabStorageFilesystemError::DecodeError { message }),
            },
        }
    }

    /// Copies of every stored watchlist, in table order.
    pub fn get_watchlists(&self) -> (r: Vec<Watchlist>)
        ensures
            r@.len() == self@.len(),
            forall|i: int| 0 <= i < self@.len() ==> (#[trigger] r@[i])@ == self@[i].1,
    {
        let mut out: Vec<Watchlist> = Vec::new();
        let mut i: usize = 0;
        while i < self.db_content.len()
            invariant
                i <= self.db_content@.len(),
                out@.len() == i,
                forall|k: int| 0 <= k < i ==> (#[trigger] out@[k])@ == self@[k].1,
            decreases self.db_content.len() - i,
        {
            out.push(self.db_content[i].1.duplicate());
            i = i + 1;
        }
        out
    }

    /// A copy of the watchlist stored under `watchlist_id`, if any.
    pub fn get_watchlist_by_id(&self, watchlist_id: &str) -> (r: Option<Watchlist>)
        requires
            self.wf(),
        ensures
            match r {
                Some(w) => table_get(self@, watchlist_id@) == Some(w@),
                None => table_get(self@, watchlist_id@) is None,
            },
    {
        match find_key(&self.db_content, watchlist_id) {
            Some(i) => {
                proof {
                    lemma_table_get_at(self@, watchlist_id@, i as int);
                }
                Some(self.db_content[i].1.duplicate())
            },
            None => {
                proof {
                    lemma_table_get_absent(self@, watchlist_id@);
                }
                None
            },
        }
    }
}

impl PhabStorage for PhabStorageFilesystem {
    closed spec fn inv(&self) -> bool {
        self.wf()
    }

    fn add_to_watchlist(&mut self, watchlist_id: &str, task: &Task) -> (r: Result<
        (),
        PhabStorageFilesystemError,
    >) {
        PhabStorageFilesystem::add_to_watchlist(self, watchlist_id, task)
    }

    fn create_watchlist(&mut self, watchlist: &Watchlist) -> (r: Watchlist) {
        PhabStorageFilesystem::create_watchlist(self, watchlist)
    }

    fn get_watchlists(&self) -> Vec<Watchlist> {
        PhabStorageFilesystem::get_watchlists(self)
    }

    fn get_watchlist_by_id(&self, watchlist_id: &str) -> Option<Watchlist> {
        PhabStorageFilesystem::get_watchlist_by_id(self, watchlist_id)
    }
}

} // verus!
