//! The tree view of task families: one line per task, children indented two
//! spaces deeper than their parent, tasks whose status is `invalid` left out
//! together with their subtrees.

use vstd::prelude::*;
use vstd::string::*;
use crate::dto::{BoardView, Task, TaskFamily, TaskView};
use crate::text::{decimal, decimal_string, same_text};

verus! {

pub open spec fn board_name(b: Option<BoardView>) -> Seq<char> {
    match b {
        Some(b) => b.name,
        None => "NoBoard"@,
    }
}

pub open spec fn point_or_zero(p: Option<u64>) -> nat {
    match p {
        Some(p) => p as nat,
        None => 0,
    }
}

/// `[T<id> <status> - <board> point: <points>] <name>` after `indent`.
pub open spec fn task_line(t: TaskView, indent: Seq<char>) -> Seq<char> {
    indent + "[T"@ + t.id + " "@ + t.status + " - "@ + board_name(t.board) + " point: "@ + decimal(
        point_or_zero(t.point),
    ) + "] "@ + t.name
}

/// The lines of a forest, each family's after the previous one's.
pub open spec fn forest_lines(fams: Seq<TaskFamily>, indent: Seq<char>) -> Seq<Seq<char>>
    decreases fams,
{
    if fams.len() == 0 {
        seq![]
    } else {
        forest_lines(fams.drop_last(), indent) + family_lines(fams.last(), indent)
    }
}

/// The lines of one family: none when its task is invalid, else the task's
/// line followed by its children's, indented two more spaces.
pub open spec fn family_lines(f: TaskFamily, indent: Seq<char>) -> Seq<Seq<char>>
    decreases f,
{
    if f.parent_task.status@ == "invalid"@ {
        seq![]
    } else {
        seq![task_line(f.parent_task@, indent)] + forest_lines(f.children@, indent + "  "@)
    }
}

/// `n` spaces.
pub open spec fn spaces(n: nat) -> Seq<char> {
    Seq::new(n, |i: int| ' ')
}

pub open spec fn line_views(v: Seq<String>) -> Seq<Seq<char>> {
    v.map_values(|s: String| s@)
}

fn render_task_line(t: &Task, indent: &String) -> (r: String)
    ensures
        r@ == task_line(t@, indent@),
{
    let mut s = indent.clone();
    s.append("[T");
    s.append(t.id.as_str());
    s.append(" ");
    s.append(t.status.as_str());
    s.append(" - ");
    match &t.board {
        Some(b) => s.append(b.name.as_str()),
        None => s.append("NoBoard"),
    }
    s.append(" point: ");
    let p: u64 = match t.point {
        Some(p) => p,
        None => 0,
    };
    s.append(decimal_string(p).as_str());
    s.append("] ");
    s.append(t.name.as_str());
    s
}

fn push_family_lines(f: &TaskFamily, indent: &String, out: &mut Vec<String>)
    ensures
        line_views(final(out)@) == line_views(old(out)@) + family_lines(*f, indent@),
    decreases f,
{
    let ghost start = line_views(out@);
    if same_text(f.parent_task.status.as_str(), "invalid") {
        assert(line_views(out@) =~= start + family_lines(*f, indent@));
        return;
    }
    out.push(render_task_line(&f.parent_task, indent));
    assert(line_views(out@) =~= start + seq![task_line(f.parent_task@, indent@)]);
    let mut deeper = indent.clone();
    deeper.append("  ");
    proof {
        assert(decreases_to!(*f => f.children));
    }
    push_forest_lines(&f.children, &deeper, out);
    assert(line_views(out@) =~= start + family_lines(*f, indent@));
}

fn push_forest_lines(fams: &Vec<TaskFamily>, indent: &String, out: &mut Vec<String>)
    ensures
        line_views(final(out)@) == line_views(old(out)@) + forest_lines(fams@, indent@),
    decreases fams,
{
    let ghost start = line_views(out@);
    let mut i: usize = 0;
    assert(fams@.subrange(0, 0) =~= Seq::<TaskFamily>::empty());
    assert(start + forest_lines(fams@.subrange(0, 0), indent@) =~= start);
    while i < fams.len()
        invariant
            i <= fams@.len(),
            line_views(out@) == start + forest_lines(fams@.subrange(0, i as int), indent@),
        decreases fams.len() - i,
    {
        proof {
            broadcast use vstd::std_specs::vec::axiom_vec_index_decreases;

            assert(decreases_to!(*fams => fams[i as int]));
        }
        push_family_lines(&fams[i], indent, out);
        assert(fams@.subrange(0, i + 1).drop_last() =~= fams@.subrange(0, i as int));
        assert(line_views(out@) =~= start + forest_lines(fams@.subrange(0, i + 1), indent@));
        i = i + 1;
    }
    assert(fams@.subrange(0, fams@.len() as int) =~= fams@);
}

/// The lines of the tree view of `task_families`, starting at
/// `indentation_level` (two spaces per level).
pub fn task_tree_lines(task_families: &Vec<TaskFamily>, indentation_level: usize) -> (r: Vec<
    String,
>)
    ensures
        line_views(r@) == forest_lines(task_families@, spaces(2 * indentation_level as nat)),
{
    let mut indent = String::new();
    let mut i: usize = 0;
    while i < indentation_level
        invariant
            i <= indentation_level,
            indent@ == spaces(2 * i as nat),
        decreases indentation_level - i,
    {
        indent.append("  ");
        proof {
            reveal_strlit("  ");
        }
        assert(indent@ =~= spaces(2 * (i + 1) as nat));
        i = i + 1;
    }
    let mut out: Vec<String> = Vec::new();
    push_forest_lines(task_families, &indent, &mut out);
    assert(line_views(out@) =~= forest_lines(task_families@, indent@));
    out
}

} // verus!
