use vstd::prelude::*;

use crate::checklist::{CheckState, Checklist, ChecklistItem, ChecklistView, ItemView};

verus! {

/// The marker shown for each status.
pub open spec fn status_text(s: CheckState) -> Seq<char> {
    match s {
        CheckState::Unchecked => "[ ] (Unchecked)"@,
        CheckState::Checked => "[x] (Checked)"@,
        CheckState::Skipped => "[-] (skipped)"@,
    }
}

/// The comment as shown: its text, or a dash when there is none.
pub open spec fn comment_text(c: Option<Seq<char>>) -> Seq<char> {
    match c {
        Some(t) => t,
        None => "-"@,
    }
}

/// The block that shows one item, one field per line.
pub open spec fn item_text(v: ItemView) -> Seq<char> {
    "name: "@ + v.name + "\n"@
        + "description: "@ + v.desc + "\n"@
        + "status: "@ + status_text(v.status) + "\n"@
        + "comment: "@ + comment_text(v.comment) + "\n"@
}

/// The line that stands for one item in the list view.
pub open spec fn list_line(v: ItemView) -> Seq<char> {
    "\tname: "@ + v.name + " -> "@ + status_text(v.status) + "\n"@
}

/// The lines of all items, in order.
pub open spec fn list_lines(items: Seq<ItemView>) -> Seq<char>
    decreases items.len(),
{
    if items.len() == 0 {
        Seq::empty()
    } else {
        list_lines(items.drop_last()) + list_line(items.last())
    }
}

/// The list view: a header with the checklist's name, then one line per item.
pub open spec fn list_text(c: ChecklistView) -> Seq<char> {
    "checklist name: "@ + c.name + "\n\n"@ + list_lines(c.items)
}

/// Renders a status marker.
pub fn render_status(s: CheckState) -> (r: String)
    ensures
        r@ == status_text(s),
{
    match s {
        CheckState::Unchecked => String::from_str("[ ] (Unchecked)"),
        CheckState::Checked => String::from_str("[x] (Checked)"),
        CheckState::Skipped => String::from_str("[-] (skipped)"),
    }
}

/// Renders one item as a block of four lines.
pub fn render_item(item: &ChecklistItem) -> (r: String)
    ensures
        r@ == item_text(item@),
{
    let mut s = String::from_str("name: ");
    s.append(item.name.as_str());
    s.append("\ndescription: ");
    s.append(item.desc.as_str());
    s.append("\nstatus: ");
    let st = render_status(item.status);
    s.append(st.as_str());
    s.append("\ncomment: ");
    match &item.comment {
        Some(c) => s.append(c.as_str()),
        None => s.append("-"),
    }
    s.append("\n");
    proof {
        reveal_strlit("\n");
        reveal_strlit("\ndescription: ");
        reveal_strlit("description: ");
        reveal_strlit("\nstatus: ");
        reveal_strlit("status: ");
        reveal_strlit("\ncomment: ");
        reveal_strlit("comment: ");
        assert(s@ =~= item_text(item@));
    }
    s
}

/// Renders the list view of a whole checklist.
pub fn render_list(c: &Checklist) -> (r: String)
    ensures
        r@ == list_text(c@),
{
    let mut s = String::from_str("checklist name: ");
    s.append(c.name.as_str());
    s.append("\n\n");
    let ghost head = s@;
    let mut i: usize = 0;
    while i < c.list.len()
        invariant
            i <= c.list@.len(),
            s@ == head + list_lines(c@.items.take(i as int)),
        decreases c.list@.len() - i,
    {
        let item = &c.list[i];
        s.append("\tname: ");
        s.append(item.name.as_str());
        s.append(" -> ");
        let st = render_status(item.status);
        s.append(st.as_str());
        s.append("\n");
        proof {
            let t = c@.items.take(i + 1);
            assert(t.drop_last() =~= c@.items.take(i as int));
            assert(t.last() == item@);
            assert(s@ =~= head + list_lines(t));
        }
        i = i + 1;
    }
    assert(c@.items.take(i as int) =~= c@.items);
    s
}

} // verus!
