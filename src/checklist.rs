use vstd::prelude::*;

verus! {

/// The state of one item of a checklist.
#[derive(Debug, Clone, Copy, PartialEq, Eq, Structural)]
pub enum CheckState {
    Unchecked,
    Checked,
    Skipped,
}

/// The mathematical model of a [`ChecklistItem`].
pub struct ItemView {
    pub name: Seq<char>,
    pub desc: Seq<char>,
    pub status: CheckState,
    pub comment: Option<Seq<char>>,
}

/// The mathematical model of a [`Checklist`].
pub struct ChecklistView {
    pub name: Seq<char>,
    pub items: Seq<ItemView>,
}

/// One step of a checklist: what to do, how far it got, and an optional note.
#[derive(Debug, PartialEq, Eq)]
pub struct ChecklistItem {
    pub name: String,
    pub desc: String,
    pub status: CheckState,
    pub comment: Option<String>,
}

/// A named, ordered list of items.
#[derive(Debug, PartialEq, Eq)]
pub struct Checklist {
    pub name: String,
    pub list: Vec<ChecklistItem>,
}

pub open spec fn opt_view(o: Option<String>) -> Option<Seq<char>> {
    match o {
        Some(s) => Some(s@),
        None => None,
    }
}

/// The models of a sequence of items, in order.
pub open spec fn item_views(v: Seq<ChecklistItem>) -> Seq<ItemView> {
    v.map_values(|i: ChecklistItem| i@)
}

impl View for ChecklistItem {
    type V = ItemView;

    open spec fn view(&self) -> ItemView {
        ItemView {
            name: self.name@,
            desc: self.desc@,
            status: self.status,
            comment: opt_view(self.comment),
        }
    }
}

impl View for Checklist {
    type V = ChecklistView;

    open spec fn view(&self) -> ChecklistView {
        ChecklistView { name: self.name@, items: item_views(self.list@) }
    }
}

impl ChecklistItem {
    /// A fresh item: unchecked, with no comment.
    pub fn new(name: String, desc: String) -> (r: ChecklistItem)
        ensures
            r@ == (ItemView { name: name@, desc: desc@, status: CheckState::Unchecked, comment: None }),
    {
        ChecklistItem { name, desc, status: CheckState::Unchecked, comment: None }
    }

    /// Replaces the status; name, description and comment stay.
    pub fn set(&mut self, state: CheckState)
        ensures
            final(self)@ == (ItemView { status: state, ..old(self)@ }),
    {
        self.status = state;
    }

    /// Replaces the comment, whatever was there; the status stays.
    pub fn set_comment(&mut self, comment: String)
        ensures
            final(self)@ == (ItemView { comment: Some(comment@), ..old(self)@ }),
    {
        self.comment = Some(comment);
    }
}

impl Checklist {
    /// The sample checklist written by the example generator: "list 1", with
    /// two unchecked items.
    pub fn example() -> (r: Checklist)
        ensures
            r@ == (ChecklistView {
                name: "list 1"@,
                items: seq![
                    ItemView { name: "item1"@, desc: "item 1 description"@, status: CheckState::Unchecked, comment: None },
                    ItemView { name: "item2"@, desc: "item 2 description"@, status: CheckState::Unchecked, comment: None },
                ],
            }),
    {
        let item1 = ChecklistItem::new(String::from_str("item1"), String::from_str("item 1 description"));
        let item2 = ChecklistItem::new(String::from_str("item2"), String::from_str("item 2 description"));
        let mut list: Vec<ChecklistItem> = Vec::new();
        list.push(item1);
        list.push(item2);
        let r = Checklist { name: String::from_str("list 1"), list };
        assert(r@.items =~= seq![item1@, item2@]);
        r
    }
}

} // verus!
