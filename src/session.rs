use vstd::prelude::*;

use crate::checklist::{CheckState, Checklist, ChecklistView, ItemView};
use crate::render::{item_text, list_text, render_item, render_list};

verus! {

/// A command of the interactive session.
#[derive(Debug, Clone, Copy, PartialEq, Eq, Structural)]
pub enum Command {
    Exit,
    Save,
    Print,
    Next,
    Back,
    Mark,
    Unmark,
    Skip,
    Comment,
    List,
    Unknown,
}

/// The command that an input line names; the match is exact and case-sensitive.
pub open spec fn command_of(t: Seq<char>) -> Command {
    if t == "exit"@ {
        Command::Exit
    } else if t == "save"@ {
        Command::Save
    } else if t == "p"@ {
        Command::Print
    } else if t == "next"@ {
        Command::Next
    } else if t == "back"@ {
        Command::Back
    } else if t == "mark"@ {
        Command::Mark
    } else if t == "unmark"@ {
        Command::Unmark
    } else if t == "skip"@ {
        Command::Skip
    } else if t == "comment"@ {
        Command::Comment
    } else if t == "l"@ {
        Command::List
    } else {
        Command::Unknown
    }
}

/// What the session asks of its driver after a command.
#[derive(Debug, PartialEq, Eq)]
pub enum Reply {
    /// End the session; nothing is saved.
    Exit,
    /// Write the checklist back to where it was loaded from.
    Save,
    /// Read one line and hand it to [`Session::receive_comment`].
    AskComment,
    /// Nothing to show.
    Silent,
    /// Show this text.
    Show(String),
}

/// The mathematical model of a [`Reply`].
pub enum ReplyView {
    Exit,
    Save,
    AskComment,
    Silent,
    Show(Seq<char>),
}

impl View for Reply {
    type V = ReplyView;

    open spec fn view(&self) -> ReplyView {
        match self {
            Reply::Exit => ReplyView::Exit,
            Reply::Save => ReplyView::Save,
            Reply::AskComment => ReplyView::AskComment,
            Reply::Silent => ReplyView::Silent,
            Reply::Show(s) => ReplyView::Show(s@),
        }
    }
}

/// The mathematical model of a [`Session`]: the checklist and the cursor.
pub struct SessionView {
    pub checklist: ChecklistView,
    pub step: nat,
}

pub open spec fn end_of_list_text() -> Seq<char> {
    "End of list"@
}

pub open spec fn start_of_list_text() -> Seq<char> {
    "Start of list"@
}

pub open spec fn unknown_command_text() -> Seq<char> {
    "Unknown command"@
}

pub open spec fn empty_list_text() -> Seq<char> {
    "Checklist is empty"@
}

impl SessionView {
    /// The cursor points at an item, or is zero when there is none.
    pub open spec fn wf(self) -> bool {
        if self.checklist.items.len() == 0 {
            self.step == 0
        } else {
            self.step < self.checklist.items.len()
        }
    }

    pub open spec fn len(self) -> nat {
        self.checklist.items.len()
    }

    pub open spec fn current(self) -> ItemView {
        self.checklist.items[self.step as int]
    }

    /// The session with the current item replaced.
    pub open spec fn with_current(self, v: ItemView) -> SessionView {
        SessionView {
            checklist: ChecklistView {
                items: self.checklist.items.update(self.step as int, v),
                ..self.checklist
            },
            ..self
        }
    }

    /// The session with the current item's status set, if there is an item.
    pub open spec fn with_status(self, st: CheckState) -> SessionView {
        if self.len() == 0 {
            self
        } else {
            self.with_current(ItemView { status: st, ..self.current() })
        }
    }

    /// The session with the current item's comment set, if there is an item.
    pub open spec fn with_comment(self, t: Seq<char>) -> SessionView {
        if self.len() == 0 {
            self
        } else {
            self.with_current(ItemView { comment: Some(t), ..self.current() })
        }
    }

    /// The session after a command.
    pub open spec fn after(self, cmd: Command) -> SessionView {
        match cmd {
            Command::Next => if self.step + 1 < self.len() {
                SessionView { step: self.step + 1, ..self }
            } else {
                self
            },
            Command::Back => if self.step > 0 {
                SessionView { step: (self.step - 1) as nat, ..self }
            } else {
                self
            },
            Command::Mark => self.with_status(CheckState::Checked),
            Command::Unmark => self.with_status(CheckState::Unchecked),
            Command::Skip => self.with_status(CheckState::Skipped),
            _ => self,
        }
    }

    /// What the session replies to a command.
    pub open spec fn reply(self, cmd: Command) -> ReplyView {
        match cmd {
            Command::Exit => ReplyView::Exit,
            Command::Save => ReplyView::Save,
            Command::Print => if self.len() == 0 {
                ReplyView::Show(empty_list_text())
            } else {
                ReplyView::Show(item_text(self.current()))
            },
            Command::Next => if self.step + 1 < self.len() {
                ReplyView::Show(item_text(self.checklist.items[self.step + 1 as int]))
            } else {
                ReplyView::Show(end_of_list_text())
            },
            Command::Back => if self.step > 0 {
                ReplyView::Show(item_text(self.checklist.items[self.step - 1 as int]))
            } else {
                ReplyView::Show(start_of_list_text())
            },
            Command::Mark | Command::Unmark => if self.len() == 0 {
                ReplyView::Show(empty_list_text())
            } else {
                ReplyView::Silent
            },
            Command::Skip | Command::Comment => if self.len() == 0 {
                ReplyView::Show(empty_list_text())
            } else {
                ReplyView::AskComment
            },
            Command::List => ReplyView::Show(list_text(self.checklist)),
            Command::Unknown => ReplyView::Show(unknown_command_text()),
        }
    }
}

fn empty_list_message() -> (r: String)
    ensures
        r@ == empty_list_text(),
{
    String::from_str("Checklist is empty")
}

/// Reads the command that an input line names.
pub fn parse_command(line: &str) -> (r: Command)
    ensures
        r == command_of(line@),
{
    let t = line.to_owned();
    if t.eq(&"exit".to_owned()) {
        Command::Exit
    } else if t.eq(&"save".to_owned()) {
        Command::Save
    } else if t.eq(&"p".to_owned()) {
        Command::Print
    } else if t.eq(&"next".to_owned()) {
        Command::Next
    } else if t.eq(&"back".to_owned()) {
        Command::Back
    } else if t.eq(&"mark".to_owned()) {
        Command::Mark
    } else if t.eq(&"unmark".to_owned()) {
        Command::Unmark
    } else if t.eq(&"skip".to_owned()) {
        Command::Skip
    } else if t.eq(&"comment".to_owned()) {
        Command::Comment
    } else if t.eq(&"l".to_owned()) {
        Command::List
    } else {
        Command::Unknown
    }
}

/// One loaded checklist and a cursor over its items.
pub struct Session {
    checklist: Checklist,
    step: usize,
}

impl View for Session {
    type V = SessionView;

    closed spec fn view(&self) -> SessionView {
        SessionView { checklist: self.checklist@, step: self.step as nat }
    }
}

impl Session {
    #[verifier::type_invariant]
    spec fn inv(&self) -> bool {
        self@.wf()
    }

    /// Starts a session at the first item.
    pub fn new(checklist: Checklist) -> (r: Session)
        ensures
            r@ == (SessionView { checklist: checklist@, step: 0 }),
            r@.wf(),
    {
        Session { checklist, step: 0 }
    }

    /// The checklist as it stands.
    pub fn checklist(&self) -> (r: &Checklist)
        ensures
            r@ == self@.checklist,
    {
        &self.checklist
    }

    /// The index of the current item.
    pub fn step(&self) -> (r: usize)
        ensures
            r == self@.step,
            self@.wf(),
    {
        proof {
            use_type_invariant(self);
        }
        self.step
    }

    /// Sets the current item's status, if there is a current item.
    fn set_current_status(&mut self, st: CheckState)
        ensures
            final(self)@ == old(self)@.with_status(st),
    {
        proof {
            use_type_invariant(&*self);
        }
        if self.step < self.checklist.list.len() {
            let i: usize = self.step;
            self.checklist.list[i].set(st);
            proof {
                assert(self@.checklist.items =~= old(self)@.with_status(st).checklist.items);
            }
        }
    }

    /// Carries out one command: moves the cursor or changes the current item
    /// as the command says, and tells the driver what to do next.
    pub fn handle(&mut self, cmd: Command) -> (r: Reply)
        ensures
            final(self)@ == old(self)@.after(cmd),
            r@ == old(self)@.reply(cmd),
            final(self)@.wf(),
    {
        proof {
            use_type_invariant(&*self);
        }
        let len: usize = self.checklist.list.len();
        match cmd {
            Command::Exit => Reply::Exit,
            Command::Save => Reply::Save,
            Command::Print => {
                if len == 0 {
                    Reply::Show(empty_list_message())
                } else {
                    Reply::Show(render_item(&self.checklist.list[self.step]))
                }
            },
            Command::Next => {
                if self.step + 1 < len {
                    self.step = self.step + 1;
                    Reply::Show(render_item(&self.checklist.list[self.step]))
                } else {
                    Reply::Show(String::from_str("End of list"))
                }
            },
            Command::Back => {
                if self.step > 0 {
                    self.step = self.step - 1;
                    Reply::Show(render_item(&self.checklist.list[self.step]))
                } else {
                    Reply::Show(String::from_str("Start of list"))
                }
            },
            Command::Mark | Command::Unmark | Command::Skip => {
                if len == 0 {
                    Reply::Show(empty_list_message())
                } else {
                    let st = match cmd {
                        Command::Mark => CheckState::Checked,
                        Command::Unmark => CheckState::Unchecked,
                        _ => CheckState::Skipped,
                    };
                    self.set_current_status(st);
                    if cmd == Command::Skip {
                        Reply::AskComment
                    } else {
                        Reply::Silent
                    }
                }
            },
            Command::Comment => {
                if len == 0 {
                    Reply::Show(empty_list_message())
                } else {
                    Reply::AskComment
                }
            },
            Command::List => Reply::Show(render_list(&self.checklist)),
            Command::Unknown => Reply::Show(String::from_str("Unknown command")),
        }
    }

    /// Stores the line read after [`Reply::AskComment`] as the current item's
    /// comment, replacing any earlier one; the status stays.
    pub fn receive_comment(&mut self, text: String)
        ensures
            final(self)@ == old(self)@.with_comment(text@),
            final(self)@.wf(),
    {
        proof {
            use_type_invariant(&*self);
        }
        if self.step < self.checklist.list.len() {
            let i: usize = self.step;
            self.checklist.list[i].set_comment(text);
            proof {
                assert(self@.checklist.items =~= old(self)@.with_comment(text@).checklist.items);
            }
        }
    }

    /// What is shown when the session starts: the checklist's name, then the
    /// first item.
    pub fn opening(&self) -> (r: String)
        ensures
            r@ == "checklist: "@ + self@.checklist.name + "\n"@ + (if self@.len() == 0 {
                empty_list_text()
            } else {
                item_text(self@.checklist.items[0])
            }),
    {
        let mut s = String::from_str("checklist: ");
        s.append(self.checklist.name.as_str());
        s.append("\n");
        if self.checklist.list.len() == 0 {
            let m = empty_list_message();
            s.append(m.as_str());
        } else {
            let t = render_item(&self.checklist.list[0]);
            s.append(t.as_str());
        }
        s
    }

    /// Ends the session and hands back its checklist.
    pub fn into_checklist(self) -> (r: Checklist)
        ensures
            r@ == self@.checklist,
    {
        self.checklist
    }
}

/// At the last item `next` keeps the cursor and answers "End of list"; at
/// the first item `back` keeps the cursor and answers "Start of list".
pub proof fn lemma_navigation_bounds(s: SessionView)
    requires
        s.wf(),
    ensures
        s.len() > 0 && s.step == s.len() - 1 ==> s.after(Command::Next) == s && s.reply(Command::Next)
            == ReplyView::Show(end_of_list_text()),
        s.step == 0 ==> s.after(Command::Back) == s && s.reply(Command::Back) == ReplyView::Show(
            start_of_list_text(),
        ),
{
}

/// Marking twice is marking once, unmarking twice is unmarking once, and
/// unmarking after marking is unmarking alone: the item is unchecked again.
pub proof fn lemma_status_idempotent(s: SessionView)
    requires
        s.wf(),
    ensures
        s.after(Command::Mark).after(Command::Mark) == s.after(Command::Mark),
        s.after(Command::Unmark).after(Command::Unmark) == s.after(Command::Unmark),
        s.after(Command::Mark).after(Command::Unmark) == s.after(Command::Unmark),
        s.len() > 0 ==> s.after(Command::Mark).current().status == CheckState::Checked,
        s.len() > 0 ==> s.after(Command::Mark).after(Command::Unmark).current().status
            == CheckState::Unchecked,
{
    if s.len() > 0 {
        let m = s.after(Command::Mark);
        let u = s.after(Command::Unmark);
        assert(m.after(Command::Mark).checklist.items =~= m.checklist.items);
        assert(u.after(Command::Unmark).checklist.items =~= u.checklist.items);
        assert(m.after(Command::Unmark).checklist.items =~= u.checklist.items);
    }
}

/// `skip` on an item asks for a comment; once the line comes, the item is
/// skipped and its comment is that line, whatever it holds, the empty line too.
pub proof fn lemma_skip_then_comment(s: SessionView, line: Seq<char>)
    requires
        s.wf(),
        s.len() > 0,
    ensures
        s.reply(Command::Skip) == ReplyView::AskComment,
        s.after(Command::Skip).with_comment(line).wf(),
        s.after(Command::Skip).with_comment(line).current().status == CheckState::Skipped,
        s.after(Command::Skip).with_comment(line).current().comment == Some(line),
        s.after(Command::Skip).with_comment(line).step == s.step,
{
}

/// A command that is not known changes nothing and answers "Unknown command".
pub proof fn lemma_unknown_command(s: SessionView)
    ensures
        s.after(Command::Unknown) == s,
        s.reply(Command::Unknown) == ReplyView::Show(unknown_command_text()),
{
}

} // verus!
