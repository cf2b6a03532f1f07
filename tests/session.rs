use checklist::{
    checklist_from_json, checklist_to_json, parse_command, CheckState, Checklist, ChecklistItem,
    Command, Reply, Session,
};

fn item1_text(status: &str, comment: &str) -> String {
    format!(
        "name: item1\ndescription: item 1 description\nstatus: {}\ncomment: {}\n",
        status, comment
    )
}

fn item2_text(status: &str, comment: &str) -> String {
    format!(
        "name: item2\ndescription: item 2 description\nstatus: {}\ncomment: {}\n",
        status, comment
    )
}

#[test]
fn opening_shows_name_and_first_item() {
    let s = Session::new(Checklist::example());
    assert_eq!(
        s.opening(),
        format!("checklist: list 1\n{}", item1_text("[ ] (Unchecked)", "-"))
    );
    assert_eq!(s.step(), 0);
}

#[test]
fn opening_of_empty_list() {
    let c = Checklist { name: String::from("none"), list: Vec::new() };
    let s = Session::new(c);
    assert_eq!(s.opening(), "checklist: none\nChecklist is empty");
}

#[test]
fn parse_known_commands() {
    assert_eq!(parse_command("exit"), Command::Exit);
    assert_eq!(parse_command("save"), Command::Save);
    assert_eq!(parse_command("p"), Command::Print);
    assert_eq!(parse_command("next"), Command::Next);
    assert_eq!(parse_command("back"), Command::Back);
    assert_eq!(parse_command("mark"), Command::Mark);
    assert_eq!(parse_command("unmark"), Command::Unmark);
    assert_eq!(parse_command("skip"), Command::Skip);
    assert_eq!(parse_command("comment"), Command::Comment);
    assert_eq!(parse_command("l"), Command::List);
}

#[test]
fn parse_is_case_sensitive_and_exact() {
    assert_eq!(parse_command("Exit"), Command::Unknown);
    assert_eq!(parse_command("next "), Command::Unknown);
    assert_eq!(parse_command(""), Command::Unknown);
    assert_eq!(parse_command("ls"), Command::Unknown);
}

#[test]
fn next_at_last_item_reports_end() {
    let mut s = Session::new(Checklist::example());
    assert_eq!(s.handle(Command::Next), Reply::Show(item2_text("[ ] (Unchecked)", "-")));
    assert_eq!(s.step(), 1);
    assert_eq!(s.handle(Command::Next), Reply::Show(String::from("End of list")));
    assert_eq!(s.step(), 1);
}

#[test]
fn back_at_first_item_reports_start() {
    let mut s = Session::new(Checklist::example());
    assert_eq!(s.handle(Command::Back), Reply::Show(String::from("Start of list")));
    assert_eq!(s.step(), 0);
    s.handle(Command::Next);
    assert_eq!(s.handle(Command::Back), Reply::Show(item1_text("[ ] (Unchecked)", "-")));
    assert_eq!(s.step(), 0);
}

#[test]
fn next_ten_times_on_two_items() {
    let mut s = Session::new(Checklist::example());
    for k in 0usize..10 {
        let r = s.handle(Command::Next);
        if k == 0 {
            assert_eq!(r, Reply::Show(item2_text("[ ] (Unchecked)", "-")));
        } else {
            assert_eq!(r, Reply::Show(String::from("End of list")));
        }
    }
    assert_eq!(s.step(), 1);
}

#[test]
fn mark_twice_is_mark_once() {
    let mut s = Session::new(Checklist::example());
    assert_eq!(s.handle(Command::Mark), Reply::Silent);
    assert_eq!(s.checklist().list[0].status, CheckState::Checked);
    assert_eq!(s.handle(Command::Mark), Reply::Silent);
    assert_eq!(s.checklist().list[0].status, CheckState::Checked);
    assert_eq!(s.checklist().list[1].status, CheckState::Unchecked);
}

#[test]
fn mark_then_unmark_restores_unchecked() {
    let mut s = Session::new(Checklist::example());
    s.handle(Command::Mark);
    assert_eq!(s.handle(Command::Unmark), Reply::Silent);
    assert_eq!(s.checklist().list[0].status, CheckState::Unchecked);
    assert_eq!(s.checklist().list[0].comment, None);
}

#[test]
fn skip_stores_the_comment_line() {
    let mut s = Session::new(Checklist::example());
    assert_eq!(s.handle(Command::Skip), Reply::AskComment);
    assert_eq!(s.checklist().list[0].status, CheckState::Skipped);
    s.receive_comment(String::from("too dark"));
    assert_eq!(s.checklist().list[0].status, CheckState::Skipped);
    assert_eq!(s.checklist().list[0].comment, Some(String::from("too dark")));
}

#[test]
fn skip_with_empty_comment_line() {
    let mut s = Session::new(Checklist::example());
    s.handle(Command::Skip);
    s.receive_comment(String::new());
    assert_eq!(s.checklist().list[0].status, CheckState::Skipped);
    assert_eq!(s.checklist().list[0].comment, Some(String::new()));
}

#[test]
fn comment_overwrites_and_keeps_status() {
    let mut s = Session::new(Checklist::example());
    s.handle(Command::Mark);
    assert_eq!(s.handle(Command::Comment), Reply::AskComment);
    s.receive_comment(String::from("first"));
    s.handle(Command::Comment);
    s.receive_comment(String::from("second"));
    assert_eq!(s.checklist().list[0].status, CheckState::Checked);
    assert_eq!(s.checklist().list[0].comment, Some(String::from("second")));
    assert_eq!(
        s.handle(Command::Print),
        Reply::Show(item1_text("[x] (Checked)", "second"))
    );
}

#[test]
fn unknown_command_changes_nothing() {
    let mut s = Session::new(Checklist::example());
    s.handle(Command::Next);
    s.handle(Command::Skip);
    s.receive_comment(String::from("note"));
    let cmd = parse_command("foo");
    assert_eq!(cmd, Command::Unknown);
    assert_eq!(s.handle(cmd), Reply::Show(String::from("Unknown command")));
    assert_eq!(s.step(), 1);
    assert_eq!(s.checklist().list[0].status, CheckState::Unchecked);
    assert_eq!(s.checklist().list[0].comment, None);
    assert_eq!(s.checklist().list[1].status, CheckState::Skipped);
    assert_eq!(s.checklist().list[1].comment, Some(String::from("note")));
}

#[test]
fn exit_and_save_are_handed_to_the_driver() {
    let mut s = Session::new(Checklist::example());
    assert_eq!(s.handle(Command::Save), Reply::Save);
    assert_eq!(s.handle(Command::Exit), Reply::Exit);
    assert_eq!(s.into_checklist(), Checklist::example());
}

#[test]
fn list_command_shows_every_item() {
    let mut s = Session::new(Checklist::example());
    s.handle(Command::Mark);
    assert_eq!(
        s.handle(Command::List),
        Reply::Show(String::from(
            "checklist name: list 1\n\n\tname: item1 -> [x] (Checked)\n\tname: item2 -> [ ] (Unchecked)\n"
        ))
    );
}

#[test]
fn cursor_commands_on_empty_list() {
    let c = Checklist { name: String::from("none"), list: Vec::new() };
    let mut s = Session::new(c);
    let empty = Reply::Show(String::from("Checklist is empty"));
    assert_eq!(s.handle(Command::Print), empty);
    assert_eq!(s.handle(Command::Mark), empty);
    assert_eq!(s.handle(Command::Unmark), empty);
    assert_eq!(s.handle(Command::Skip), empty);
    assert_eq!(s.handle(Command::Comment), empty);
    assert_eq!(s.handle(Command::Next), Reply::Show(String::from("End of list")));
    assert_eq!(s.handle(Command::Back), Reply::Show(String::from("Start of list")));
    s.receive_comment(String::from("ignored"));
    assert_eq!(s.step(), 0);
    assert!(s.checklist().list.is_empty());
}

#[test]
fn mark_next_skip_save_scenario() {
    let loaded = checklist_from_json(&checklist_to_json(&Checklist::example())).unwrap();
    let mut s = Session::new(loaded);
    assert_eq!(s.handle(parse_command("mark")), Reply::Silent);
    s.handle(parse_command("next"));
    assert_eq!(s.handle(parse_command("skip")), Reply::AskComment);
    s.receive_comment(String::from("bad lighting"));
    assert_eq!(s.handle(parse_command("save")), Reply::Save);
    let saved = checklist_to_json(s.checklist());
    assert_eq!(s.handle(parse_command("exit")), Reply::Exit);

    let reloaded = checklist_from_json(&saved).unwrap();
    let mut item1 = ChecklistItem::new(String::from("item1"), String::from("item 1 description"));
    item1.set(CheckState::Checked);
    let mut item2 = ChecklistItem::new(String::from("item2"), String::from("item 2 description"));
    item2.set(CheckState::Skipped);
    item2.set_comment(String::from("bad lighting"));
    let expected = Checklist { name: String::from("list 1"), list: vec![item1, item2] };
    assert_eq!(reloaded, expected);
    assert_eq!(reloaded, *s.checklist());
}
