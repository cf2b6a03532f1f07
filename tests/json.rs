use checklist::json::{item_from_json, item_to_json, status_from_token, status_to_token};
use checklist::{checklist_from_json, checklist_to_json, CheckState, Checklist, ChecklistItem, Json, ParseError};

fn text(s: &str) -> Json {
    Json::Str(String::from(s))
}

fn member(k: &str, v: Json) -> (String, Json) {
    (String::from(k), v)
}

fn item_tree(name: &str, status: &str, comment: Option<Json>) -> Json {
    let mut e = vec![
        member("name", text(name)),
        member("desc", text("a step")),
        member("status", text(status)),
    ];
    if let Some(c) = comment {
        e.push(member("comment", c));
    }
    Json::Object(e)
}

fn list_tree(items: Vec<Json>) -> Json {
    Json::Object(vec![member("name", text("trip")), member("list", Json::Array(items))])
}

#[test]
fn status_tokens() {
    assert_eq!(status_to_token(CheckState::Unchecked), "UNCHECKED");
    assert_eq!(status_to_token(CheckState::Checked), "CHECKED");
    assert_eq!(status_to_token(CheckState::Skipped), "SKIP");
    assert_eq!(status_from_token(&String::from("SKIP")), Some(CheckState::Skipped));
    assert_eq!(status_from_token(&String::from("CHECKED")), Some(CheckState::Checked));
    assert_eq!(status_from_token(&String::from("UNCHECKED")), Some(CheckState::Unchecked));
    assert_eq!(status_from_token(&String::from("skip")), None);
}

#[test]
fn item_tree_has_every_member_in_order() {
    let item = ChecklistItem::new(String::from("a"), String::from("b"));
    assert_eq!(
        item_to_json(&item),
        Json::Object(vec![
            member("name", text("a")),
            member("desc", text("b")),
            member("status", text("UNCHECKED")),
            member("comment", Json::Null),
        ])
    );
}

#[test]
fn checklist_tree_shape() {
    let c = Checklist { name: String::from("n"), list: Vec::new() };
    assert_eq!(
        checklist_to_json(&c),
        Json::Object(vec![member("name", text("n")), member("list", Json::Array(Vec::new()))])
    );
}

#[test]
fn round_trip_keeps_order_status_and_comments() {
    let mut a = ChecklistItem::new(String::from("a"), String::from("first"));
    a.set(CheckState::Skipped);
    let mut b = ChecklistItem::new(String::from("b"), String::from("second"));
    b.set(CheckState::Checked);
    b.set_comment(String::new());
    let c0 = ChecklistItem::new(String::from("c"), String::from("third"));
    let c = Checklist { name: String::from("trip"), list: vec![a, b, c0] };
    let back = checklist_from_json(&checklist_to_json(&c)).unwrap();
    assert_eq!(back, c);
    assert_eq!(back.list[0].comment, None);
    assert_eq!(back.list[1].comment, Some(String::new()));
}

#[test]
fn round_trip_of_empty_checklist() {
    let c = Checklist { name: String::new(), list: Vec::new() };
    assert_eq!(checklist_from_json(&checklist_to_json(&c)).unwrap(), c);
}

#[test]
fn missing_comment_reads_as_none() {
    let item = item_from_json(&item_tree("x", "CHECKED", None)).unwrap();
    assert_eq!(item.comment, None);
    assert_eq!(item.status, CheckState::Checked);
    let item = item_from_json(&item_tree("x", "SKIP", Some(Json::Null))).unwrap();
    assert_eq!(item.comment, None);
    let item = item_from_json(&item_tree("x", "SKIP", Some(text("why")))).unwrap();
    assert_eq!(item.comment, Some(String::from("why")));
}

#[test]
fn unknown_members_are_ignored() {
    let t = Json::Object(vec![
        member("extra", Json::Bool(true)),
        member("list", Json::Array(vec![item_tree("x", "UNCHECKED", None)])),
        member("name", text("trip")),
    ]);
    let c = checklist_from_json(&t).unwrap();
    assert_eq!(c.name, "trip");
    assert_eq!(c.list.len(), 1);
}

#[test]
fn root_that_is_not_an_object_is_malformed() {
    assert_eq!(checklist_from_json(&Json::Array(Vec::new())), Err(ParseError::Malformed));
    assert_eq!(checklist_from_json(&Json::Null), Err(ParseError::Malformed));
}

#[test]
fn missing_members_are_reported() {
    let no_list = Json::Object(vec![member("name", text("trip"))]);
    assert_eq!(checklist_from_json(&no_list), Err(ParseError::MissingField));
    let no_name = Json::Object(vec![member("list", Json::Array(Vec::new()))]);
    assert_eq!(checklist_from_json(&no_name), Err(ParseError::MissingField));
    let no_desc = Json::Object(vec![member("name", text("x")), member("status", text("SKIP"))]);
    assert_eq!(checklist_from_json(&list_tree(vec![no_desc])), Err(ParseError::MissingField));
    let no_status = Json::Object(vec![member("name", text("x")), member("desc", text("d"))]);
    assert_eq!(item_from_json(&no_status), Err(ParseError::MissingField));
}

#[test]
fn wrong_shapes_are_malformed() {
    let bad_name = Json::Object(vec![
        member("name", Json::Number(String::from("3"))),
        member("list", Json::Array(Vec::new())),
    ]);
    assert_eq!(checklist_from_json(&bad_name), Err(ParseError::Malformed));
    let bad_list = Json::Object(vec![member("name", text("x")), member("list", text("no"))]);
    assert_eq!(checklist_from_json(&bad_list), Err(ParseError::Malformed));
    let bad_status = list_tree(vec![item_tree("x", "DONE", None)]);
    assert_eq!(checklist_from_json(&bad_status), Err(ParseError::Malformed));
    let bad_comment = item_tree("x", "SKIP", Some(Json::Bool(false)));
    assert_eq!(item_from_json(&bad_comment), Err(ParseError::Malformed));
    let bad_item = list_tree(vec![item_tree("x", "SKIP", None), text("item")]);
    assert_eq!(checklist_from_json(&bad_item), Err(ParseError::Malformed));
}

#[test]
fn first_failing_item_decides_the_error() {
    let t = list_tree(vec![
        item_tree("a", "CHECKED", None),
        Json::Object(vec![member("name", text("b"))]),
        item_tree("c", "BAD", None),
    ]);
    assert_eq!(checklist_from_json(&t), Err(ParseError::MissingField));
}

#[test]
fn repeated_members_are_refused() {
    let t = Json::Object(vec![
        member("name", text("a")),
        member("list", Json::Array(Vec::new())),
        member("name", text("b")),
    ]);
    assert_eq!(checklist_from_json(&t), Err(ParseError::DuplicateField));
    let item = Json::Object(vec![
        member("name", text("x")),
        member("desc", text("d")),
        member("status", text("SKIP")),
        member("status", text("CHECKED")),
    ]);
    assert_eq!(item_from_json(&item), Err(ParseError::DuplicateField));
    let two_lists = Json::Object(vec![
        member("name", text("a")),
        member("list", Json::Array(Vec::new())),
        member("list", Json::Array(Vec::new())),
    ]);
    assert_eq!(checklist_from_json(&two_lists), Err(ParseError::DuplicateField));
}

#[test]
fn repeated_unknown_members_are_ignored() {
    let t = Json::Object(vec![
        member("note", text("a")),
        member("name", text("trip")),
        member("note", text("b")),
        member("list", Json::Array(Vec::new())),
    ]);
    assert_eq!(checklist_from_json(&t).unwrap().name, "trip");
}
