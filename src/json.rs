use vstd::prelude::*;

use crate::checklist::{item_views, CheckState, Checklist, ChecklistItem, ChecklistView, ItemView};

verus! {

/// A JSON document tree. An object keeps its members in the order in which
/// they were written.
#[derive(Debug, PartialEq, Eq)]
pub enum Json {
    Null,
    Bool(bool),
    /// A number, in its textual form.
    Number(String),
    Str(String),
    Array(Vec<Json>),
    Object(Vec<(String, Json)>),
}

/// Why a document tree is not a checklist.
#[derive(Debug, Clone, Copy, PartialEq, Eq, Structural)]
pub enum ParseError {
    /// A value has the wrong shape: not an object, not a string, an unknown
    /// status token.
    Malformed,
    /// A required member is absent.
    MissingField,
    /// A member that is read stands twice in one object.
    DuplicateField,
}

/// The token that stands for a status in a checklist file.
pub open spec fn status_token(s: CheckState) -> Seq<char> {
    match s {
        CheckState::Unchecked => "UNCHECKED"@,
        CheckState::Checked => "CHECKED"@,
        CheckState::Skipped => "SKIP"@,
    }
}

/// The status that a token stands for, if any.
pub open spec fn status_of_token(t: Seq<char>) -> Option<CheckState> {
    if t == "UNCHECKED"@ {
        Some(CheckState::Unchecked)
    } else if t == "CHECKED"@ {
        Some(CheckState::Checked)
    } else if t == "SKIP"@ {
        Some(CheckState::Skipped)
    } else {
        None
    }
}

/// The value of the first member named `key`.
pub open spec fn field(entries: Seq<(String, Json)>, key: Seq<char>) -> Option<Json>
    decreases entries.len(),
{
    if entries.len() == 0 {
        None
    } else if entries[0].0@ == key {
        Some(entries[0].1)
    } else {
        field(entries.drop_first(), key)
    }
}

/// Two members of an object are named `key`.
pub open spec fn occurs_twice(entries: Seq<(String, Json)>, key: Seq<char>) -> bool {
    exists|i: int, j: int|
        0 <= i < j < entries.len() && #[trigger] entries[i].0@ == key && #[trigger] entries[j].0@ == key
}

/// The value of the member named `key`, if any; an error if it stands twice.
pub open spec fn member(entries: Seq<(String, Json)>, key: Seq<char>) -> Result<Option<Json>, ParseError> {
    if occurs_twice(entries, key) {
        Err(ParseError::DuplicateField)
    } else {
        Ok(field(entries, key))
    }
}

/// A required string member.
pub open spec fn text_field(entries: Seq<(String, Json)>, key: Seq<char>) -> Result<Seq<char>, ParseError> {
    match member(entries, key) {
        Err(x) => Err(x),
        Ok(None) => Err(ParseError::MissingField),
        Ok(Some(Json::Str(s))) => Ok(s@),
        Ok(Some(_)) => Err(ParseError::Malformed),
    }
}

/// The required status member.
pub open spec fn status_field(entries: Seq<(String, Json)>) -> Result<CheckState, ParseError> {
    match member(entries, "status"@) {
        Err(x) => Err(x),
        Ok(None) => Err(ParseError::MissingField),
        Ok(Some(Json::Str(s))) => match status_of_token(s@) {
            Some(st) => Ok(st),
            None => Err(ParseError::Malformed),
        },
        Ok(Some(_)) => Err(ParseError::Malformed),
    }
}

/// The optional comment member: absent and null both mean no comment.
pub open spec fn comment_field(entries: Seq<(String, Json)>) -> Result<Option<Seq<char>>, ParseError> {
    match member(entries, "comment"@) {
        Err(x) => Err(x),
        Ok(None) => Ok(None),
        Ok(Some(Json::Null)) => Ok(None),
        Ok(Some(Json::Str(s))) => Ok(Some(s@)),
        Ok(Some(_)) => Err(ParseError::Malformed),
    }
}

/// What a document tree says of one item; members are read in the order
/// name, desc, status, comment, and the first failure is reported. Other
/// members are ignored.
pub open spec fn decode_item(j: Json) -> Result<ItemView, ParseError> {
    match j {
        Json::Object(entries) => {
            let e = entries@;
            match text_field(e, "name"@) {
                Err(x) => Err(x),
                Ok(name) => match text_field(e, "desc"@) {
                    Err(x) => Err(x),
                    Ok(desc) => match status_field(e) {
                        Err(x) => Err(x),
                        Ok(status) => match comment_field(e) {
                            Err(x) => Err(x),
                            Ok(comment) => Ok(ItemView { name, desc, status, comment }),
                        },
                    },
                },
            }
        },
        _ => Err(ParseError::Malformed),
    }
}

/// The items of a sequence of trees, or the failure of the first one that fails.
pub open spec fn decode_items(s: Seq<Json>) -> Result<Seq<ItemView>, ParseError>
    decreases s.len(),
{
    if s.len() == 0 {
        Ok(Seq::empty())
    } else {
        match decode_items(s.drop_last()) {
            Err(x) => Err(x),
            Ok(prefix) => match decode_item(s.last()) {
                Err(x) => Err(x),
                Ok(v) => Ok(prefix.push(v)),
            },
        }
    }
}

/// What a document tree says of a whole checklist; members other than
/// `name` and `list` are ignored.
pub open spec fn decode_checklist(j: Json) -> Result<ChecklistView, ParseError> {
    match j {
        Json::Object(entries) => {
            let e = entries@;
            match text_field(e, "name"@) {
                Err(x) => Err(x),
                Ok(name) => match member(e, "list"@) {
                    Err(x) => Err(x),
                    Ok(None) => Err(ParseError::MissingField),
                    Ok(Some(Json::Array(a))) => match decode_items(a@) {
                        Err(x) => Err(x),
                        Ok(items) => Ok(ChecklistView { name, items }),
                    },
                    Ok(Some(_)) => Err(ParseError::Malformed),
                },
            }
        },
        _ => Err(ParseError::Malformed),
    }
}

/// `j` is the string `t`.
pub open spec fn is_text(j: Json, t: Seq<char>) -> bool {
    match j {
        Json::Str(s) => s@ == t,
        _ => false,
    }
}

/// `j` stands for the comment `c`: null when there is none.
pub open spec fn encodes_comment(j: Json, c: Option<Seq<char>>) -> bool {
    match c {
        None => j is Null,
        Some(t) => is_text(j, t),
    }
}

/// `j` is the tree written for item `v`: an object with the members name,
/// desc, status and comment, in that order.
pub open spec fn encodes_item(j: Json, v: ItemView) -> bool {
    match j {
        Json::Object(entries) => {
            let e = entries@;
            &&& e.len() == 4
            &&& e[0].0@ == "name"@ && is_text(e[0].1, v.name)
            &&& e[1].0@ == "desc"@ && is_text(e[1].1, v.desc)
            &&& e[2].0@ == "status"@ && is_text(e[2].1, status_token(v.status))
            &&& e[3].0@ == "comment"@ && encodes_comment(e[3].1, v.comment)
        },
        _ => false,
    }
}

/// `j` is the tree written for checklist `c`: an object with the members
/// name and list, the list holding one tree per item, in order.
pub open spec fn encodes_checklist(j: Json, c: ChecklistView) -> bool {
    match j {
        Json::Object(entries) => {
            let e = entries@;
            &&& e.len() == 2
            &&& e[0].0@ == "name"@ && is_text(e[0].1, c.name)
            &&& e[1].0@ == "list"@
            &&& match e[1].1 {
                Json::Array(a) => a@.len() == c.items.len() && forall|i: int|
                    0 <= i < a@.len() ==> #[trigger] encodes_item(a@[i], c.items[i]),
                _ => false,
            }
        },
        _ => false,
    }
}


proof fn lemma_tokens_differ()
    ensures
        "name"@ != "desc"@,
        "name"@ != "status"@,
        "name"@ != "comment"@,
        "name"@ != "list"@,
        "desc"@ != "status"@,
        "desc"@ != "comment"@,
        "status"@ != "comment"@,
        "UNCHECKED"@ != "CHECKED"@,
        "UNCHECKED"@ != "SKIP"@,
        "CHECKED"@ != "SKIP"@,
{
    reveal_strlit("name");
    reveal_strlit("desc");
    reveal_strlit("status");
    reveal_strlit("comment");
    reveal_strlit("list");
    reveal_strlit("UNCHECKED");
    reveal_strlit("CHECKED");
    reveal_strlit("SKIP");
    assert("name"@[0] != "desc"@[0]);
    assert("name"@.len() != "status"@.len());
    assert("name"@.len() != "comment"@.len());
    assert("name"@[0] != "list"@[0]);
    assert("desc"@.len() != "status"@.len());
    assert("desc"@.len() != "comment"@.len());
    assert("status"@.len() != "comment"@.len());
    assert("UNCHECKED"@.len() != "CHECKED"@.len());
    assert("UNCHECKED"@.len() != "SKIP"@.len());
    assert("CHECKED"@.len() != "SKIP"@.len());
}

/// Reading a status back from its token gives the status.
pub proof fn lemma_status_token_round_trip(s: CheckState)
    ensures
        status_of_token(status_token(s)) == Some(s),
{
    lemma_tokens_differ();
}

/// The tree written for an item reads back as that item.
pub proof fn lemma_item_round_trip(j: Json, v: ItemView)
    requires
        encodes_item(j, v),
    ensures
        decode_item(j) == Ok::<ItemView, ParseError>(v),
{
    lemma_tokens_differ();
    lemma_status_token_round_trip(v.status);
    reveal_with_fuel(field, 5);
    if let Json::Object(entries) = j {
        let e = entries@;
        assert(e.drop_first().drop_first().drop_first()[0] == e[3]);
        assert(e.drop_first().drop_first()[0] == e[2]);
        assert(e.drop_first()[0] == e[1]);
    }
}

proof fn lemma_items_round_trip(a: Seq<Json>, items: Seq<ItemView>)
    requires
        a.len() == items.len(),
        forall|i: int| 0 <= i < a.len() ==> #[trigger] encodes_item(a[i], items[i]),
    ensures
        decode_items(a) == Ok::<Seq<ItemView>, ParseError>(items),
    decreases a.len(),
{
    if a.len() == 0 {
        assert(items =~= Seq::<ItemView>::empty());
    } else {
        assert forall|i: int| 0 <= i < a.len() - 1 implies #[trigger] encodes_item(
            a.drop_last()[i],
            items.drop_last()[i],
        ) by {
            assert(encodes_item(a[i], items[i]));
        }
        lemma_items_round_trip(a.drop_last(), items.drop_last());
        lemma_item_round_trip(a.last(), items.last());
        assert(items.drop_last().push(items.last()) =~= items);
    }
}

/// The tree written for a checklist reads back as that checklist: name,
/// items, their order, statuses and comments, absent ones included.
pub proof fn lemma_round_trip(c: ChecklistView)
    ensures
        forall|j: Json| #[trigger] encodes_checklist(j, c) ==> decode_checklist(j) == Ok::<ChecklistView, ParseError>(c),
{
    assert forall|j: Json| #[trigger] encodes_checklist(j, c) implies decode_checklist(j) == Ok::<ChecklistView, ParseError>(c) by {
        lemma_tokens_differ();
        reveal_with_fuel(field, 3);
        if let Json::Object(entries) = j {
            let e = entries@;
            assert(e.drop_first()[0] == e[1]);
            if let Json::Array(a) = e[1].1 {
                lemma_items_round_trip(a@, c.items);
            }
        }
    }
}


/// Whether a string holds exactly the text of a literal.
fn text_is(a: &String, b: &str) -> (r: bool)
    ensures
        r == (a@ == b@),
{
    let t = b.to_owned();
    a.eq(&t)
}

proof fn lemma_field_at(e: Seq<(String, Json)>, key: Seq<char>, f: int)
    requires
        0 <= f <= e.len(),
        forall|k: int| 0 <= k < f ==> #[trigger] e[k].0@ != key,
        f < e.len() ==> e[f].0@ == key,
    ensures
        field(e, key) == if f < e.len() {
            Some(e[f].1)
        } else {
            None
        },
    decreases f,
{
    if f > 0 {
        assert(e[0].0@ != key);
        assert forall|k: int| 0 <= k < f - 1 implies #[trigger] e.drop_first()[k].0@ != key by {
            assert(e[k + 1].0@ != key);
        }
        lemma_field_at(e.drop_first(), key, f - 1);
    }
}

/// The value of the member named `key`, or the error that it stands twice.
fn find_member<'a>(entries: &'a Vec<(String, Json)>, key: &str) -> (r: Result<Option<&'a Json>, ParseError>)
    ensures
        match r {
            Ok(Some(v)) => member(entries@, key@) == Ok::<Option<Json>, ParseError>(Some(*v)),
            Ok(None) => member(entries@, key@) == Ok::<Option<Json>, ParseError>(None),
            Err(x) => member(entries@, key@) == Err::<Option<Json>, ParseError>(x),
        },
{
    let ghost e = entries@;
    let mut found: Option<usize> = None;
    let mut i: usize = 0;
    while i < entries.len()
        invariant
            e == entries@,
            i <= e.len(),
            match found {
                None => forall|k: int| 0 <= k < i ==> #[trigger] e[k].0@ != key@,
                Some(f) => {
                    &&& f < i
                    &&& e[f as int].0@ == key@
                    &&& forall|k: int| 0 <= k < i && k != f ==> #[trigger] e[k].0@ != key@
                },
            },
        decreases e.len() - i,
    {
        if text_is(&entries[i].0, key) {
            match found {
                Some(f) => {
                    assert(occurs_twice(e, key@)) by {
                        assert(e[f as int].0@ == key@ && e[i as int].0@ == key@);
                    }
                    return Err(ParseError::DuplicateField);
                },
                None => {
                    found = Some(i);
                },
            }
        }
        i = i + 1;
    }
    match found {
        None => {
            proof {
                lemma_field_at(e, key@, e.len() as int);
            }
            Ok(None)
        },
        Some(f) => {
            proof {
                lemma_field_at(e, key@, f as int);
            }
            Ok(Some(&entries[f].1))
        },
    }
}

/// Reads a required string member.
fn read_text(entries: &Vec<(String, Json)>, key: &str) -> (r: Result<String, ParseError>)
    ensures
        match r {
            Ok(s) => text_field(entries@, key@) == Ok::<Seq<char>, ParseError>(s@),
            Err(x) => text_field(entries@, key@) == Err::<Seq<char>, ParseError>(x),
        },
{
    match find_member(entries, key) {
        Err(x) => Err(x),
        Ok(None) => Err(ParseError::MissingField),
        Ok(Some(Json::Str(s))) => Ok(s.clone()),
        Ok(Some(_)) => Err(ParseError::Malformed),
    }
}

/// Reads the status that a token stands for.
pub fn status_from_token(t: &String) -> (r: Option<CheckState>)
    ensures
        r == status_of_token(t@),
{
    if text_is(t, "UNCHECKED") {
        Some(CheckState::Unchecked)
    } else if text_is(t, "CHECKED") {
        Some(CheckState::Checked)
    } else if text_is(t, "SKIP") {
        Some(CheckState::Skipped)
    } else {
        None
    }
}

/// Writes the token that stands for a status.
pub fn status_to_token(s: CheckState) -> (r: String)
    ensures
        r@ == status_token(s),
{
    match s {
        CheckState::Unchecked => String::from_str("UNCHECKED"),
        CheckState::Checked => String::from_str("CHECKED"),
        CheckState::Skipped => String::from_str("SKIP"),
    }
}

/// Reads one item from its tree.
pub fn item_from_json(j: &Json) -> (r: Result<ChecklistItem, ParseError>)
    ensures
        match r {
            Ok(item) => decode_item(*j) == Ok::<ItemView, ParseError>(item@),
            Err(x) => decode_item(*j) == Err::<ItemView, ParseError>(x),
        },
{
    let entries = match j {
        Json::Object(e) => e,
        _ => {
            return Err(ParseError::Malformed);
        },
    };
    let name = match read_text(entries, "name") {
        Ok(s) => s,
        Err(x) => {
            return Err(x);
        },
    };
    let desc = match read_text(entries, "desc") {
        Ok(s) => s,
        Err(x) => {
            return Err(x);
        },
    };
    let status = match find_member(entries, "status") {
        Err(x) => {
            return Err(x);
        },
        Ok(None) => {
            return Err(ParseError::MissingField);
        },
        Ok(Some(Json::Str(t))) => match status_from_token(t) {
            Some(st) => st,
            None => {
                return Err(ParseError::Malformed);
            },
        },
        Ok(Some(_)) => {
            return Err(ParseError::Malformed);
        },
    };
    let comment = match find_member(entries, "comment") {
        Err(x) => {
            return Err(x);
        },
        Ok(None) => None,
        Ok(Some(Json::Null)) => None,
        Ok(Some(Json::Str(c))) => Some(c.clone()),
        Ok(Some(_)) => {
            return Err(ParseError::Malformed);
        },
    };
    Ok(ChecklistItem { name, desc, status, comment })
}

proof fn lemma_items_error_stays(s: Seq<Json>, k: int, n: int)
    requires
        0 <= k <= n <= s.len(),
        decode_items(s.take(k)) is Err,
    ensures
        decode_items(s.take(n)) == decode_items(s.take(k)),
    decreases n - k,
{
    if n > k {
        lemma_items_error_stays(s, k, n - 1);
        assert(s.take(n).drop_last() =~= s.take(n - 1));
    }
}

/// Reads a checklist from its tree: `Ok` exactly when the tree has the
/// shape of a checklist, and then the checklist that it describes.
pub fn checklist_from_json(j: &Json) -> (r: Result<Checklist, ParseError>)
    ensures
        match r {
            Ok(c) => decode_checklist(*j) == Ok::<ChecklistView, ParseError>(c@),
            Err(x) => decode_checklist(*j) == Err::<ChecklistView, ParseError>(x),
        },
{
    let entries = match j {
        Json::Object(e) => e,
        _ => {
            return Err(ParseError::Malformed);
        },
    };
    let name = match read_text(entries, "name") {
        Ok(s) => s,
        Err(x) => {
            return Err(x);
        },
    };
    let a = match find_member(entries, "list") {
        Err(x) => {
            return Err(x);
        },
        Ok(None) => {
            return Err(ParseError::MissingField);
        },
        Ok(Some(Json::Array(a))) => a,
        Ok(Some(_)) => {
            return Err(ParseError::Malformed);
        },
    };
    let mut list: Vec<ChecklistItem> = Vec::new();
    let mut i: usize = 0;
    assert(a@.take(0) =~= Seq::<Json>::empty());
    assert(item_views(list@) =~= Seq::<ItemView>::empty());
    while i < a.len()
        invariant
            i <= a@.len(),
            *j == Json::Object(*entries),
            member(entries@, "list"@) == Ok::<Option<Json>, ParseError>(Some(Json::Array(*a))),
            text_field(entries@, "name"@) == Ok::<Seq<char>, ParseError>(name@),
            decode_items(a@.take(i as int)) == Ok::<Seq<ItemView>, ParseError>(item_views(list@)),
        decreases a@.len() - i,
    {
        proof {
            assert(a@.take(i + 1).drop_last() =~= a@.take(i as int));
        }
        match item_from_json(&a[i]) {
            Ok(item) => {
                let ghost before = list@;
                let ghost v = item@;
                list.push(item);
                assert(item_views(list@) =~= item_views(before).push(v));
            },
            Err(x) => {
                proof {
                    assert(a@.take(i + 1).last() == a@[i as int]);
                    assert(decode_items(a@.take(i + 1)) == Err::<Seq<ItemView>, ParseError>(x));
                    lemma_items_error_stays(a@, i + 1, a@.len() as int);
                    assert(a@.take(a@.len() as int) =~= a@);

                }
                return Err(x);
            },
        }
        i = i + 1;
    }
    assert(a@.take(i as int) =~= a@);
    Ok(Checklist { name, list })
}

/// Writes the tree of one item.
pub fn item_to_json(item: &ChecklistItem) -> (j: Json)
    ensures
        encodes_item(j, item@),
{
    let comment = match &item.comment {
        Some(c) => Json::Str(c.clone()),
        None => Json::Null,
    };
    let mut e: Vec<(String, Json)> = Vec::new();
    e.push((String::from_str("name"), Json::Str(item.name.clone())));
    e.push((String::from_str("desc"), Json::Str(item.desc.clone())));
    e.push((String::from_str("status"), Json::Str(status_to_token(item.status))));
    e.push((String::from_str("comment"), comment));
    Json::Object(e)
}

/// Writes the tree of a checklist, which reads back as the same checklist.
pub fn checklist_to_json(c: &Checklist) -> (j: Json)
    ensures
        encodes_checklist(j, c@),
        decode_checklist(j) == Ok::<ChecklistView, ParseError>(c@),
{
    let mut a: Vec<Json> = Vec::new();
    let mut i: usize = 0;
    while i < c.list.len()
        invariant
            i <= c.list@.len(),
            a@.len() == i,
            forall|k: int| 0 <= k < i ==> #[trigger] encodes_item(a@[k], c@.items[k]),
        decreases c.list@.len() - i,
    {
        let item = item_to_json(&c.list[i]);
        a.push(item);
        i = i + 1;
    }
    let mut e: Vec<(String, Json)> = Vec::new();
    e.push((String::from_str("name"), Json::Str(c.name.clone())));
    e.push((String::from_str("list"), Json::Array(a)));
    let j = Json::Object(e);
    proof {
        lemma_round_trip(c@);
        assert(encodes_checklist(j, c@));
    }
    j
}

} // verus!
