//! The mail event on the wire: the JSON object that stands for an event,
//! and the event that a JSON object holds.

use serde_json::Value;
use vstd::prelude::*;
use vstd::utf8::encode_utf8;

use crate::model::{ClaimValue, ClaimView, MailEvent, MailEventView};
use crate::service::members::{
    lemma_member_push, member, members_view, named, plain, read_view, same_members, text_member,
    text_of,
};
use crate::util::text::text_view;

verus! {

/// The member that holds the subject of the mail.
pub const SUBJECT_LINE: &'static str = "subject";

/// The member that holds the address the mail goes to.
pub const RECIPIENT: &'static str = "to";

/// The member that holds the name of the person.
pub const PERSON: &'static str = "name";

/// The member that holds the validation code.
pub const CODE: &'static str = "token";

/// The text that `serde_json::to_string` writes for the JSON object with
/// the given members; `None` where it reports an error.
pub uninterp spec fn json_object_text(members: Seq<(Seq<char>, ClaimView)>) -> Option<Seq<char>>;

/// The members of the JSON object that `serde_json::from_str` reads from
/// the bytes of a message; `None` where the bytes are no JSON object.
pub uninterp spec fn json_object_members(content: Seq<u8>) -> Option<Seq<(Seq<char>, ClaimView)>>;

/// Writes the JSON object with the given members with
/// `serde_json::to_string`. Each member is written under its name: an
/// integer as a number, a string as a string, anything else as `null`.
/// The text depends on the members alone. The bytes of a text made of
/// nulls, integers and strings read back as a JSON object that gives every
/// name the value that was written last under it: such values survive the
/// JSON round trip.
#[verifier::external_body]
pub(crate) fn write_object(members: &Vec<(String, ClaimValue)>) -> (json: Option<String>)
    ensures
        text_view(json) == json_object_text(members_view(members@)),
        match json {
            Some(j) => plain(members_view(members@)) ==> (json_object_members(
                encode_utf8(j@),
            ) matches Some(read) && same_members(read, members_view(members@))),
            None => true,
        },
{
    let mut body = serde_json::Map::new();
    for (name, value) in members {
        let written = match value {
            ClaimValue::Integer(n) => Value::from(*n),
            ClaimValue::Text(text) => Value::from(text.clone()),
            _ => Value::Null,
        };
        body.insert(name.clone(), written);
    }
    serde_json::to_string(&body).ok()
}

/// Reads the bytes of a message as text, with `String::from_utf8_lossy`,
/// and the text as a JSON object, with `serde_json::from_str`. The members
/// of the object come back as they are: `null`, an integer that fits 64
/// bits, a string, or a value of another kind. The result depends on the
/// bytes alone.
#[verifier::external_body]
pub(crate) fn read_object(content: &[u8]) -> (members: Option<Vec<(String, ClaimValue)>>)
    ensures
        read_view(members) == json_object_members(content@),
{
    let text = String::from_utf8_lossy(content);
    let body = serde_json::from_str::<serde_json::Map<String, Value>>(&text).ok()?;
    let plain = |value| match value {
        Value::Null => ClaimValue::Null,
        Value::String(text) => ClaimValue::Text(text),
        Value::Number(n) => n.as_i64().map_or(ClaimValue::Other, ClaimValue::Integer),
        _ => ClaimValue::Other,
    };
    Some(body.into_iter().map(|(name, value)| (name, plain(value))).collect())
}

/// The view of an optional mail event.
pub open spec fn event_view(event: Option<MailEvent>) -> Option<MailEventView> {
    match event {
        Some(e) => Some(e@),
        None => None,
    }
}

/// The members that stand for `event`: subject, address, name and code,
/// each a string.
pub open spec fn event_members_of(event: MailEventView) -> Seq<(Seq<char>, ClaimView)> {
    Seq::empty().push((SUBJECT_LINE@, ClaimView::Text(event.subject))).push(
        (RECIPIENT@, ClaimView::Text(event.to)),
    ).push((PERSON@, ClaimView::Text(event.name))).push((CODE@, ClaimView::Text(event.token)))
}

/// The mail event that `members` hold: subject, address, name and code
/// must each be there and be a string. Members of other names are passed
/// over.
pub open spec fn event_of(members: Seq<(Seq<char>, ClaimView)>) -> Option<MailEventView> {
    match (
        text_member(members, SUBJECT_LINE@),
        text_member(members, RECIPIENT@),
        text_member(members, PERSON@),
        text_member(members, CODE@),
    ) {
        (Some(subject), Some(to), Some(name), Some(token)) => Some(
            MailEventView { subject, to, name, token },
        ),
        _ => None,
    }
}

/// The JSON text of a mail event: that of the object with the members
/// that stand for the event.
pub open spec fn mail_event_json(event: MailEventView) -> Option<Seq<char>> {
    json_object_text(event_members_of(event))
}

/// The mail event that the bytes of a message hold: that of the members
/// of the JSON object, where the bytes are one.
pub open spec fn mail_event_read(content: Seq<u8>) -> Option<MailEventView> {
    match json_object_members(content) {
        Some(members) => event_of(members),
        None => None,
    }
}

/// The four member names differ from one another.
pub proof fn lemma_event_names_differ()
    ensures
        SUBJECT_LINE@ != RECIPIENT@,
        SUBJECT_LINE@ != PERSON@,
        SUBJECT_LINE@ != CODE@,
        RECIPIENT@ != PERSON@,
        RECIPIENT@ != CODE@,
        PERSON@ != CODE@,
{
    reveal_strlit("subject");
    reveal_strlit("to");
    reveal_strlit("name");
    reveal_strlit("token");
    assert(SUBJECT_LINE@[0] == 's' && PERSON@[0] == 'n' && CODE@[0] == 't');
    assert(RECIPIENT@.len() == 2 && CODE@.len() == 5 && RECIPIENT@[0] == 't');
}

/// The members that stand for a mail event hold exactly this event, and
/// are nulls, integers and strings only.
pub proof fn lemma_event_members_hold_the_event(event: MailEventView)
    ensures
        event_of(event_members_of(event)) == Some(event),
        plain(event_members_of(event)),
        event_members_of(event).len() == 4,
{
    lemma_event_names_differ();
    let empty = Seq::<(Seq<char>, ClaimView)>::empty();
    let subject = empty.push((SUBJECT_LINE@, ClaimView::Text(event.subject)));
    let to = subject.push((RECIPIENT@, ClaimView::Text(event.to)));
    let name = to.push((PERSON@, ClaimView::Text(event.name)));
    let all = name.push((CODE@, ClaimView::Text(event.token)));
    assert(all == event_members_of(event));
    assert forall|wanted: Seq<char>|
        member(all, wanted) == if wanted == CODE@ {
            Some(ClaimView::Text(event.token))
        } else if wanted == PERSON@ {
            Some(ClaimView::Text(event.name))
        } else if wanted == RECIPIENT@ {
            Some(ClaimView::Text(event.to))
        } else if wanted == SUBJECT_LINE@ {
            Some(ClaimView::Text(event.subject))
        } else {
            None
        } by {
        lemma_member_push(name, CODE@, ClaimView::Text(event.token), wanted);
        lemma_member_push(to, PERSON@, ClaimView::Text(event.name), wanted);
        lemma_member_push(subject, RECIPIENT@, ClaimView::Text(event.to), wanted);
        lemma_member_push(empty, SUBJECT_LINE@, ClaimView::Text(event.subject), wanted);
    }
    assert(member(all, SUBJECT_LINE@) == Some(ClaimView::Text(event.subject)));
    assert(member(all, RECIPIENT@) == Some(ClaimView::Text(event.to)));
    assert(member(all, PERSON@) == Some(ClaimView::Text(event.name)));
    assert(member(all, CODE@) == Some(ClaimView::Text(event.token)));
}

/// Lists that give every name the same value hold the same mail event.
pub proof fn lemma_same_members_hold_the_same_event(
    left: Seq<(Seq<char>, ClaimView)>,
    right: Seq<(Seq<char>, ClaimView)>,
)
    requires
        same_members(left, right),
    ensures
        event_of(left) == event_of(right),
{
    assert(member(left, SUBJECT_LINE@) == member(right, SUBJECT_LINE@));
    assert(member(left, RECIPIENT@) == member(right, RECIPIENT@));
    assert(member(left, PERSON@) == member(right, PERSON@));
    assert(member(left, CODE@) == member(right, CODE@));
}

/// The members that stand for `event`.
pub fn event_members(event: &MailEvent) -> (members: Vec<(String, ClaimValue)>)
    ensures
        members_view(members@) == event_members_of(event@),
{
    let mut members: Vec<(String, ClaimValue)> = Vec::new();
    assert(members_view(members@) =~= Seq::empty());
    let ghost before = members_view(members@);
    members.push(named(SUBJECT_LINE, ClaimValue::Text(event.subject.clone())));
    assert(members_view(members@) =~= before.push((SUBJECT_LINE@, ClaimView::Text(event.subject@))));
    let ghost before = members_view(members@);
    members.push(named(RECIPIENT, ClaimValue::Text(event.to.clone())));
    assert(members_view(members@) =~= before.push((RECIPIENT@, ClaimView::Text(event.to@))));
    let ghost before = members_view(members@);
    members.push(named(PERSON, ClaimValue::Text(event.name.clone())));
    assert(members_view(members@) =~= before.push((PERSON@, ClaimView::Text(event.name@))));
    let ghost before = members_view(members@);
    members.push(named(CODE, ClaimValue::Text(event.token.clone())));
    assert(members_view(members@) =~= before.push((CODE@, ClaimView::Text(event.token@))));
    members
}

/// The mail event that `members` hold, or nothing where one of its four
/// strings is missing or of another kind.
pub fn event_from_members(members: &Vec<(String, ClaimValue)>) -> (event: Option<MailEvent>)
    ensures
        event_view(event) == event_of(members_view(members@)),
{
    let subject = text_of(members, SUBJECT_LINE)?;
    let to = text_of(members, RECIPIENT)?;
    let name = text_of(members, PERSON)?;
    let token = text_of(members, CODE)?;
    Some(MailEvent { subject, to, name, token })
}

/// Writes `event` as JSON text. A text that comes back holds, in its
/// bytes, exactly this event.
pub fn write_event(event: &MailEvent) -> (json: Option<String>)
    ensures
        text_view(json) == mail_event_json(event@),
        json matches Some(j) ==> mail_event_read(encode_utf8(j@)) == Some(event@),
{
    let members = event_members(event);
    let json = write_object(&members);
    proof {
        lemma_event_members_hold_the_event(event@);
        if json is Some {
            let read = json_object_members(encode_utf8(json->0@))->0;
            lemma_same_members_hold_the_same_event(read, event_members_of(event@));
        }
    }
    json
}

/// The mail event that the bytes of a message hold: nothing where the
/// bytes are no JSON object, or where its members hold no event.
pub fn read_event(content: &[u8]) -> (event: Option<MailEvent>)
    ensures
        event_view(event) == mail_event_read(content@),
{
    match read_object(content) {
        Some(members) => event_from_members(&members),
        None => None,
    }
}

} // verus!
