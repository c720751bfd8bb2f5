//! The members of a signed claim set: which members stand for a set of
//! claims, and which claims a list of members holds.

use vstd::prelude::*;
use vstd::string::StringExecFns;

use crate::model::{ClaimSet, ClaimValue, ClaimView, JwtTokenClaims};
use crate::util::text::text_view;

verus! {

/// The member that names the user.
pub const SUBJECT: &'static str = "sub";

/// The member that names the session of a refresh token.
pub const SESSION: &'static str = "tokenUuid";

/// The member that holds the expiry.
pub const EXPIRY: &'static str = "exp";

/// The member that holds the time of issue.
pub const ISSUED_AT: &'static str = "iat";

/// The member that holds the time from which the token counts.
pub const NOT_BEFORE: &'static str = "nbf";

/// The member that names an audience. No token of this service has one.
pub const AUDIENCE: &'static str = "aud";

/// A list of members as mathematical values.
pub open spec fn members_view(members: Seq<(String, ClaimValue)>) -> Seq<(Seq<char>, ClaimView)> {
    members.map_values(|m: (String, ClaimValue)| (m.0@, m.1@))
}

/// The value of the member `name` in `members`: that of the last member
/// of this name, where there is one.
pub open spec fn member(members: Seq<(Seq<char>, ClaimView)>, name: Seq<char>) -> Option<ClaimView>
    decreases members.len(),
{
    if members.len() == 0 {
        None
    } else if members.last().0 == name {
        Some(members.last().1)
    } else {
        member(members.drop_last(), name)
    }
}

/// Holds when two lists give every name the same value.
pub open spec fn same_members(
    left: Seq<(Seq<char>, ClaimView)>,
    right: Seq<(Seq<char>, ClaimView)>,
) -> bool {
    forall|name: Seq<char>| #[trigger] member(left, name) == member(right, name)
}

/// Holds for a list of nulls, integers and strings only.
pub open spec fn plain(members: Seq<(Seq<char>, ClaimView)>) -> bool {
    forall|i: int| 0 <= i < members.len() ==> !((#[trigger] members[i]).1 is Other)
}

/// Holds for a list that a token reads back as it was written: it holds
/// nulls, integers and strings only, and no audience.
pub open spec fn writable(members: Seq<(Seq<char>, ClaimView)>) -> bool {
    &&& plain(members)
    &&& member(members, AUDIENCE@) is None
}

/// The view of an optional list of members.
pub open spec fn read_view(members: Option<Vec<(String, ClaimValue)>>) -> Option<
    Seq<(Seq<char>, ClaimView)>,
> {
    match members {
        Some(m) => Some(members_view(m@)),
        None => None,
    }
}

/// The string under `name`, where the member is there and is a string.
pub open spec fn text_member(members: Seq<(Seq<char>, ClaimView)>, name: Seq<char>) -> Option<
    Seq<char>,
> {
    match member(members, name) {
        Some(ClaimView::Text(text)) => Some(text),
        _ => None,
    }
}

/// The members that stand for `claims`: subject, session, expiry, time of
/// issue and time from which the token counts, in this order. The session
/// is there only where the claims name one.
pub open spec fn claim_members_of(claims: ClaimSet) -> Seq<(Seq<char>, ClaimView)> {
    let subject = Seq::empty().push((SUBJECT@, ClaimView::Integer(claims.sub)));
    let session = match claims.token_uuid {
        Some(uuid) => subject.push((SESSION@, ClaimView::Text(uuid))),
        None => subject,
    };
    session.push((EXPIRY@, ClaimView::Integer(claims.exp))).push(
        (ISSUED_AT@, ClaimView::Integer(claims.iat)),
    ).push((NOT_BEFORE@, ClaimView::Integer(claims.nbf)))
}

/// The integer under `name`, where the member is there and is an integer.
pub open spec fn integer_member(members: Seq<(Seq<char>, ClaimView)>, name: Seq<char>) -> Option<
    i64,
> {
    match member(members, name) {
        Some(ClaimView::Integer(n)) => Some(n),
        _ => None,
    }
}

/// The session that `members` name: none where the member is absent or
/// null, the string where it is one. A session member of any other kind
/// is refused.
pub open spec fn session_member(members: Seq<(Seq<char>, ClaimView)>) -> Option<Option<Seq<char>>> {
    match member(members, SESSION@) {
        None => Some(None),
        Some(ClaimView::Null) => Some(None),
        Some(ClaimView::Text(uuid)) => Some(Some(uuid)),
        Some(_) => None,
    }
}

/// The claims that `members` hold: subject, expiry, time of issue and
/// time from which the token counts must be integers, and the session
/// must be acceptable. Members of other names are passed over.
pub open spec fn claims_of(members: Seq<(Seq<char>, ClaimView)>) -> Option<ClaimSet> {
    match (
        integer_member(members, SUBJECT@),
        session_member(members),
        integer_member(members, EXPIRY@),
        integer_member(members, ISSUED_AT@),
        integer_member(members, NOT_BEFORE@),
    ) {
        (Some(sub), Some(token_uuid), Some(exp), Some(iat), Some(nbf)) => Some(
            ClaimSet { sub, token_uuid, exp, iat, nbf },
        ),
        _ => None,
    }
}

/// Looking a name up after one more member: the new member where it has
/// the name, else what was there before.
pub proof fn lemma_member_push(
    members: Seq<(Seq<char>, ClaimView)>,
    name: Seq<char>,
    value: ClaimView,
    wanted: Seq<char>,
)
    ensures
        member(members.push((name, value)), wanted) == if name == wanted {
            Some(value)
        } else {
            member(members, wanted)
        },
{
    assert(members.push((name, value)).drop_last() =~= members);
}

/// The six member names differ from one another.
pub proof fn lemma_names_differ()
    ensures
        SUBJECT@ != SESSION@,
        SUBJECT@ != EXPIRY@,
        SUBJECT@ != ISSUED_AT@,
        SUBJECT@ != NOT_BEFORE@,
        SUBJECT@ != AUDIENCE@,
        SESSION@ != EXPIRY@,
        SESSION@ != ISSUED_AT@,
        SESSION@ != NOT_BEFORE@,
        SESSION@ != AUDIENCE@,
        EXPIRY@ != ISSUED_AT@,
        EXPIRY@ != NOT_BEFORE@,
        EXPIRY@ != AUDIENCE@,
        ISSUED_AT@ != NOT_BEFORE@,
        ISSUED_AT@ != AUDIENCE@,
        NOT_BEFORE@ != AUDIENCE@,
{
    reveal_strlit("sub");
    reveal_strlit("tokenUuid");
    reveal_strlit("exp");
    reveal_strlit("iat");
    reveal_strlit("nbf");
    reveal_strlit("aud");
    assert(SUBJECT@[0] == 's' && EXPIRY@[0] == 'e' && ISSUED_AT@[0] == 'i');
    assert(NOT_BEFORE@[0] == 'n' && AUDIENCE@[0] == 'a' && SESSION@[0] == 't');
}

/// The members that stand for a set of claims hold exactly these claims,
/// and are a list that reads back as it was written.
pub proof fn lemma_claim_members_hold_the_claims(claims: ClaimSet)
    ensures
        claims_of(claim_members_of(claims)) == Some(claims),
        writable(claim_members_of(claims)),
        member(claim_members_of(claims), SESSION@) == match claims.token_uuid {
            Some(uuid) => Some(ClaimView::Text(uuid)),
            None => None,
        },
{
    lemma_names_differ();
    let empty = Seq::<(Seq<char>, ClaimView)>::empty();
    let subject = empty.push((SUBJECT@, ClaimView::Integer(claims.sub)));
    let session = match claims.token_uuid {
        Some(uuid) => subject.push((SESSION@, ClaimView::Text(uuid))),
        None => subject,
    };
    let expiry = session.push((EXPIRY@, ClaimView::Integer(claims.exp)));
    let issued = expiry.push((ISSUED_AT@, ClaimView::Integer(claims.iat)));
    let all = issued.push((NOT_BEFORE@, ClaimView::Integer(claims.nbf)));
    assert(all == claim_members_of(claims));
    assert forall|wanted: Seq<char>|
        member(all, wanted) == if wanted == NOT_BEFORE@ {
            Some(ClaimView::Integer(claims.nbf))
        } else if wanted == ISSUED_AT@ {
            Some(ClaimView::Integer(claims.iat))
        } else if wanted == EXPIRY@ {
            Some(ClaimView::Integer(claims.exp))
        } else if wanted == SESSION@ && claims.token_uuid is Some {
            Some(ClaimView::Text(claims.token_uuid->0))
        } else if wanted == SUBJECT@ {
            Some(ClaimView::Integer(claims.sub))
        } else {
            None
        } by {
        lemma_member_push(issued, NOT_BEFORE@, ClaimView::Integer(claims.nbf), wanted);
        lemma_member_push(expiry, ISSUED_AT@, ClaimView::Integer(claims.iat), wanted);
        lemma_member_push(session, EXPIRY@, ClaimView::Integer(claims.exp), wanted);
        if claims.token_uuid is Some {
            lemma_member_push(subject, SESSION@, ClaimView::Text(claims.token_uuid->0), wanted);
        }
        lemma_member_push(empty, SUBJECT@, ClaimView::Integer(claims.sub), wanted);
    }
    assert(member(all, SUBJECT@) == Some(ClaimView::Integer(claims.sub)));
    assert(member(all, EXPIRY@) == Some(ClaimView::Integer(claims.exp)));
    assert(member(all, ISSUED_AT@) == Some(ClaimView::Integer(claims.iat)));
    assert(member(all, NOT_BEFORE@) == Some(ClaimView::Integer(claims.nbf)));
    assert(member(all, AUDIENCE@) is None);
}

/// Lists that give every name the same value hold the same claims.
pub proof fn lemma_same_members_hold_the_same_claims(
    left: Seq<(Seq<char>, ClaimView)>,
    right: Seq<(Seq<char>, ClaimView)>,
)
    requires
        same_members(left, right),
    ensures
        claims_of(left) == claims_of(right),
{
    assert(member(left, SUBJECT@) == member(right, SUBJECT@));
    assert(member(left, SESSION@) == member(right, SESSION@));
    assert(member(left, EXPIRY@) == member(right, EXPIRY@));
    assert(member(left, ISSUED_AT@) == member(right, ISSUED_AT@));
    assert(member(left, NOT_BEFORE@) == member(right, NOT_BEFORE@));
}

/// One member: its name and its value.
pub fn named(name: &str, value: ClaimValue) -> (m: (String, ClaimValue))
    ensures
        m.0@ == name@,
        m.1 == value,
{
    (String::from_str(name), value)
}

/// The members that stand for `claims`. An access token, which names no
/// session, gets no session member.
pub fn claim_members(claims: &JwtTokenClaims) -> (members: Vec<(String, ClaimValue)>)
    ensures
        members_view(members@) == claim_members_of(claims@),
{
    let mut members: Vec<(String, ClaimValue)> = Vec::new();
    assert(members_view(members@) =~= Seq::empty());
    let ghost before = members_view(members@);
    members.push(named(SUBJECT, ClaimValue::Integer(claims.sub)));
    assert(members_view(members@) =~= before.push((SUBJECT@, ClaimView::Integer(claims.sub))));
    if let Some(uuid) = &claims.token_uuid {
        let ghost before = members_view(members@);
        members.push(named(SESSION, ClaimValue::Text(uuid.clone())));
        assert(members_view(members@) =~= before.push((SESSION@, ClaimView::Text(uuid@))));
    }
    let ghost before = members_view(members@);
    members.push(named(EXPIRY, ClaimValue::Integer(claims.exp)));
    assert(members_view(members@) =~= before.push((EXPIRY@, ClaimView::Integer(claims.exp))));
    let ghost before = members_view(members@);
    members.push(named(ISSUED_AT, ClaimValue::Integer(claims.iat)));
    assert(members_view(members@) =~= before.push((ISSUED_AT@, ClaimView::Integer(claims.iat))));
    let ghost before = members_view(members@);
    members.push(named(NOT_BEFORE, ClaimValue::Integer(claims.nbf)));
    assert(members_view(members@) =~= before.push((NOT_BEFORE@, ClaimView::Integer(claims.nbf))));
    members
}

/// The place of the member `name` in `members`: that of the last member
/// of this name, where there is one.
pub fn find_member(members: &Vec<(String, ClaimValue)>, name: &str) -> (place: Option<usize>)
    ensures
        match place {
            Some(i) => {
                &&& i < members.len()
                &&& members[i as int].0@ == name@
                &&& member(members_view(members@), name@) == Some(members[i as int].1@)
            },
            None => member(members_view(members@), name@) is None,
        },
{
    let wanted = String::from_str(name);
    let ghost all = members_view(members@);
    let mut i: usize = members.len();
    assert(all.subrange(0, i as int) =~= all);
    while i > 0
        invariant
            i <= members.len(),
            all == members_view(members@),
            wanted@ == name@,
            member(all, name@) == member(all.subrange(0, i as int), name@),
        decreases i,
    {
        let ghost upto = all.subrange(0, i as int);
        assert(upto.last() == all[i - 1]);
        assert(upto.drop_last() =~= all.subrange(0, i - 1));
        if members[i - 1].0 == wanted {
            return Some(i - 1);
        }
        i = i - 1;
    }
    None
}

/// The integer under `name` in `members`.
pub fn integer_of(members: &Vec<(String, ClaimValue)>, name: &str) -> (value: Option<i64>)
    ensures
        value == integer_member(members_view(members@), name@),
{
    match find_member(members, name) {
        Some(i) => match &members[i].1 {
            ClaimValue::Integer(n) => Some(*n),
            _ => None,
        },
        None => None,
    }
}

/// The string under `name` in `members`.
pub fn text_of(members: &Vec<(String, ClaimValue)>, name: &str) -> (value: Option<String>)
    ensures
        text_view(value) == text_member(members_view(members@), name@),
{
    match find_member(members, name) {
        Some(i) => match &members[i].1 {
            ClaimValue::Text(text) => Some(text.clone()),
            _ => None,
        },
        None => None,
    }
}

/// The session that `members` name, or nothing where the session member
/// is of a kind that is refused.
pub fn session_of(members: &Vec<(String, ClaimValue)>) -> (session: Option<Option<String>>)
    ensures
        match session {
            Some(Some(uuid)) => session_member(members_view(members@)) == Some(Some(uuid@)),
            Some(None) => session_member(members_view(members@)) == Some(None::<Seq<char>>),
            None => session_member(members_view(members@)) is None,
        },
{
    match find_member(members, SESSION) {
        None => Some(None),
        Some(i) => match &members[i].1 {
            ClaimValue::Null => Some(None),
            ClaimValue::Text(uuid) => Some(Some(uuid.clone())),
            _ => None,
        },
    }
}

/// The claims that `members` hold, or nothing where a claim is missing or
/// of another kind.
pub fn claims_from_members(members: &Vec<(String, ClaimValue)>) -> (claims: Option<JwtTokenClaims>)
    ensures
        match claims {
            Some(c) => claims_of(members_view(members@)) == Some(c@),
            None => claims_of(members_view(members@)) is None,
        },
{
    let sub = integer_of(members, SUBJECT)?;
    let token_uuid = session_of(members)?;
    let exp = integer_of(members, EXPIRY)?;
    let iat = integer_of(members, ISSUED_AT)?;
    let nbf = integer_of(members, NOT_BEFORE)?;
    Some(JwtTokenClaims { sub, token_uuid, exp, iat, nbf })
}

} // verus!
