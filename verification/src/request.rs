//! What a request for a connection carries: the token of the user and the
//! room to join.

use vstd::prelude::*;
use vstd::std_specs::iter::IteratorSpec;
use vstd::string::StrSliceExecFns;

verus! {

/// Why a request for a connection is turned down before its token is looked
/// at.
#[derive(Debug, Clone, Copy, PartialEq, Eq, Structural)]
pub enum RequestError {
    /// Neither the header nor the query holds a token.
    MissingToken,
}

/// The first place in `s`, from `from` on and before `to`, that holds `c`;
/// `to` where there is none.
pub open spec fn find_in(s: Seq<char>, c: char, from: int, to: int) -> int
    decreases to - from,
{
    if from >= to {
        to
    } else if s[from] == c {
        from
    } else {
        find_in(s, c, from + 1, to)
    }
}

/// The value that the segment `s[from..to)` of a query gives to `key`. A
/// segment is split at its `=` signs; it gives a value where its first part
/// is the key and a second part follows, and the value is that second part.
pub open spec fn segment_value(s: Seq<char>, key: Seq<char>, from: int, to: int) -> Option<Seq<char>> {
    let eq = find_in(s, '=', from, to);
    if eq < to && s.subrange(from, eq) == key {
        Some(s.subrange(eq + 1, find_in(s, '=', eq + 1, to)))
    } else {
        None
    }
}

/// The value of `key` in the part of the query `s` that starts at `from`:
/// that of the first segment that gives one, the segments being what lies
/// between the `&` signs.
pub open spec fn value_from(s: Seq<char>, key: Seq<char>, from: int) -> Option<Seq<char>>
    decreases s.len() - from,
{
    let end = find_in(s, '&', from, s.len() as int);
    match segment_value(s, key, from, end) {
        Some(value) => Some(value),
        None => if from <= end < s.len() {
            value_from(s, key, end + 1)
        } else {
            None
        },
    }
}

/// The value of `key` in a query string.
pub open spec fn query_value_of(query: Seq<char>, key: Seq<char>) -> Option<Seq<char>> {
    value_from(query, key, 0)
}

/// The token of an `Authorization` header: what follows `Bearer ` where the
/// header starts with that.
pub open spec fn bearer_of(header: Seq<char>) -> Option<Seq<char>> {
    if header.len() >= 7 && header.subrange(0, 7) == "Bearer "@ {
        Some(header.subrange(7, header.len() as int))
    } else {
        None
    }
}

/// The token of a request: the header's where it has one, else the value of
/// `token` in the query.
pub open spec fn token_of(authorization: Option<&str>, query: Seq<char>) -> Option<Seq<char>> {
    match authorization {
        Some(header) => match bearer_of(header@) {
            Some(token) => Some(token),
            None => query_value_of(query, "token"@),
        },
        None => query_value_of(query, "token"@),
    }
}

/// The name of the room of a request: the value of `room_id` in the query,
/// whatever text that is, and `default` where the query names no room.
pub open spec fn room_name_of(query: Seq<char>) -> Seq<char> {
    match query_value_of(query, "room_id"@) {
        Some(name) => name,
        None => "default"@,
    }
}

/// The characters of `text`, one by one.
fn chars_of(text: &str) -> (chars: Vec<char>)
    ensures
        chars@ == text@,
{
    let mut chars: Vec<char> = Vec::new();
    for c in it: text.chars()
        invariant
            it.seq() == text@,
            chars@ == text@.take(it.index()),
    {
        chars.push(c);
        assert(text@.take(it.index() + 1) =~= text@.take(it.index()).push(c));
    }
    assert(text@.take(text@.len() as int) =~= text@);
    chars
}

fn find(s: &Vec<char>, c: char, from: usize, to: usize) -> (at: usize)
    requires
        from <= to <= s@.len(),
    ensures
        at == find_in(s@, c, from as int, to as int),
        from <= at <= to,
{
    let mut i = from;
    while i < to && s[i] != c
        invariant
            from <= i <= to <= s@.len(),
            find_in(s@, c, from as int, to as int) == find_in(s@, c, i as int, to as int),
        decreases to - i,
    {
        i = i + 1;
    }
    i
}

/// Whether `s[from..to)` reads `key`.
fn reads(s: &Vec<char>, from: usize, to: usize, key: &Vec<char>) -> (same: bool)
    requires
        from <= to <= s@.len(),
    ensures
        same == (s@.subrange(from as int, to as int) == key@),
{
    if to - from != key.len() {
        return false;
    }
    let mut i: usize = 0;
    while i < key.len()
        invariant
            from <= to <= s@.len(),
            to - from == key@.len(),
            i <= key@.len(),
            forall|j: int| 0 <= j < i ==> s@[from + j] == key@[j],
        decreases key@.len() - i,
    {
        if s[from + i] != key[i] {
            assert(s@.subrange(from as int, to as int)[i as int] != key@[i as int]);
            return false;
        }
        i = i + 1;
    }
    assert(s@.subrange(from as int, to as int) =~= key@);
    true
}

/// Where in `s` the value of `key` stands.
fn value_range(s: &Vec<char>, key: &Vec<char>) -> (range: Option<(usize, usize)>)
    ensures
        match range {
            Some((from, to)) => from <= to <= s@.len() && query_value_of(s@, key@) == Some(
                s@.subrange(from as int, to as int),
            ),
            None => query_value_of(s@, key@) is None,
        },
{
    let len = s.len();
    let mut from: usize = 0;
    loop
        invariant
            from <= len == s@.len(),
            query_value_of(s@, key@) == value_from(s@, key@, from as int),
        decreases len - from,
    {
        let end = find(s, '&', from, len);
        let eq = find(s, '=', from, end);
        if eq < end && reads(s, from, eq, key) {
            let stop = find(s, '=', eq + 1, end);
            return Some((eq + 1, stop));
        }
        if end >= len {
            return None;
        }
        from = end + 1;
    }
}

/// The value of `key` in the query string `query`, where it has one.
///
/// The query is a run of segments with `&` between them, each split at its
/// `=` signs. The first segment whose first part is `key` and that has a
/// second part decides, and that second part is the value.
pub fn query_value<'a>(query: &'a str, key: &str) -> (value: Option<&'a str>)
    ensures
        match value {
            Some(v) => query_value_of(query@, key@) == Some(v@),
            None => query_value_of(query@, key@) is None,
        },
{
    let chars = chars_of(query);
    let key_chars = chars_of(key);
    match value_range(&chars, &key_chars) {
        Some((from, to)) => Some(query.substring_char(from, to)),
        None => None,
    }
}

/// The token of an `Authorization` header that starts with `Bearer `.
pub fn bearer_token<'a>(header: &'a str) -> (token: Option<&'a str>)
    ensures
        match token {
            Some(t) => bearer_of(header@) == Some(t@),
            None => bearer_of(header@) is None,
        },
{
    let chars = chars_of(header);
    let prefix = chars_of("Bearer ");
    proof {
        reveal_strlit("Bearer ");
    }
    if chars.len() >= 7 && reads(&chars, 0, 7, &prefix) {
        Some(header.substring_char(7, chars.len()))
    } else {
        None
    }
}

/// The token of a request, from its `Authorization` header or else from the
/// `token` of its query.
pub fn request_token<'a>(authorization: Option<&'a str>, query: &'a str) -> (token: Result<&'a str, RequestError>)
    ensures
        match token {
            Ok(t) => token_of(authorization, query@) == Some(t@),
            Err(e) => e == RequestError::MissingToken && token_of(authorization, query@) is None,
        },
{
    let from_header = match authorization {
        Some(header) => bearer_token(header),
        None => None,
    };
    match from_header {
        Some(token) => Ok(token),
        None => match query_value(query, "token") {
            Some(token) => Ok(token),
            None => Err(RequestError::MissingToken),
        },
    }
}

/// The name of the room that a request asks for: the value of `room_id` in
/// the query, and `default` where the query names none. Every text is the
/// name of a room; none is turned down.
pub fn request_room_name<'a>(query: &'a str) -> (name: &'a str)
    ensures
        name@ == room_name_of(query@),
{
    match query_value(query, "room_id") {
        Some(name) => name,
        None => "default",
    }
}

} // verus!
