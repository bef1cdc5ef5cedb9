//! The address of the database: how it splits into a server and a name.

use crate::text::{chars_of, push_str, string_of};
use vstd::prelude::*;

verus! {

/// What can go wrong when the database is set up.
#[derive(Debug)]
pub enum DatabaseError {
    /// The address does not have the form of a database address.
    UrlParse(String),
    /// The database answered with an error.
    Sqlx(String),
    /// The database could not be created.
    CreateDb(String),
}

/// What a [`DatabaseError`] holds.
pub enum DatabaseErrorView {
    UrlParse(Seq<char>),
    Sqlx(Seq<char>),
    CreateDb(Seq<char>),
}

impl View for DatabaseError {
    type V = DatabaseErrorView;

    open spec fn view(&self) -> DatabaseErrorView {
        match self {
            DatabaseError::UrlParse(reason) => DatabaseErrorView::UrlParse(reason@),
            DatabaseError::Sqlx(reason) => DatabaseErrorView::Sqlx(reason@),
            DatabaseError::CreateDb(reason) => DatabaseErrorView::CreateDb(reason@),
        }
    }
}

/// The error as one line of text.
pub open spec fn database_error_text(error: DatabaseErrorView) -> Seq<char> {
    match error {
        DatabaseErrorView::UrlParse(reason) => "Failed to parse database URL: "@ + reason,
        DatabaseErrorView::Sqlx(reason) => "Database error: "@ + reason,
        DatabaseErrorView::CreateDb(reason) => "Failed to create database: "@ + reason,
    }
}

impl DatabaseError {
    /// The error as one line of text.
    pub fn message(&self) -> (out: String)
        ensures
            out@ == database_error_text(self@),
    {
        let mut text: Vec<char> = Vec::new();
        match self {
            DatabaseError::UrlParse(reason) => {
                push_str(&mut text, "Failed to parse database URL: ");
                push_str(&mut text, reason.as_str());
            },
            DatabaseError::Sqlx(reason) => {
                push_str(&mut text, "Database error: ");
                push_str(&mut text, reason.as_str());
            },
            DatabaseError::CreateDb(reason) => {
                push_str(&mut text, "Failed to create database: ");
                push_str(&mut text, reason.as_str());
            },
        }
        assert(text@ =~= database_error_text(self@));
        string_of(&text)
    }
}

/// The position of the last `c` in `s`, if `s` holds one.
pub open spec fn last_index_of(s: Seq<char>, c: char) -> Option<int>
    decreases s.len(),
{
    if s.len() == 0 {
        None
    } else if s.last() == c {
        Some(s.len() - 1)
    } else {
        last_index_of(s.drop_last(), c)
    }
}

/// The position of the first `c` in `s`, if `s` holds one.
pub open spec fn first_index_of(s: Seq<char>, c: char) -> Option<int>
    decreases s.len(),
{
    if s.len() == 0 {
        None
    } else if s.first() == c {
        Some(0)
    } else {
        match first_index_of(s.drop_first(), c) {
            Some(i) => Some(i + 1),
            None => None,
        }
    }
}

/// The last `c` of `s` is a `c`, and no `c` comes after it; where there is
/// none, `s` holds no `c` at all.
pub proof fn lemma_last_index_of(s: Seq<char>, c: char)
    ensures
        match last_index_of(s, c) {
            Some(at) => 0 <= at < s.len() && s[at] == c && forall|i: int|
                at < i < s.len() ==> s[i] != c,
            None => forall|i: int| 0 <= i < s.len() ==> s[i] != c,
        },
    decreases s.len(),
{
    if s.len() > 0 && s.last() != c {
        lemma_last_index_of(s.drop_last(), c);
        assert forall|i: int| 0 <= i < s.len() - 1 implies s[i] == s.drop_last()[i] by {}
    }
}

/// The first `c` of `s` is a `c`, and no `c` comes before it; where there is
/// none, `s` holds no `c` at all.
pub proof fn lemma_first_index_of(s: Seq<char>, c: char)
    ensures
        match first_index_of(s, c) {
            Some(at) => 0 <= at < s.len() && s[at] == c && forall|i: int|
                0 <= i < at ==> s[i] != c,
            None => forall|i: int| 0 <= i < s.len() ==> s[i] != c,
        },
    decreases s.len(),
{
    if s.len() > 0 && s.first() != c {
        let rest = s.drop_first();
        lemma_first_index_of(rest, c);
        assert forall|i: int| 1 <= i < s.len() implies s[i] == rest[i - 1] by {}
    }
}

/// The name of the database in what follows the last slash of an address:
/// all of it up to the first question mark, or all of it where there is none.
pub open spec fn database_name(tail: Seq<char>) -> Seq<char> {
    match first_index_of(tail, '?') {
        Some(mark) => tail.subrange(0, mark),
        None => tail,
    }
}

/// The two parts of a database address: what stands before its last slash,
/// and the name of the database. An address without a slash has none.
pub open spec fn address_parts(url: Seq<char>) -> Option<(Seq<char>, Seq<char>)> {
    match last_index_of(url, '/') {
        Some(slash) => Some(
            (url.subrange(0, slash), database_name(url.subrange(slash + 1, url.len() as int))),
        ),
        None => None,
    }
}

/// The reason given for an address without a slash.
pub open spec fn invalid_format() -> Seq<char> {
    "Invalid database URL format"@
}

fn find_last(s: &Vec<char>, c: char) -> (found: Option<usize>)
    ensures
        found matches Some(at) ==> last_index_of(s@, c) == Some(at as int) && at < s@.len(),
        found is None ==> last_index_of(s@, c) is None,
{
    let mut i: usize = s.len();
    assert(s@.subrange(0, i as int) =~= s@);
    while i > 0
        invariant
            i <= s.len(),
            last_index_of(s@, c) == last_index_of(s@.subrange(0, i as int), c),
        decreases i,
    {
        proof {
            let prefix = s@.subrange(0, i as int);
            assert(prefix.drop_last() =~= s@.subrange(0, i - 1));
            assert(prefix.last() == s@[i - 1]);
        }
        if s[i - 1] == c {
            return Some(i - 1);
        }
        i = i - 1;
    }
    None
}

fn find_first_from(s: &Vec<char>, c: char, from: usize) -> (found: Option<usize>)
    requires
        from <= s@.len(),
    ensures
        found matches Some(at) ==> from <= at < s@.len() && first_index_of(
            s@.subrange(from as int, s@.len() as int),
            c,
        ) == Some(at - from),
        found is None ==> first_index_of(s@.subrange(from as int, s@.len() as int), c) is None,
{
    let mut i: usize = s.len();
    let mut found: Option<usize> = None;
    while i > from
        invariant
            from <= i <= s.len(),
            found matches Some(at) ==> i <= at < s@.len() && first_index_of(
                s@.subrange(i as int, s@.len() as int),
                c,
            ) == Some(at - i),
            found is None ==> first_index_of(s@.subrange(i as int, s@.len() as int), c) is None,
        decreases i,
    {
        proof {
            let tail = s@.subrange(i - 1, s@.len() as int);
            assert(tail.drop_first() =~= s@.subrange(i as int, s@.len() as int));
            assert(tail.first() == s@[i - 1]);
        }
        if s[i - 1] == c {
            found = Some(i - 1);
        }
        i = i - 1;
    }
    found
}

/// Splits a database address into what stands before its last slash and the
/// name of the database, which ends before the first question mark after
/// that slash. An address without a slash is refused.
pub fn parse_database_url(database_url: &str) -> (parts: Result<(String, String), DatabaseError>)
    ensures
        match parts {
            Ok((base, name)) => address_parts(database_url@) == Some((base@, name@)),
            Err(error) => address_parts(database_url@) is None && error@
                == DatabaseErrorView::UrlParse(invalid_format()),
        },
{
    let url = chars_of(database_url);
    let slash = match find_last(&url, '/') {
        None => {
            return Err(DatabaseError::UrlParse("Invalid database URL format".to_owned()));
        },
        Some(slash) => slash,
    };
    let end = match find_first_from(&url, '?', slash + 1) {
        None => url.len(),
        Some(mark) => mark,
    };
    let mut base: Vec<char> = Vec::new();
    let mut i: usize = 0;
    while i < slash
        invariant
            i <= slash < url.len(),
            base@ == url@.subrange(0, i as int),
        decreases slash - i,
    {
        base.push(url[i]);
        i = i + 1;
        assert(base@ =~= url@.subrange(0, i as int));
    }
    let mut name: Vec<char> = Vec::new();
    let mut j: usize = slash + 1;
    while j < end
        invariant
            slash + 1 <= j <= end <= url.len(),
            name@ == url@.subrange(slash + 1, j as int),
        decreases end - j,
    {
        name.push(url[j]);
        j = j + 1;
        assert(name@ =~= url@.subrange(slash + 1, j as int));
    }
    proof {
        let tail = url@.subrange(slash + 1, url@.len() as int);
        assert(name@ =~= database_name(tail));
    }
    Ok((string_of(&base), string_of(&name)))
}

/// The statement that creates the database `name`.
pub open spec fn create_database_text(name: Seq<char>) -> Seq<char> {
    "CREATE DATABASE "@ + name
}

/// The statement that creates the database `name`.
pub fn create_database_statement(name: &str) -> (out: String)
    ensures
        out@ == create_database_text(name@),
{
    let mut text: Vec<char> = Vec::new();
    push_str(&mut text, "CREATE DATABASE ");
    push_str(&mut text, name);
    assert(text@ =~= create_database_text(name@));
    string_of(&text)
}

} // verus!
