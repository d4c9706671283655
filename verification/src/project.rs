//! What the project store keeps: the record of a project, the outcome of a
//! store operation, and the JSON text that a list of tags is kept as.
//!
//! The store itself is not here. These are the values that go in and come out.

use vstd::prelude::*;

verus! {

/// The outcome of a store operation.
#[derive(Debug)]
pub struct ExecutionResult {
    pub success: bool,
    pub message: String,
}

/// A project as the store hands it out. `connections` is the saved connection
/// list as opaque text, empty where none was saved.
#[derive(Debug)]
pub struct ProjectDataResult {
    pub id: Option<i64>,
    pub name: String,
    pub description: String,
    pub tags: Vec<String>,
    pub connections: String,
}

#[verifier::external_type_specification]
#[verifier::external_body]
pub struct ExJsonError(serde_json::Error);

/// What `serde_json::to_string` makes of the list of texts `tags`: the JSON
/// text, or nothing where it reports an error.
pub uninterp spec fn json_of_strings(tags: Seq<Seq<char>>) -> Option<Seq<char>>;

/// What `serde_json::from_str` reads from `text` as a list of texts: the list,
/// or nothing where it reports an error.
pub uninterp spec fn strings_of_json(text: Seq<char>) -> Option<Seq<Seq<char>>>;

/// The text of a result, if it is one.
pub open spec fn text_if_ok<E>(r: Result<String, E>) -> Option<Seq<char>> {
    match r {
        Ok(s) => Some(s@),
        Err(_) => None,
    }
}

/// The list of a result, if it is one.
pub open spec fn list_if_ok<E>(r: Result<Vec<String>, E>) -> Option<Seq<Seq<char>>> {
    match r {
        Ok(v) => Some(v.deep_view()),
        Err(_) => None,
    }
}

/// Calls `serde_json::to_string` on a list of texts. Trusted: the call
/// succeeds, since the encoder writes into a byte vector, whose writes cannot
/// fail, and neither a list nor a text reports an error of its own; and the
/// outcome depends on the texts alone. This library names the outcome
/// `json_of_strings` and claims nothing more of it.
#[verifier::external_body]
fn strings_to_json(tags: &Vec<String>) -> (r: Result<String, serde_json::Error>)
    ensures
        r is Ok,
        text_if_ok(r) == json_of_strings(tags.deep_view()),
{
    serde_json::to_string(tags)
}

/// Calls `serde_json::from_str` for a list of texts. Trusted: the outcome
/// depends on the text alone; this library names it `strings_of_json` and
/// claims nothing more of it.
#[verifier::external_body]
fn strings_from_json(text: &str) -> (r: Result<Vec<String>, serde_json::Error>)
    ensures
        list_if_ok(r) == strings_of_json(text@),
{
    serde_json::from_str::<Vec<String>>(text)
}

/// Renders a `serde_json::Error` by its `Display`. Trusted, with nothing
/// claimed of the text.
#[verifier::external_body]
fn json_error_text(e: &serde_json::Error) -> (s: String) {
    e.to_string()
}

/// The text that a list of tags is stored as, where the list may be absent:
/// the text handed in, or the empty JSON list where there is no list.
pub fn stored_tags<E>(encoded: Option<Result<String, E>>) -> (r: Result<String, E>)
    ensures
        match encoded {
            Some(Ok(s)) => r matches Ok(t) && t@ == s@,
            Some(Err(e)) => r == Err::<String, E>(e),
            None => r matches Ok(t) && t@ == "[]"@,
        },
{
    match encoded {
        Some(r) => r,
        None => Ok(String::from_str("[]")),
    }
}

/// The tags read from the store: the list handed in, or no tags at all where
/// the stored text could not be read as a list.
pub fn tags_or_empty<E>(parsed: Result<Vec<String>, E>) -> (tags: Vec<String>)
    ensures
        match parsed {
            Ok(v) => tags == v,
            Err(_) => tags@.len() == 0,
        },
{
    match parsed {
        Ok(v) => v,
        Err(_) => Vec::new(),
    }
}

/// The JSON text that `tags` are stored as; `[]` where there is no list.
/// Encoding a list of texts always succeeds.
pub fn encode_tags(tags: &Option<Vec<String>>) -> (r: Result<String, String>)
    ensures
        r is Ok,
        match *tags {
            None => r matches Ok(t) && t@ == "[]"@,
            Some(v) => text_if_ok(r) == json_of_strings(v.deep_view()),
        },
{
    let encoded = match tags {
        Some(v) => Some(
            match strings_to_json(v) {
                Ok(s) => Ok(s),
                Err(e) => Err(json_error_text(&e)),
            },
        ),
        None => None,
    };
    stored_tags(encoded)
}

/// The tags that the stored text `text` holds; none where it is no JSON list
/// of texts.
pub fn decode_tags(text: &str) -> (tags: Vec<String>)
    ensures
        tags.deep_view() == match strings_of_json(text@) {
            Some(list) => list,
            None => Seq::empty(),
        },
{
    let tags = tags_or_empty(strings_from_json(text));
    proof {
        if strings_of_json(text@) is None {
            assert(tags.deep_view() =~= Seq::<Seq<char>>::empty());
        }
    }
    tags
}

impl ExecutionResult {
    /// The outcome of a project update that went through.
    pub fn updated() -> (r: ExecutionResult)
        ensures
            r.success,
            r.message@ == "Project updated successfully"@,
    {
        ExecutionResult { success: true, message: String::from_str("Project updated successfully") }
    }
}

impl ProjectDataResult {
    /// The project that one row of the store holds. `tags_json` is the stored
    /// tag list and `connections` the stored connection list, which may be absent.
    pub fn from_row(
        id: i64,
        name: String,
        description: String,
        tags_json: &str,
        connections: Option<String>,
    ) -> (p: ProjectDataResult)
        ensures
            p.id == Some(id),
            p.name == name,
            p.description == description,
            p.tags.deep_view() == match strings_of_json(tags_json@) {
                Some(list) => list,
                None => Seq::empty(),
            },
            match connections {
                Some(c) => p.connections == c,
                None => p.connections@.len() == 0,
            },
    {
        let connections = match connections {
            Some(c) => c,
            None => String::new(),
        };
        ProjectDataResult {
            id: Some(id),
            name,
            description,
            tags: decode_tags(tags_json),
            connections,
        }
    }
}

} // verus!
