//! Project records, and the rule by which a JSON document is a list of them.

use crate::error::QueryError;
use crate::json::{error_text, json_document, json_of, member, parse_value, Json};
use vstd::prelude::*;
use vstd::string::StringExecFns;

verus! {

/// One project of the hosting service.
#[derive(Debug, Clone)]
pub struct Project {
    /// The service's number for the project.
    pub id: u32,
    /// Display name.
    pub name: String,
    /// The project's own part of its address.
    pub path: String,
    /// Its address part with that of its owner in front.
    pub path_with_namespace: String,
}

/// A project record as a mathematical value.
pub ghost struct ProjectView {
    pub id: u32,
    pub name: Seq<char>,
    pub path: Seq<char>,
    pub path_with_namespace: Seq<char>,
}

impl View for Project {
    type V = ProjectView;

    open spec fn view(&self) -> ProjectView {
        ProjectView {
            id: self.id,
            name: self.name@,
            path: self.path@,
            path_with_namespace: self.path_with_namespace@,
        }
    }
}

/// The records of a list, each by its view.
pub open spec fn views(projects: Seq<Project>) -> Seq<ProjectView> {
    Seq::new(projects.len(), |i: int| projects[i]@)
}

/// Name of the member that holds a project's number.
pub open spec fn id_key() -> Seq<char> {
    "id"@
}

/// Name of the member that holds a project's display name.
pub open spec fn name_key() -> Seq<char> {
    "name"@
}

/// Name of the member that holds a project's own address part.
pub open spec fn path_key() -> Seq<char> {
    "path"@
}

/// Name of the member that holds a project's full address part.
pub open spec fn namespace_key() -> Seq<char> {
    "path_with_namespace"@
}

/// The number that a JSON value gives for a project's `id`: a non-negative
/// integer of at most 32 bits. Every other value gives none.
pub open spec fn number_of(value: Json) -> Option<u32> {
    match value {
        Json::Number(Some(n)) if n <= u32::MAX => Some(n as u32),
        _ => None,
    }
}

/// The characters that a JSON value gives for a text field: those of a
/// string. Every other value gives none.
pub open spec fn text_of(value: Json) -> Option<Seq<char>> {
    match value {
        Json::Text(chars) => Some(chars),
        _ => None,
    }
}

/// The member of an object by name; none where the value is no object or has
/// no such member.
pub open spec fn member_of(value: Json, name: Seq<char>) -> Option<Json> {
    match value {
        Json::Object(members) if members.contains_key(name) => Some(members[name]),
        _ => None,
    }
}

/// The record that a JSON value denotes.
///
/// The value must be an object with the members `id`, `name`, `path` and
/// `path_with_namespace`, the first a number that [`number_of`] accepts, the
/// others strings. Members of other names are not looked at.
pub open spec fn project_of(value: Json) -> Option<ProjectView> {
    let id = member_of(value, id_key());
    let name = member_of(value, name_key());
    let path = member_of(value, path_key());
    let namespace = member_of(value, namespace_key());
    if id is Some && number_of(id->0) is Some && name is Some && text_of(name->0) is Some
        && path is Some && text_of(path->0) is Some && namespace is Some && text_of(
        namespace->0,
    ) is Some {
        Some(
            ProjectView {
                id: number_of(id->0)->0,
                name: text_of(name->0)->0,
                path: text_of(path->0)->0,
                path_with_namespace: text_of(namespace->0)->0,
            },
        )
    } else {
        None
    }
}

/// The records that a JSON document denotes: it must be an array whose every
/// item is a record, and the records stand in the items' order.
pub open spec fn projects_of(document: Json) -> Option<Seq<ProjectView>> {
    match document {
        Json::Array(items) => if forall|i: int|
            0 <= i < items.len() ==> (#[trigger] project_of(items[i])) is Some {
            Some(Seq::new(items.len(), |i: int| project_of(items[i])->0))
        } else {
            None
        },
        _ => None,
    }
}

/// The records that a response body denotes: the text must be JSON, and the
/// document a list of records.
pub open spec fn projects_in(body: Seq<char>) -> Option<Seq<ProjectView>> {
    match json_document(body) {
        Some(document) => projects_of(document),
        None => None,
    }
}

/// Reads a project's number from a JSON value.
pub fn read_number(value: &serde_json::Value) -> (r: Option<u32>)
    ensures
        r == number_of(json_of(*value)),
{
    match value.as_u64() {
        Some(n) => if n <= 0xffff_ffff {
            Some(n as u32)
        } else {
            None
        },
        None => None,
    }
}

/// Reads a text field from a JSON value.
pub fn read_text(value: &serde_json::Value) -> (r: Option<String>)
    ensures
        match text_of(json_of(*value)) {
            Some(chars) => r matches Some(held) && held@ == chars,
            None => r is None,
        },
{
    match value.as_str() {
        Some(held) => Some(String::from_str(held)),
        None => None,
    }
}

/// Reads the text field of the given name from a JSON object.
fn read_text_member(value: &serde_json::Value, name: &str) -> (r: Option<String>)
    ensures
        match member_of(json_of(*value), name@) {
            Some(found) => match text_of(found) {
                Some(chars) => r matches Some(held) && held@ == chars,
                None => r is None,
            },
            None => r is None,
        },
{
    match member(value, name) {
        Some(found) => read_text(found),
        None => None,
    }
}

/// Reads one project record from a JSON value.
///
/// Returns the record that the value denotes, and `None` exactly where it
/// denotes none.
pub fn read_project(value: &serde_json::Value) -> (r: Option<Project>)
    ensures
        match project_of(json_of(*value)) {
            Some(record) => r matches Some(project) && project@ == record,
            None => r is None,
        },
{
    let id = match member(value, "id") {
        Some(found) => match read_number(found) {
            Some(n) => n,
            None => { return None; },
        },
        None => { return None; },
    };
    let name = match read_text_member(value, "name") {
        Some(text) => text,
        None => { return None; },
    };
    let path = match read_text_member(value, "path") {
        Some(text) => text,
        None => { return None; },
    };
    let path_with_namespace = match read_text_member(value, "path_with_namespace") {
        Some(text) => text,
        None => { return None; },
    };
    Some(Project { id, name, path, path_with_namespace })
}

/// Reads a list of project records from a JSON document.
///
/// Returns the records that the document denotes, in its order, and a
/// deserialization error exactly where it denotes none.
pub fn read_projects(document: &serde_json::Value) -> (r: Result<Vec<Project>, QueryError>)
    ensures
        match projects_of(json_of(*document)) {
            Some(records) => r matches Ok(projects) && views(projects@) == records,
            None => r matches Err(QueryError::Deserialization(_)),
        },
{
    let items = match document.as_array() {
        Some(items) => items,
        None => {
            return Err(QueryError::Deserialization(String::from_str("expected a list of projects")));
        },
    };
    let ghost tree = json_of(*document)->Array_0;
    let mut projects: Vec<Project> = Vec::new();
    let mut at: usize = 0;
    while at < items.len()
        invariant
            json_of(*document) == Json::Array(tree),
            items@.len() == tree.len(),
            forall|i: int| 0 <= i < tree.len() ==> json_of(#[trigger] items@[i]) == tree[i],
            at <= items.len(),
            projects@.len() == at,
            forall|i: int| 0 <= i < at ==> (#[trigger] project_of(tree[i])) == Some(projects@[i]@),
        decreases items.len() - at,
    {
        match read_project(&items[at]) {
            Some(project) => {
                projects.push(project);
            },
            None => {
                assert(project_of(tree[at as int]) is None);
                return Err(QueryError::Deserialization(String::from_str("expected a project record")));
            },
        }
        at = at + 1;
    }
    assert(views(projects@) =~= projects_of(json_of(*document))->0);
    Ok(projects)
}

/// Reads a list of project records from the text of a response body.
///
/// Returns the records that the body denotes, in its order, and a
/// deserialization error exactly where it denotes none: where the text is not
/// JSON, or the document is no list of records.
pub fn parse_projects(body: &str) -> (r: Result<Vec<Project>, QueryError>)
    ensures
        match projects_in(body@) {
            Some(records) => r matches Ok(projects) && views(projects@) == records,
            None => r matches Err(QueryError::Deserialization(_)),
        },
{
    match parse_value(body) {
        Ok(document) => read_projects(&document),
        Err(error) => Err(QueryError::Deserialization(error_text(&error))),
    }
}

/// Whether a JSON value is an object with the four members of a record, each
/// of its type: `id` an integer from 0 to 4294967295, the other three strings.
pub open spec fn is_record(value: Json) -> bool {
    &&& value matches Json::Object(members)
    &&& members.contains_key(id_key())
    &&& members[id_key()] matches Json::Number(Some(n))
    &&& n <= u32::MAX
    &&& members.contains_key(name_key())
    &&& members[name_key()] is Text
    &&& members.contains_key(path_key())
    &&& members[path_key()] is Text
    &&& members.contains_key(namespace_key())
    &&& members[namespace_key()] is Text
}

/// A JSON value denotes a record exactly where it is an object with the four
/// members, each of its type, and the record then holds what the members
/// hold.
pub proof fn law_record_matches_object(value: Json)
    ensures
        project_of(value) is Some <==> is_record(value),
        is_record(value) ==> {
            let members = value->Object_0;
            let record = project_of(value)->0;
            &&& record.id == members[id_key()]->Number_0->0
            &&& record.name == members[name_key()]->Text_0
            &&& record.path == members[path_key()]->Text_0
            &&& record.path_with_namespace == members[namespace_key()]->Text_0
        },
{
}

/// A document denotes a list of records exactly where it is an array whose
/// every item is a record. The list then has one record for each item, in the
/// items' order, and each record holds what the members of its item hold.
pub proof fn law_records_match_document(document: Json)
    ensures
        projects_of(document) is Some <==> (document matches Json::Array(items) && forall|i: int|
            0 <= i < items.len() ==> is_record(#[trigger] items[i])),
        projects_of(document) matches Some(records) ==> {
            let items = document->Array_0;
            &&& records.len() == items.len()
            &&& forall|i: int|
                0 <= i < items.len() ==> {
                    let members = items[i]->Object_0;
                    &&& (#[trigger] records[i]).id == members[id_key()]->Number_0->0
                    &&& records[i].name == members[name_key()]->Text_0
                    &&& records[i].path == members[path_key()]->Text_0
                    &&& records[i].path_with_namespace == members[namespace_key()]->Text_0
                }
        },
{
    if let Json::Array(items) = document {
        assert forall|i: int| 0 <= i < items.len() implies (project_of(#[trigger] items[i]) is Some
            <==> is_record(items[i])) by {
            law_record_matches_object(items[i]);
        }
        if projects_of(document) is Some {
            let records = projects_of(document)->0;
            assert forall|i: int| 0 <= i < items.len() implies {
                let members = items[i]->Object_0;
                &&& (#[trigger] records[i]).id == members[id_key()]->Number_0->0
                &&& records[i].name == members[name_key()]->Text_0
                &&& records[i].path == members[path_key()]->Text_0
                &&& records[i].path_with_namespace == members[namespace_key()]->Text_0
            } by {
                assert(project_of(items[i]) is Some);
                law_record_matches_object(items[i]);
            }
        }
    }
}

/// Whether `name` is one of the four member names that a record needs.
pub open spec fn is_required(name: Seq<char>) -> bool {
    name == id_key() || name == name_key() || name == path_key() || name == namespace_key()
}

/// An array with an item that lacks one of the four members denotes no list,
/// whatever its other items hold.
pub proof fn law_missing_member_refused(items: Seq<Json>, at: int, name: Seq<char>)
    requires
        0 <= at < items.len(),
        is_required(name),
        member_of(items[at], name) is None,
    ensures
        project_of(items[at]) is None,
        projects_of(Json::Array(items)) is None,
{
    assert(project_of(items[at]) is None);
}

/// An array with an item whose `id` is no integer from 0 to 4294967295, or
/// one of whose other three members is no string, denotes no list.
pub proof fn law_wrong_type_refused(items: Seq<Json>, at: int)
    requires
        0 <= at < items.len(),
        items[at] matches Json::Object(members) && ({
            ||| members.contains_key(id_key()) && number_of(members[id_key()]) is None
            ||| members.contains_key(name_key()) && !(members[name_key()] is Text)
            ||| members.contains_key(path_key()) && !(members[path_key()] is Text)
            ||| members.contains_key(namespace_key()) && !(members[namespace_key()] is Text)
        }),
    ensures
        projects_of(Json::Array(items)) is None,
{
    assert(project_of(items[at]) is None);
}

/// A body that is no JSON text denotes no list, and neither does one whose
/// document is no array.
pub proof fn law_unreadable_body_refused(body: Seq<char>)
    ensures
        json_document(body) is None ==> projects_in(body) is None,
        json_document(body) matches Some(document) && !(document is Array) ==> projects_in(body)
            is None,
{
}

/// A body whose document is the empty array denotes the empty list.
pub proof fn law_empty_array_is_empty_list(body: Seq<char>)
    ensures
        projects_of(Json::Array(Seq::empty())) == Some(Seq::<ProjectView>::empty()),
        json_document(body) == Some(Json::Array(Seq::empty())) ==> projects_in(body) == Some(
            Seq::<ProjectView>::empty(),
        ),
{
    assert(projects_of(Json::Array(Seq::empty()))->0 =~= Seq::<ProjectView>::empty());
}

} // verus!
