//! The client of the relation-tuple service.
//!
//! Every operation comes in two halves: the request to send, and the reading
//! of what came back. A permission check may take several requests, one per
//! known form of the check endpoint, so it is a small state machine.

use vstd::prelude::*;
use vstd::string::*;
use crate::http::{
    content_type_json, first_of, json_headers, or_else, text_of, Fetched, HttpMethod, HttpRequest,
    RequestModel, ServiceError,
};
use crate::json::{
    as_bool, as_elements, as_text, bool_in, elements_in, empty_object, json_model, json_parsed,
    json_rendered, member, member_of, number_value, parse, render, set_member, text_in,
    text_value, JsonModel, JsonNumber,
};
use crate::text::{decimal, render_u64};

verus! {

/// Where the service is reached: one base URL for reading, one for writing.
#[derive(Clone, Debug)]
pub struct KetoClient {
    pub read_url: String,
    pub write_url: String,
}

/// The holders of a relation on an object, as a subject.
#[derive(Clone, Debug)]
pub struct SubjectSet {
    pub namespace: String,
    pub object: String,
    pub relation: String,
}

/// The question "does this subject hold this relation on this object?".
#[derive(Clone, Debug)]
pub struct CheckParams {
    pub namespace: String,
    pub object: String,
    pub relation: String,
    pub subject_id: Option<String>,
    pub subject_set: Option<SubjectSet>,
    pub max_depth: Option<u32>,
}

/// Filters for listing tuples. Only the namespace is required.
#[derive(Clone, Debug)]
pub struct ListParams {
    pub namespace: String,
    pub object: Option<String>,
    pub relation: Option<String>,
    pub subject_id: Option<String>,
    pub subject_set: Option<String>,
    pub page_size: Option<u32>,
    pub page_token: Option<String>,
}

impl Default for ListParams {
    /// No filters, and no namespace yet.
    fn default() -> (r: Self)
        ensures
            r@ == (ListModel {
                namespace: Seq::empty(),
                object: None,
                relation: None,
                subject_id: None,
                subject_set: None,
                page_size: None,
                page_token: None,
            }),
    {
        ListParams {
            namespace: String::new(),
            object: None,
            relation: None,
            subject_id: None,
            subject_set: None,
            page_size: None,
            page_token: None,
        }
    }
}

/// The mathematical content of a subject set.
pub struct SubjectSetModel {
    pub namespace: Seq<char>,
    pub object: Seq<char>,
    pub relation: Seq<char>,
}

impl View for SubjectSet {
    type V = SubjectSetModel;

    open spec fn view(&self) -> SubjectSetModel {
        SubjectSetModel {
            namespace: self.namespace@,
            object: self.object@,
            relation: self.relation@,
        }
    }
}

/// The mathematical content of a question.
pub struct CheckModel {
    pub namespace: Seq<char>,
    pub object: Seq<char>,
    pub relation: Seq<char>,
    pub subject_id: Option<Seq<char>>,
    pub subject_set: Option<SubjectSetModel>,
    pub max_depth: Option<u32>,
}

impl View for CheckParams {
    type V = CheckModel;

    open spec fn view(&self) -> CheckModel {
        CheckModel {
            namespace: self.namespace@,
            object: self.object@,
            relation: self.relation@,
            subject_id: text_of(self.subject_id),
            subject_set: match self.subject_set {
                Some(ss) => Some(ss@),
                None => None,
            },
            max_depth: self.max_depth,
        }
    }
}

/// The mathematical content of the filters of a listing.
pub struct ListModel {
    pub namespace: Seq<char>,
    pub object: Option<Seq<char>>,
    pub relation: Option<Seq<char>>,
    pub subject_id: Option<Seq<char>>,
    pub subject_set: Option<Seq<char>>,
    pub page_size: Option<u32>,
    pub page_token: Option<Seq<char>>,
}

impl View for ListParams {
    type V = ListModel;

    open spec fn view(&self) -> ListModel {
        ListModel {
            namespace: self.namespace@,
            object: text_of(self.object),
            relation: text_of(self.relation),
            subject_id: text_of(self.subject_id),
            subject_set: text_of(self.subject_set),
            page_size: self.page_size,
            page_token: text_of(self.page_token),
        }
    }
}

/// A query parameter that is left out when it has no value.
pub open spec fn optional_param(label: Seq<char>, value: Option<Seq<char>>) -> Seq<char> {
    match value {
        Some(v) => label + v,
        None => Seq::empty(),
    }
}

/// A numeric query parameter that is left out when it has no value.
pub open spec fn optional_number(label: Seq<char>, value: Option<u32>) -> Seq<char> {
    match value {
        Some(n) => label + decimal(n as nat),
        None => Seq::empty(),
    }
}

/// The query string of a listing. Values are written as they are given.
pub open spec fn list_query(p: ListModel) -> Seq<char> {
    "namespace="@ + p.namespace + optional_param("&object="@, p.object) + optional_param(
        "&relation="@,
        p.relation,
    ) + optional_param("&subject_id="@, p.subject_id) + optional_param(
        "&subject_set="@,
        p.subject_set,
    ) + optional_number("&page_size="@, p.page_size) + optional_param(
        "&page_token="@,
        p.page_token,
    )
}

/// The request that lists tuples.
pub open spec fn listing_request(read_url: Seq<char>, p: ListModel) -> RequestModel {
    RequestModel {
        method: HttpMethod::Get,
        url: read_url + "/relation-tuples?"@ + list_query(p),
        headers: json_headers(),
        body: None,
    }
}

/// The query string of an expansion.
pub open spec fn expand_query(
    namespace: Seq<char>,
    object: Seq<char>,
    relation: Seq<char>,
    max_depth: Option<u32>,
) -> Seq<char> {
    "namespace="@ + namespace + "&object="@ + object + "&relation="@ + relation + optional_number(
        "&max_depth="@,
        max_depth,
    )
}

/// The request that expands a relation into its subjects.
pub open spec fn expansion_request(
    read_url: Seq<char>,
    namespace: Seq<char>,
    object: Seq<char>,
    relation: Seq<char>,
    max_depth: Option<u32>,
) -> RequestModel {
    RequestModel {
        method: HttpMethod::Get,
        url: read_url + "/relation-tuples/expand?"@ + expand_query(
            namespace,
            object,
            relation,
            max_depth,
        ),
        headers: json_headers(),
        body: None,
    }
}

/// The request that deletes the tuples that match all four fields.
pub open spec fn deletion_request(
    write_url: Seq<char>,
    namespace: Seq<char>,
    object: Seq<char>,
    relation: Seq<char>,
    subject_id: Seq<char>,
) -> RequestModel {
    RequestModel {
        method: HttpMethod::Delete,
        url: write_url + "/relation-tuples?"@ + "namespace="@ + namespace + "&object="@ + object
            + "&relation="@ + relation + "&subject_id="@ + subject_id,
        headers: json_headers(),
        body: None,
    }
}

/// An object with one more member, where there is a value for it.
pub open spec fn with_member(
    o: Map<Seq<char>, JsonModel>,
    key: Seq<char>,
    value: Option<JsonModel>,
) -> Map<Seq<char>, JsonModel> {
    match value {
        Some(v) => o.insert(key, v),
        None => o,
    }
}

/// The three members that name a relation on an object.
pub open spec fn relation_members(
    namespace: Seq<char>,
    object: Seq<char>,
    relation: Seq<char>,
) -> Map<Seq<char>, JsonModel> {
    Map::<Seq<char>, JsonModel>::empty().insert("namespace"@, JsonModel::Text(namespace)).insert(
        "object"@,
        JsonModel::Text(object),
    ).insert("relation"@, JsonModel::Text(relation))
}

/// The JSON object of a subject set: its three fields and nothing else.
pub open spec fn subject_set_object(ss: SubjectSetModel) -> JsonModel {
    JsonModel::Object(relation_members(ss.namespace, ss.object, ss.relation))
}

/// The JSON object that puts the question `p` to the check endpoint: the
/// namespace, the object and the relation always, the subject and the depth
/// only where the question has them.
pub open spec fn check_object(p: CheckModel) -> JsonModel {
    JsonModel::Object(
        with_member(
            with_member(
                with_member(
                    relation_members(p.namespace, p.object, p.relation),
                    "subject_id"@,
                    match p.subject_id {
                        Some(s) => Some(JsonModel::Text(s)),
                        None => None,
                    },
                ),
                "subject_set"@,
                match p.subject_set {
                    Some(ss) => Some(subject_set_object(ss)),
                    None => None,
                },
            ),
            "max_depth"@,
            match p.max_depth {
                Some(n) => Some(JsonModel::Number(JsonNumber::Natural(n as u64))),
                None => None,
            },
        ),
    )
}

/// The JSON object that records a tuple with a direct subject.
pub open spec fn tuple_object(
    namespace: Seq<char>,
    object: Seq<char>,
    relation: Seq<char>,
    subject_id: Seq<char>,
) -> JsonModel {
    JsonModel::Object(
        relation_members(namespace, object, relation).insert(
            "subject_id"@,
            JsonModel::Text(subject_id),
        ),
    )
}

/// Builds the JSON object of a subject set.
pub fn subject_set_document(ss: &SubjectSet) -> (d: serde_json::Value)
    ensures
        json_model(d) == subject_set_object(ss@),
{
    let mut d = empty_object();
    set_member(&mut d, "namespace", text_value(ss.namespace.as_str()));
    set_member(&mut d, "object", text_value(ss.object.as_str()));
    set_member(&mut d, "relation", text_value(ss.relation.as_str()));
    d
}

/// Builds the JSON object that puts a question to the check endpoint.
pub fn check_document(p: &CheckParams) -> (d: serde_json::Value)
    ensures
        json_model(d) == check_object(p@),
{
    let mut d = empty_object();
    set_member(&mut d, "namespace", text_value(p.namespace.as_str()));
    set_member(&mut d, "object", text_value(p.object.as_str()));
    set_member(&mut d, "relation", text_value(p.relation.as_str()));
    match &p.subject_id {
        Some(s) => {
            set_member(&mut d, "subject_id", text_value(s.as_str()));
        },
        None => {},
    }
    match &p.subject_set {
        Some(ss) => {
            set_member(&mut d, "subject_set", subject_set_document(ss));
        },
        None => {},
    }
    match p.max_depth {
        Some(n) => {
            set_member(&mut d, "max_depth", number_value(n));
        },
        None => {},
    }
    d
}

/// Builds the JSON object that records a tuple with a direct subject.
pub fn tuple_document(namespace: &str, object: &str, relation: &str, subject_id: &str) -> (d:
    serde_json::Value)
    ensures
        json_model(d) == tuple_object(namespace@, object@, relation@, subject_id@),
{
    let mut d = empty_object();
    set_member(&mut d, "namespace", text_value(namespace));
    set_member(&mut d, "object", text_value(object));
    set_member(&mut d, "relation", text_value(relation));
    set_member(&mut d, "subject_id", text_value(subject_id));
    d
}

/// The request that records a tuple with a direct subject.
pub open spec fn creation_request(
    write_url: Seq<char>,
    namespace: Seq<char>,
    object: Seq<char>,
    relation: Seq<char>,
    subject_id: Seq<char>,
) -> RequestModel {
    RequestModel {
        method: HttpMethod::Put,
        url: write_url + "/relation-tuples"@,
        headers: json_headers(),
        body: Some(json_rendered(tuple_object(namespace, object, relation, subject_id))),
    }
}

/// The forms of the check endpoint, in the order in which they are tried.
pub open spec fn check_paths() -> Seq<Seq<char>> {
    seq![
        "/relation-tuples/check/openapi"@,
        "/relation-tuples/check"@,
        "/v1/relation-tuples/check/openapi"@,
        "/v1/relation-tuples/check"@,
    ]
}

/// The request that puts the question `p` to the form `i` of the check
/// endpoint.
pub open spec fn check_request(read_url: Seq<char>, p: CheckModel, i: int) -> RequestModel {
    RequestModel {
        method: HttpMethod::Post,
        url: read_url + check_paths()[i],
        headers: json_headers(),
        body: Some(json_rendered(check_object(p))),
    }
}

/// How many forms of the check endpoint are known.
pub const CHECK_FORMS: usize = 4;

fn check_path(i: usize) -> (r: &'static str)
    requires
        i < CHECK_FORMS,
    ensures
        r@ == check_paths()[i as int],
{
    if i == 0 {
        "/relation-tuples/check/openapi"
    } else if i == 1 {
        "/relation-tuples/check"
    } else if i == 2 {
        "/v1/relation-tuples/check/openapi"
    } else {
        "/v1/relation-tuples/check"
    }
}

fn push_param(q: &mut String, label: &str, value: &Option<String>)
    ensures
        final(q)@ == old(q)@ + optional_param(label@, text_of(*value)),
{
    match value {
        Some(v) => {
            q.append(label);
            q.append(v.as_str());
            assert(final(q)@ =~= old(q)@ + (label@ + v@));
        },
        None => {
            assert(q@ =~= q@ + Seq::<char>::empty());
        },
    }
}

fn push_number(q: &mut String, label: &str, value: Option<u32>)
    ensures
        final(q)@ == old(q)@ + optional_number(label@, value),
{
    match value {
        Some(n) => {
            let digits = render_u64(n as u64);
            q.append(label);
            q.append(digits.as_str());
            assert(final(q)@ =~= old(q)@ + (label@ + decimal(n as nat)));
        },
        None => {
            assert(q@ =~= q@ + Seq::<char>::empty());
        },
    }
}

/// What the three ways a check reply can go mean for the sweep.
#[derive(Clone, Copy, Debug)]
pub enum Verdict<T> {
    /// This form of the endpoint exists and gave an answer.
    Success(T),
    /// This form of the endpoint does not exist here: try the next one.
    TryNext,
    /// The service is in trouble: give up.
    Fatal(ServiceError),
}

/// The `allowed` member of a reply, `false` where it is missing or not a
/// boolean.
pub open spec fn allowed_of(m: JsonModel) -> bool {
    match member_of(m, "allowed"@) {
        Some(a) => match bool_in(a) {
            Some(b) => b,
            None => false,
        },
        None => false,
    }
}

/// What a reply of one form of the check endpoint means.
pub open spec fn check_verdict(f: Fetched) -> Verdict<bool> {
    match f {
        Fetched::Failed => Verdict::Fatal(ServiceError::Unreachable),
        Fetched::Response(resp) => if resp.status == 200 {
            match json_parsed(resp.body@) {
                Some(m) => Verdict::Success(allowed_of(m)),
                None => Verdict::Fatal(ServiceError::Malformed),
            }
        } else if resp.status == 404 {
            Verdict::TryNext
        } else {
            Verdict::Fatal(ServiceError::Status(resp.status))
        },
    }
}

/// Reads the `allowed` member of a check reply.
pub fn read_allowed(v: &serde_json::Value) -> (r: bool)
    ensures
        r == allowed_of(json_model(*v)),
{
    match member(v, "allowed") {
        Some(a) => match as_bool(a) {
            Some(b) => b,
            None => false,
        },
        None => false,
    }
}

/// Classifies the reply of one form of the check endpoint.
pub fn classify_check(fetched: &Fetched) -> (r: Verdict<bool>)
    ensures
        r == check_verdict(*fetched),
{
    match fetched {
        Fetched::Failed => Verdict::Fatal(ServiceError::Unreachable),
        Fetched::Response(resp) => {
            if resp.status == 200 {
                match parse(resp.body.as_str()) {
                    Some(v) => Verdict::Success(read_allowed(&v)),
                    None => Verdict::Fatal(ServiceError::Malformed),
                }
            } else if resp.status == 404 {
                Verdict::TryNext
            } else {
                Verdict::Fatal(ServiceError::Status(resp.status))
            }
        },
    }
}

/// Who holds a relation: one subject by id, or the holders of another
/// relation.
#[derive(Clone, Debug)]
pub enum SubjectRef {
    Id(String),
    SetOf(SubjectSet),
}

/// One recorded fact, as the service lists it. A field that the service left
/// out, or sent as something other than text, is `None`.
#[derive(Clone, Debug)]
pub struct RelationTuple {
    pub namespace: Option<String>,
    pub object: Option<String>,
    pub relation: Option<String>,
    pub subject: Option<SubjectRef>,
}

/// One page of a listing, in the service's order.
#[derive(Clone, Debug)]
pub struct ListPage {
    pub tuples: Vec<RelationTuple>,
    pub next_page_token: Option<String>,
}

/// The mathematical content of a subject.
pub enum SubjectModel {
    Id(Seq<char>),
    SetOf(SubjectSetModel),
}

impl View for SubjectRef {
    type V = SubjectModel;

    open spec fn view(&self) -> SubjectModel {
        match self {
            SubjectRef::Id(s) => SubjectModel::Id(s@),
            SubjectRef::SetOf(ss) => SubjectModel::SetOf(ss@),
        }
    }
}

/// The mathematical content of a listed tuple.
pub struct TupleModel {
    pub namespace: Option<Seq<char>>,
    pub object: Option<Seq<char>>,
    pub relation: Option<Seq<char>>,
    pub subject: Option<SubjectModel>,
}

impl View for RelationTuple {
    type V = TupleModel;

    open spec fn view(&self) -> TupleModel {
        TupleModel {
            namespace: text_of(self.namespace),
            object: text_of(self.object),
            relation: text_of(self.relation),
            subject: match self.subject {
                Some(s) => Some(s@),
                None => None,
            },
        }
    }
}

/// The mathematical content of a page.
pub struct PageModel {
    pub tuples: Seq<TupleModel>,
    pub next_page_token: Option<Seq<char>>,
}

impl View for ListPage {
    type V = PageModel;

    open spec fn view(&self) -> PageModel {
        PageModel {
            tuples: self.tuples@.map_values(|t: RelationTuple| t@),
            next_page_token: text_of(self.next_page_token),
        }
    }
}

/// The text of the member `key` of `v`, where there is such a member and it
/// is a JSON string.
pub open spec fn member_text(v: JsonModel, key: Seq<char>) -> Option<Seq<char>> {
    match member_of(v, key) {
        Some(m) => text_in(m),
        None => None,
    }
}

/// The subject set that an object describes, where it has all three fields.
pub open spec fn subject_set_of(v: JsonModel) -> Option<SubjectSetModel> {
    match (member_text(v, "namespace"@), member_text(v, "object"@), member_text(v, "relation"@)) {
        (Some(namespace), Some(object), Some(relation)) => Some(
            SubjectSetModel { namespace, object, relation },
        ),
        _ => None,
    }
}

/// The subject of a listed tuple: its `subject_id` where that is text, else
/// its `subject_set` where that is complete.
pub open spec fn subject_of(v: JsonModel) -> Option<SubjectModel> {
    match member_text(v, "subject_id"@) {
        Some(s) => Some(SubjectModel::Id(s)),
        None => match member_of(v, "subject_set"@) {
            Some(ss) => match subject_set_of(ss) {
                Some(m) => Some(SubjectModel::SetOf(m)),
                None => None,
            },
            None => None,
        },
    }
}

/// The tuple that one element of a listing describes.
pub open spec fn tuple_of(v: JsonModel) -> TupleModel {
    TupleModel {
        namespace: member_text(v, "namespace"@),
        object: member_text(v, "object"@),
        relation: member_text(v, "relation"@),
        subject: subject_of(v),
    }
}

/// The tuples of a listing reply: one for each element of its
/// `relation_tuples` array, none where that member is missing or no array.
pub open spec fn tuples_of(v: JsonModel) -> Seq<TupleModel> {
    match member_of(v, "relation_tuples"@) {
        Some(a) => match elements_in(a) {
            Some(es) => es.map_values(|e: JsonModel| tuple_of(e)),
            None => Seq::empty(),
        },
        None => Seq::empty(),
    }
}

/// The page that a listing reply describes.
pub open spec fn page_of(v: JsonModel) -> PageModel {
    PageModel { tuples: tuples_of(v), next_page_token: member_text(v, "next_page_token"@) }
}

/// What a listing comes to: the page of a reply with status 200 and a JSON
/// body, an error for everything else.
pub open spec fn listing_result(f: Fetched) -> Result<PageModel, ServiceError> {
    match f {
        Fetched::Failed => Err(ServiceError::Unreachable),
        Fetched::Response(resp) => if resp.status != 200 {
            Err(ServiceError::Status(resp.status))
        } else {
            match json_parsed(resp.body@) {
                Some(m) => Ok(page_of(m)),
                None => Err(ServiceError::Malformed),
            }
        },
    }
}

/// Reads a member that should be text.
pub fn read_text(v: &serde_json::Value, key: &str) -> (r: Option<String>)
    ensures
        text_of(r) == member_text(json_model(*v), key@),
{
    match member(v, key) {
        Some(m) => match as_text(m) {
            Some(s) => Some(s.to_owned()),
            None => None,
        },
        None => None,
    }
}

/// Reads a subject set from the object that describes it.
pub fn read_subject_set(v: &serde_json::Value) -> (r: Option<SubjectSet>)
    ensures
        match r {
            Some(ss) => subject_set_of(json_model(*v)) == Some(ss@),
            None => subject_set_of(json_model(*v)) is None,
        },
{
    let namespace = read_text(v, "namespace");
    let object = read_text(v, "object");
    let relation = read_text(v, "relation");
    match (namespace, object, relation) {
        (Some(namespace), Some(object), Some(relation)) => Some(
            SubjectSet { namespace, object, relation },
        ),
        _ => None,
    }
}

/// Reads one element of a listing.
pub fn read_tuple(v: &serde_json::Value) -> (r: RelationTuple)
    ensures
        r@ == tuple_of(json_model(*v)),
{
    let subject = match read_text(v, "subject_id") {
        Some(s) => Some(SubjectRef::Id(s)),
        None => match member(v, "subject_set") {
            Some(ss) => match read_subject_set(ss) {
                Some(set) => Some(SubjectRef::SetOf(set)),
                None => None,
            },
            None => None,
        },
    };
    RelationTuple {
        namespace: read_text(v, "namespace"),
        object: read_text(v, "object"),
        relation: read_text(v, "relation"),
        subject,
    }
}

/// Reads the page that a listing reply describes.
pub fn read_page(v: &serde_json::Value) -> (r: ListPage)
    ensures
        r@ == page_of(json_model(*v)),
{
    let mut tuples: Vec<RelationTuple> = Vec::new();
    match member(v, "relation_tuples") {
        Some(a) => match as_elements(a) {
            Some(es) => {
                let ghost held = elements_in(json_model(*a)).unwrap();
                let mut i: usize = 0;
                while i < es.len()
                    invariant
                        i <= es.len(),
                        es@.len() == held.len(),
                        forall|j: int|
                            0 <= j < es@.len() ==> json_model(#[trigger] es@[j]) == held[j],
                        tuples@.len() == i,
                        forall|j: int| 0 <= j < i ==> (#[trigger] tuples@[j])@ == tuple_of(held[j]),
                    decreases es.len() - i,
                {
                    tuples.push(read_tuple(&es[i]));
                    i = i + 1;
                }
                assert(tuples@.map_values(|t: RelationTuple| t@) =~= held.map_values(
                    |e: JsonModel| tuple_of(e),
                ));
            },
            None => {
                assert(tuples@.map_values(|t: RelationTuple| t@) =~= Seq::<TupleModel>::empty());
            },
        },
        None => {
            assert(tuples@.map_values(|t: RelationTuple| t@) =~= Seq::<TupleModel>::empty());
        },
    }
    ListPage { tuples, next_page_token: read_text(v, "next_page_token") }
}

/// What an expansion comes to: the document of a reply with status 200 and
/// a JSON body, an error for everything else.
pub open spec fn expansion_result(f: Fetched) -> Result<JsonModel, ServiceError> {
    match f {
        Fetched::Failed => Err(ServiceError::Unreachable),
        Fetched::Response(resp) => if resp.status != 200 {
            Err(ServiceError::Status(resp.status))
        } else {
            match json_parsed(resp.body@) {
                Some(m) => Ok(m),
                None => Err(ServiceError::Malformed),
            }
        },
    }
}

/// What recording a tuple comes to. A tuple that was already there counts
/// as recorded.
pub open spec fn creation_result(f: Fetched) -> Result<(), ServiceError> {
    match f {
        Fetched::Failed => Err(ServiceError::Unreachable),
        Fetched::Response(resp) => if resp.status == 201 || resp.status == 200 || resp.status
            == 409 {
            Ok(())
        } else {
            Err(ServiceError::Status(resp.status))
        },
    }
}

/// What deleting tuples comes to. Nothing left to delete counts as deleted.
pub open spec fn deletion_result(f: Fetched) -> Result<(), ServiceError> {
    match f {
        Fetched::Failed => Err(ServiceError::Unreachable),
        Fetched::Response(resp) => if resp.status == 200 || resp.status == 204 {
            Ok(())
        } else {
            Err(ServiceError::Status(resp.status))
        },
    }
}

/// A subject set written as one text: `namespace:object#relation`, or
/// `namespace:object` where the relation is empty.
pub open spec fn flat_subject_set(ss: SubjectSetModel) -> Seq<char> {
    if ss.relation.len() == 0 {
        ss.namespace + ":"@ + ss.object
    } else {
        ss.namespace + ":"@ + ss.object + "#"@ + ss.relation
    }
}

/// The listing that stands in for a check where no form of the check
/// endpoint exists: the same namespace, object, relation and subject, matched
/// exactly, and one tuple at most.
pub open spec fn fallback_query(p: CheckModel) -> ListModel {
    ListModel {
        namespace: p.namespace,
        object: Some(p.object),
        relation: Some(p.relation),
        subject_id: p.subject_id,
        subject_set: match p.subject_set {
            Some(ss) => Some(flat_subject_set(ss)),
            None => None,
        },
        page_size: Some(1u32),
        page_token: None,
    }
}

/// The answer that the stand-in listing gives: allowed exactly when the page
/// holds a tuple. A failed listing ends the check with an error.
pub open spec fn fallback_result(f: Fetched) -> Result<bool, ServiceError> {
    match listing_result(f) {
        Ok(page) => Ok(page.tuples.len() > 0),
        Err(_) => Err(ServiceError::NoEndpoint),
    }
}

/// Where a check stands: waiting for the reply of one form of the check
/// endpoint, or for the reply of the stand-in listing.
#[derive(Clone, Copy, PartialEq, Eq, Structural, Debug)]
pub enum CheckState {
    Candidate(usize),
    Fallback,
}

/// What a check does next: send a request and wait in a new state, or end
/// with its answer.
#[derive(Debug)]
pub enum CheckStep {
    Send(CheckState, HttpRequest),
    Done(Result<bool, ServiceError>),
}

/// The move of a check, without the request that goes with it.
pub enum CheckMove {
    Wait(CheckState),
    Finish(Result<bool, ServiceError>),
}

/// How a check moves on a reply. A form that does not exist passes the
/// question on to the next form, and the last form to the stand-in listing;
/// every other reply ends the check.
pub open spec fn check_move(state: CheckState, f: Fetched) -> CheckMove {
    match state {
        CheckState::Candidate(i) => match check_verdict(f) {
            Verdict::Success(allowed) => CheckMove::Finish(Ok(allowed)),
            Verdict::Fatal(e) => CheckMove::Finish(Err(e)),
            Verdict::TryNext => if i + 1 < check_paths().len() {
                CheckMove::Wait(CheckState::Candidate((i + 1) as usize))
            } else {
                CheckMove::Wait(CheckState::Fallback)
            },
        },
        CheckState::Fallback => CheckMove::Finish(fallback_result(f)),
    }
}

/// The request that a check sends on entering `state`.
pub open spec fn request_of(read_url: Seq<char>, p: CheckModel, state: CheckState) -> RequestModel {
    match state {
        CheckState::Candidate(i) => check_request(read_url, p, i as int),
        CheckState::Fallback => listing_request(read_url, fallback_query(p)),
    }
}

/// `step` is what a check in `state` does on the reply `f`.
pub open spec fn is_check_step(
    step: CheckStep,
    read_url: Seq<char>,
    p: CheckModel,
    state: CheckState,
    f: Fetched,
) -> bool {
    match check_move(state, f) {
        CheckMove::Finish(result) => step == CheckStep::Done(result),
        CheckMove::Wait(next) => match step {
            CheckStep::Send(s, request) => s == next && request@ == request_of(read_url, p, next),
            CheckStep::Done(_) => false,
        },
    }
}

/// The answer of a check that starts in `state` and receives `replies` one
/// after the other; `None` while the check still waits.
pub open spec fn check_outcome(state: CheckState, replies: Seq<Fetched>) -> Option<
    Result<bool, ServiceError>,
>
    decreases replies.len(),
{
    if replies.len() == 0 {
        None
    } else {
        match check_move(state, replies[0]) {
            CheckMove::Finish(result) => Some(result),
            CheckMove::Wait(next) => check_outcome(next, replies.drop_first()),
        }
    }
}

/// Writes a subject set as one text.
pub fn flatten_subject_set(ss: &SubjectSet) -> (r: String)
    ensures
        r@ == flat_subject_set(ss@),
{
    let mut r = ss.namespace.clone();
    r.append(":");
    r.append(ss.object.as_str());
    if ss.relation.as_str().unicode_len() != 0 {
        r.append("#");
        r.append(ss.relation.as_str());
    }
    r
}

/// The filters of the listing that stands in for a check.
pub fn fallback_params(p: &CheckParams) -> (r: ListParams)
    ensures
        r@ == fallback_query(p@),
{
    ListParams {
        namespace: p.namespace.clone(),
        object: Some(p.object.clone()),
        relation: Some(p.relation.clone()),
        subject_id: match &p.subject_id {
            Some(s) => Some(s.clone()),
            None => None,
        },
        subject_set: match &p.subject_set {
            Some(ss) => Some(flatten_subject_set(ss)),
            None => None,
        },
        page_size: Some(1),
        page_token: None,
    }
}

impl KetoClient {
    /// A client for the service at the two given base URLs.
    pub fn new(read_url: String, write_url: String) -> (r: Self)
        ensures
            r.read_url == read_url,
            r.write_url == write_url,
    {
        KetoClient { read_url, write_url }
    }

    /// Makes the client from what the environment holds under
    /// `KETO_READ_URL` and `KETO_WRITE_URL`: for each, the plain variable
    /// counts before the secret of the same name. Without either URL there
    /// is no client.
    pub fn from_env(
        read_var: Option<String>,
        read_secret: Option<String>,
        write_var: Option<String>,
        write_secret: Option<String>,
    ) -> (r: Option<Self>)
        ensures
            r == match (or_else(read_var, read_secret), or_else(write_var, write_secret)) {
                (Some(read_url), Some(write_url)) => Some(KetoClient { read_url, write_url }),
                _ => None,
            },
    {
        match (first_of(read_var, read_secret), first_of(write_var, write_secret)) {
            (Some(read_url), Some(write_url)) => Some(KetoClient { read_url, write_url }),
            _ => None,
        }
    }

    /// The request that lists the tuples that match `p`.
    pub fn list_request(&self, p: &ListParams) -> (r: HttpRequest)
        ensures
            r@ == listing_request(self.read_url@, p@),
    {
        let mut q = String::from_str("namespace=");
        q.append(p.namespace.as_str());
        push_param(&mut q, "&object=", &p.object);
        push_param(&mut q, "&relation=", &p.relation);
        push_param(&mut q, "&subject_id=", &p.subject_id);
        push_param(&mut q, "&subject_set=", &p.subject_set);
        push_number(&mut q, "&page_size=", p.page_size);
        push_param(&mut q, "&page_token=", &p.page_token);
        let mut url = self.read_url.clone();
        url.append("/relation-tuples?");
        url.append(q.as_str());
        HttpRequest { method: HttpMethod::Get, url, headers: content_type_json(), body: None }
    }

    /// Reads the reply to a listing. Any status but 200 is an error, and so
    /// is a body that is not JSON; a page without tuples is a page.
    pub fn list_relation_tuples(fetched: &Fetched) -> (r: Result<ListPage, ServiceError>)
        ensures
            match listing_result(*fetched) {
                Ok(page) => r is Ok && r.unwrap()@ == page,
                Err(e) => r is Err && r.unwrap_err() == e,
            },
    {
        match fetched {
            Fetched::Failed => Err(ServiceError::Unreachable),
            Fetched::Response(resp) => {
                if resp.status != 200 {
                    Err(ServiceError::Status(resp.status))
                } else {
                    match parse(resp.body.as_str()) {
                        Some(v) => Ok(read_page(&v)),
                        None => Err(ServiceError::Malformed),
                    }
                }
            },
        }
    }

    /// The request that expands a relation on an object into its subjects.
    pub fn expand_request(
        &self,
        namespace: &str,
        object: &str,
        relation: &str,
        max_depth: Option<u32>,
    ) -> (r: HttpRequest)
        ensures
            r@ == expansion_request(self.read_url@, namespace@, object@, relation@, max_depth),
    {
        let mut q = String::from_str("namespace=");
        q.append(namespace);
        q.append("&object=");
        q.append(object);
        q.append("&relation=");
        q.append(relation);
        push_number(&mut q, "&max_depth=", max_depth);
        let mut url = self.read_url.clone();
        url.append("/relation-tuples/expand?");
        url.append(q.as_str());
        HttpRequest { method: HttpMethod::Get, url, headers: content_type_json(), body: None }
    }

    /// Reads the reply to an expansion: the subject tree as the service
    /// sent it.
    pub fn expand(fetched: &Fetched) -> (r: Result<serde_json::Value, ServiceError>)
        ensures
            match expansion_result(*fetched) {
                Ok(tree) => r is Ok && json_model(r.unwrap()) == tree,
                Err(e) => r is Err && r.unwrap_err() == e,
            },
    {
        match fetched {
            Fetched::Failed => Err(ServiceError::Unreachable),
            Fetched::Response(resp) => {
                if resp.status != 200 {
                    Err(ServiceError::Status(resp.status))
                } else {
                    match parse(resp.body.as_str()) {
                        Some(v) => Ok(v),
                        None => Err(ServiceError::Malformed),
                    }
                }
            },
        }
    }

    /// The request that records that `subject_id` holds `relation` on
    /// `object`.
    pub fn create_request(
        &self,
        namespace: &str,
        object: &str,
        relation: &str,
        subject_id: &str,
    ) -> (r: HttpRequest)
        ensures
            r@ == creation_request(self.write_url@, namespace@, object@, relation@, subject_id@),
    {
        let d = tuple_document(namespace, object, relation, subject_id);
        let body = render(&d);
        let mut url = self.write_url.clone();
        url.append("/relation-tuples");
        HttpRequest { method: HttpMethod::Put, url, headers: content_type_json(), body: Some(body) }
    }

    /// Reads the reply to recording a tuple. Recording one that is already
    /// there succeeds.
    pub fn create_relation_tuple(fetched: &Fetched) -> (r: Result<(), ServiceError>)
        ensures
            r == creation_result(*fetched),
    {
        match fetched {
            Fetched::Failed => Err(ServiceError::Unreachable),
            Fetched::Response(resp) => {
                if resp.status == 201 || resp.status == 200 || resp.status == 409 {
                    Ok(())
                } else {
                    Err(ServiceError::Status(resp.status))
                }
            },
        }
    }

    /// The request that deletes the tuples that match all four fields.
    pub fn delete_request(
        &self,
        namespace: &str,
        object: &str,
        relation: &str,
        subject_id: &str,
    ) -> (r: HttpRequest)
        ensures
            r@ == deletion_request(self.write_url@, namespace@, object@, relation@, subject_id@),
    {
        let mut url = self.write_url.clone();
        url.append("/relation-tuples?");
        url.append("namespace=");
        url.append(namespace);
        url.append("&object=");
        url.append(object);
        url.append("&relation=");
        url.append(relation);
        url.append("&subject_id=");
        url.append(subject_id);
        HttpRequest { method: HttpMethod::Delete, url, headers: content_type_json(), body: None }
    }

    /// Reads the reply to deleting tuples. Deleting what is already gone
    /// succeeds.
    pub fn delete_relation_tuple(fetched: &Fetched) -> (r: Result<(), ServiceError>)
        ensures
            r == deletion_result(*fetched),
    {
        match fetched {
            Fetched::Failed => Err(ServiceError::Unreachable),
            Fetched::Response(resp) => {
                if resp.status == 200 || resp.status == 204 {
                    Ok(())
                } else {
                    Err(ServiceError::Status(resp.status))
                }
            },
        }
    }

    fn candidate_request(&self, p: &CheckParams, i: usize) -> (r: HttpRequest)
        requires
            i < CHECK_FORMS,
        ensures
            r@ == check_request(self.read_url@, p@, i as int),
    {
        let d = check_document(p);
        let body = render(&d);
        let mut url = self.read_url.clone();
        url.append(check_path(i));
        HttpRequest {
            method: HttpMethod::Post,
            url,
            headers: content_type_json(),
            body: Some(body),
        }
    }

    /// Starts a check: the question goes to the first form of the check
    /// endpoint.
    pub fn check_begin(&self, p: &CheckParams) -> (r: (CheckState, HttpRequest))
        ensures
            r.0 == CheckState::Candidate(0),
            r.1@ == request_of(self.read_url@, p@, r.0),
    {
        (CheckState::Candidate(0), self.candidate_request(p, 0))
    }

    /// Moves a check on by one reply.
    pub fn check(&self, p: &CheckParams, state: CheckState, fetched: &Fetched) -> (r: CheckStep)
        ensures
            is_check_step(r, self.read_url@, p@, state, *fetched),
    {
        match state {
            CheckState::Candidate(i) => match classify_check(fetched) {
                Verdict::Success(allowed) => CheckStep::Done(Ok(allowed)),
                Verdict::Fatal(e) => CheckStep::Done(Err(e)),
                Verdict::TryNext => {
                    if i < CHECK_FORMS - 1 {
                        let next = CheckState::Candidate(i + 1);
                        CheckStep::Send(next, self.candidate_request(p, i + 1))
                    } else {
                        let params = fallback_params(p);
                        CheckStep::Send(CheckState::Fallback, self.list_request(&params))
                    }
                },
            },
            CheckState::Fallback => {
                let result = match KetoClient::list_relation_tuples(fetched) {
                    Ok(page) => Ok(page.tuples.len() > 0),
                    Err(_) => Err(ServiceError::NoEndpoint),
                };
                CheckStep::Done(result)
            },
        }
    }
}

/// A check that starts at any form of the endpoint, finds the forms before
/// `k` missing and gets an answer from form `k`, ends with that answer. No
/// error comes of the forms that were missing.
pub proof fn lemma_sweep_takes_first_answer(start: usize, replies: Seq<Fetched>, k: int)
    requires
        start + k < check_paths().len(),
        0 <= k < replies.len(),
        forall|i: int| 0 <= i < k ==> check_verdict(#[trigger] replies[i]) is TryNext,
        check_verdict(replies[k]) is Success,
    ensures
        check_outcome(CheckState::Candidate(start), replies) == Some(
            Ok::<bool, ServiceError>(check_verdict(replies[k])->Success_0),
        ),
    decreases k,
{
    if k > 0 {
        let rest = replies.drop_first();
        assert forall|i: int| 0 <= i < k - 1 implies check_verdict(#[trigger] rest[i])
            is TryNext by {
            assert(rest[i] == replies[i + 1]);
        }
        assert(rest[k - 1] == replies[k]);
        lemma_sweep_takes_first_answer((start + 1) as usize, rest, k - 1);
    }
}

/// A check that finds every form of the endpoint missing comes to the
/// stand-in listing.
pub proof fn lemma_sweep_falls_back(start: usize, replies: Seq<Fetched>)
    requires
        start < check_paths().len(),
        replies.len() == check_paths().len() - start + 1,
        forall|i: int|
            0 <= i < check_paths().len() - start ==> check_verdict(#[trigger] replies[i])
                is TryNext,
    ensures
        check_outcome(CheckState::Candidate(start), replies) == Some(
            fallback_result(replies.last()),
        ),
    decreases check_paths().len() - start,
{
    let rest = replies.drop_first();
    assert(rest.last() == replies.last());
    if start + 1 < check_paths().len() {
        assert forall|i: int| 0 <= i < check_paths().len() - (start + 1) implies check_verdict(
            #[trigger] rest[i],
        ) is TryNext by {
            assert(rest[i] == replies[i + 1]);
        }
        lemma_sweep_falls_back((start + 1) as usize, rest);
    } else {
        assert(rest.len() == 1);
        assert(rest[0] == replies.last());
        assert(check_outcome(CheckState::Fallback, rest) == Some(fallback_result(rest[0])));
    }
}

/// Where no form of the check endpoint exists, a check says "allowed"
/// exactly when the listing with the same namespace, object, relation and
/// subject returns a page that holds a tuple. The request it sends for that
/// is the request of that listing.
pub proof fn lemma_fallback_agrees_with_listing(
    read_url: Seq<char>,
    p: CheckModel,
    replies: Seq<Fetched>,
)
    requires
        replies.len() == check_paths().len() + 1,
        forall|i: int|
            0 <= i < check_paths().len() ==> check_verdict(#[trigger] replies[i]) is TryNext,
    ensures
        check_outcome(CheckState::Candidate(0), replies) == Some(Ok::<bool, ServiceError>(true))
            <==> (listing_result(replies.last()) is Ok && listing_result(
            replies.last(),
        )->Ok_0.tuples.len() > 0),
        request_of(read_url, p, CheckState::Fallback) == listing_request(
            read_url,
            fallback_query(p),
        ),
        fallback_query(p).namespace == p.namespace,
        fallback_query(p).object == Some(p.object),
        fallback_query(p).relation == Some(p.relation),
        fallback_query(p).subject_id == p.subject_id,
{
    lemma_sweep_falls_back(0, replies);
}

/// Recording a tuple a second time succeeds as the first time did: the
/// service may answer "created", "ok" or "already there", and each counts.
pub proof fn lemma_recording_again_succeeds(first: Fetched, second: Fetched)
    requires
        first is Response,
        second is Response,
        first->Response_0.status == 201 || first->Response_0.status == 200,
        second->Response_0.status == 201 || second->Response_0.status == 200
            || second->Response_0.status == 409,
    ensures
        creation_result(first) is Ok,
        creation_result(second) is Ok,
{
}

} // verus!
