//! The endpoint catalog: a JSON array of objects, each with a `name`, a `url`
//! and a `method` (`"Get"` or `"Post"`).
use vstd::prelude::*;
use std::collections::BTreeMap;

verus! {

/// The HTTP method a probe uses.
#[derive(Debug, Clone, Copy, PartialEq, Eq, Structural)]
pub enum HttpMethod {
    Get,
    Post,
}

/// One monitored endpoint, as loaded from the catalog.
#[derive(Debug, Clone)]
pub struct EndpointSpec {
    pub name: String,
    pub url: String,
    pub method: HttpMethod,
}

/// The mathematical value of an [`EndpointSpec`].
pub ghost struct EndpointModel {
    pub name: Seq<char>,
    pub url: Seq<char>,
    pub method: HttpMethod,
}

impl View for EndpointSpec {
    type V = EndpointModel;

    open spec fn view(&self) -> EndpointModel {
        EndpointModel { name: self.name@, url: self.url@, method: self.method }
    }
}

/// Why a catalog could not be loaded.
#[derive(Debug, Clone, Copy, PartialEq, Eq, Structural)]
pub enum CatalogError {
    /// The catalog file could not be opened or read.
    Unreadable,
    /// The contents are not an array of well-formed endpoint objects.
    Malformed,
}

/// One JSON object as its members, each key with its value when that value
/// is a string and `None` for a value of any other kind.
pub type RawObject = Vec<(String, Option<String>)>;

/// The mathematical value of one member of a [`RawObject`].
pub type MemberModel = (Seq<char>, Option<Seq<char>>);

pub open spec fn member_view(m: (String, Option<String>)) -> MemberModel {
    (
        m.0@,
        match m.1 {
            Some(s) => Some(s@),
            None => None,
        },
    )
}

pub open spec fn object_view(o: RawObject) -> Seq<MemberModel> {
    o@.map_values(|m: (String, Option<String>)| member_view(m))
}

pub open spec fn objects_view(v: Seq<RawObject>) -> Seq<Seq<MemberModel>> {
    v.map_values(|o: RawObject| object_view(o))
}

/// What serde_json reads from the bytes as a JSON array of objects, with each
/// object given by its members; `None` where the bytes are not such an array.
pub uninterp spec fn json_objects(b: Seq<u8>) -> Option<Seq<Seq<MemberModel>>>;

#[verifier::external_type_specification]
#[verifier::external_body]
pub struct ExJsonError(serde_json::Error);

/// Relies on serde_json::from_slice, reading the bytes as an array of JSON
/// objects, and on serde_json::Value::as_str to keep the string members.
#[verifier::external_body]
fn read_objects(b: &[u8]) -> (r: Result<Vec<RawObject>, serde_json::Error>)
    ensures
        match r {
            Ok(v) => json_objects(b@) == Some(objects_view(v@)),
            Err(_) => json_objects(b@) is None,
        },
{
    match serde_json::from_slice::<Vec<BTreeMap<String, serde_json::Value>>>(b) {
        Ok(objs) => Ok(objs.into_iter().map(
            |o| o.into_iter().map(|(k, v)| (k, v.as_str().map(String::from))).collect(),
        ).collect()),
        Err(e) => Err(e),
    }
}

/// The value of the first member named `key`: `None` when there is no such
/// member, `Some(None)` when its value is not a string.
pub open spec fn member_spec(o: Seq<MemberModel>, key: Seq<char>) -> Option<Option<Seq<char>>>
    decreases o.len(),
{
    if o.len() == 0 {
        None
    } else if o[0].0 == key {
        Some(o[0].1)
    } else {
        member_spec(o.drop_first(), key)
    }
}

/// The string value of the member named `key`, if it has one.
pub open spec fn string_member(o: Seq<MemberModel>, key: Seq<char>) -> Option<Seq<char>> {
    match member_spec(o, key) {
        Some(Some(s)) => Some(s),
        _ => None,
    }
}

/// The method that a catalog token names.
pub open spec fn method_spec(token: Seq<char>) -> Option<HttpMethod> {
    if token == "Get"@ {
        Some(HttpMethod::Get)
    } else if token == "Post"@ {
        Some(HttpMethod::Post)
    } else {
        None
    }
}

/// The endpoint that one catalog object describes, if it is well formed.
pub open spec fn endpoint_spec(o: Seq<MemberModel>) -> Option<EndpointModel> {
    match (string_member(o, "name"@), string_member(o, "url"@), string_member(o, "method"@)) {
        (Some(name), Some(url), Some(m)) => match method_spec(m) {
            Some(method) => Some(EndpointModel { name, url, method }),
            None => None,
        },
        _ => None,
    }
}

/// The catalog that a sequence of objects describes: every object must be a
/// well-formed endpoint, and the order is kept.
pub open spec fn catalog_spec(objs: Seq<Seq<MemberModel>>) -> Option<Seq<EndpointModel>> {
    if forall|i: int| 0 <= i < objs.len() ==> (#[trigger] endpoint_spec(objs[i])) is Some {
        Some(objs.map_values(|o: Seq<MemberModel>| endpoint_spec(o).unwrap()))
    } else {
        None
    }
}

/// The catalog that the bytes of a catalog file describe.
pub open spec fn decode_spec(b: Seq<u8>) -> Option<Seq<EndpointModel>> {
    match json_objects(b) {
        Some(objs) => catalog_spec(objs),
        None => None,
    }
}

pub open spec fn endpoints_view(v: Seq<EndpointSpec>) -> Seq<EndpointModel> {
    v.map_values(|e: EndpointSpec| e@)
}

/// Finds the first member named `key`.
fn find_member(o: &RawObject, key: &str) -> (r: Option<Option<String>>)
    ensures
        match r {
            Some(Some(s)) => member_spec(object_view(*o), key@) == Some(Some(s@)),
            Some(None) => member_spec(object_view(*o), key@) == Some(None::<Seq<char>>),
            None => member_spec(object_view(*o), key@) is None,
        },
{
    let wanted = String::from_str(key);
    let ghost ov = object_view(*o);
    assert(ov.subrange(0, ov.len() as int) =~= ov);
    let mut i: usize = 0;
    while i < o.len()
        invariant
            0 <= i <= o@.len(),
            ov == object_view(*o),
            wanted@ == key@,
            member_spec(ov, key@) == member_spec(ov.subrange(i as int, ov.len() as int), key@),
        decreases o@.len() - i,
    {
        let ghost rest = ov.subrange(i as int, ov.len() as int);
        assert(rest.drop_first() =~= ov.subrange(i + 1, ov.len() as int));
        assert(rest[0] == member_view(o@[i as int]));
        let m = &o[i];
        if m.0.eq(&wanted) {
            assert(member_spec(ov, key@) == Some(member_view(*m).1));
            return match &m.1 {
                Some(v) => Some(Some(v.clone())),
                None => Some(None),
            };
        }
        assert(member_spec(rest, key@) == member_spec(rest.drop_first(), key@));
        i = i + 1;
    }
    None
}

/// Finds the string value of the member named `key`.
fn find_string(o: &RawObject, key: &str) -> (r: Option<String>)
    ensures
        match r {
            Some(s) => string_member(object_view(*o), key@) == Some(s@),
            None => string_member(object_view(*o), key@) is None,
        },
{
    match find_member(o, key) {
        Some(Some(s)) => Some(s),
        _ => None,
    }
}

/// Reads a method token: `"Get"` or `"Post"`.
pub fn parse_method(token: &str) -> (r: Option<HttpMethod>)
    ensures
        r == method_spec(token@),
{
    let t = String::from_str(token);
    let get = String::from_str("Get");
    let post = String::from_str("Post");
    if t.eq(&get) {
        Some(HttpMethod::Get)
    } else if t.eq(&post) {
        Some(HttpMethod::Post)
    } else {
        None
    }
}

/// Reads one catalog object as an endpoint.
fn decode_endpoint(o: &RawObject) -> (r: Option<EndpointSpec>)
    ensures
        match r {
            Some(e) => endpoint_spec(object_view(*o)) == Some(e@),
            None => endpoint_spec(object_view(*o)) is None,
        },
{
    let name = find_string(o, "name");
    let url = find_string(o, "url");
    let method = find_string(o, "method");
    match (name, url, method) {
        (Some(name), Some(url), Some(m)) => match parse_method(m.as_str()) {
            Some(method) => Some(EndpointSpec { name, url, method }),
            None => None,
        },
        _ => None,
    }
}

/// Reads a catalog from a sequence of JSON objects, keeping their order; fails
/// when any object is not a well-formed endpoint.
pub fn decode_objects(objs: &Vec<RawObject>) -> (r: Result<Vec<EndpointSpec>, CatalogError>)
    ensures
        match r {
            Ok(v) => catalog_spec(objects_view(objs@)) == Some(endpoints_view(v@)),
            Err(e) => e == CatalogError::Malformed && catalog_spec(objects_view(objs@)) is None,
        },
{
    let ghost ov = objects_view(objs@);
    let mut out: Vec<EndpointSpec> = Vec::new();
    let mut i: usize = 0;
    while i < objs.len()
        invariant
            0 <= i <= objs@.len(),
            ov == objects_view(objs@),
            out@.len() == i,
            forall|j: int| 0 <= j < i ==> (#[trigger] endpoint_spec(ov[j])) == Some(out@[j]@),
        decreases objs@.len() - i,
    {
        match decode_endpoint(&objs[i]) {
            Some(e) => {
                out.push(e);
            },
            None => {
                assert(endpoint_spec(ov[i as int]) is None);
                return Err(CatalogError::Malformed);
            },
        }
        i = i + 1;
    }
    assert(forall|j: int| 0 <= j < ov.len() ==> (#[trigger] endpoint_spec(ov[j])) is Some);
    assert(ov.map_values(|o: Seq<MemberModel>| endpoint_spec(o).unwrap()) =~= endpoints_view(out@));
    Ok(out)
}

/// Loads a catalog from the bytes of a catalog file.
pub fn parse_catalog(b: &[u8]) -> (r: Result<Vec<EndpointSpec>, CatalogError>)
    ensures
        match r {
            Ok(v) => decode_spec(b@) == Some(endpoints_view(v@)),
            Err(e) => e == CatalogError::Malformed && decode_spec(b@) is None,
        },
{
    match read_objects(b) {
        Ok(objs) => decode_objects(&objs),
        Err(_) => Err(CatalogError::Malformed),
    }
}

/// Loads a catalog from what reading its file gave: `None` when the file could
/// not be opened or read, else its bytes.
pub fn load_catalog(contents: Option<&[u8]>) -> (r: Result<Vec<EndpointSpec>, CatalogError>)
    ensures
        match contents {
            None => r == Err::<Vec<EndpointSpec>, CatalogError>(CatalogError::Unreadable),
            Some(b) => match r {
                Ok(v) => decode_spec(b@) == Some(endpoints_view(v@)),
                Err(e) => e == CatalogError::Malformed && decode_spec(b@) is None,
            },
        },
{
    match contents {
        None => Err(CatalogError::Unreadable),
        Some(b) => parse_catalog(b),
    }
}

/// The diagnostic for a catalog error at a path.
pub open spec fn error_message_spec(e: CatalogError, path: Seq<char>) -> Seq<char> {
    match e {
        CatalogError::Unreadable => "Unable to open "@ + path + "."@,
        CatalogError::Malformed => path + " could not be parsed."@,
    }
}

impl CatalogError {
    /// The diagnostic to report for this error on the catalog at `path`.
    pub fn message(&self, path: &str) -> (r: String)
        ensures
            r@ == error_message_spec(*self, path@),
    {
        match self {
            CatalogError::Unreadable => String::from_str("Unable to open ").concat(path).concat("."),
            CatalogError::Malformed => String::from_str(path).concat(" could not be parsed."),
        }
    }
}

} // verus!
