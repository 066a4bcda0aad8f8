//! Citrus: identifiers and server descriptions for resources federated
//! between servers.
use vstd::prelude::*;
use crate::kv::StringMap;
use crate::model::{after_char, before_char, lemma_no_char, lemma_split_at_first, split_once_char};
use crate::text::{byte_len, chars_eq, chars_of, push_str, replace_first, replace_first_chars, string_of, strs_view, utf8_len};

verus! {

/// The protocol used to reach other servers.
#[derive(Clone, Copy, Debug, PartialEq, Eq, Structural)]
pub enum HttpProtocol {
    Http,
    Https,
}

/// The URL scheme of a protocol.
pub open spec fn protocol_scheme(p: HttpProtocol) -> Seq<char> {
    match p {
        HttpProtocol::Http => "http:"@,
        HttpProtocol::Https => "https:"@,
    }
}

impl HttpProtocol {
    /// The URL scheme of this protocol (`http:` or `https:`).
    pub fn to_string(&self) -> (r: String)
        ensures
            r@ == protocol_scheme(*self),
    {
        match self {
            HttpProtocol::Http => "http:".to_owned(),
            HttpProtocol::Https => "https:".to_owned(),
        }
    }
}

/// An HTTP request method.
#[derive(Clone, Copy, Debug, PartialEq, Eq, Structural)]
pub enum HttpMethod {
    GET,
    HEAD,
    POST,
    PUT,
    OPTIONS,
}

/// A simple identifier to identify resources from other servers:
/// `{server_id}:{uuid/hash}`.
#[derive(Debug)]
pub struct CitrusID(pub String);

/// The server part of an ID: what comes before its first `:`, or nothing
/// where it has no `:`.
pub open spec fn id_server(s: Seq<char>) -> Seq<char> {
    match after_char(s, ':') {
        Some(_) => before_char(s, ':'),
        None => Seq::empty(),
    }
}

/// The hash part of an ID: everything after its first `:`, or the whole ID
/// where it has no `:`.
pub open spec fn id_hash(s: Seq<char>) -> Seq<char> {
    match after_char(s, ':') {
        Some(rest) => rest,
        None => s,
    }
}

impl CitrusID {
    /// Get the number of bytes that make up both parts of a CitrusID: the
    /// server part, then the hash.
    pub fn bytes_lens(&self) -> (r: (usize, usize))
        ensures
            r.0 == utf8_len(id_server(self.0@)),
            r.1 == utf8_len(id_hash(self.0@)),
    {
        let server = self.server_id();
        let hash = self.hash();
        (byte_len(server.as_str()), byte_len(hash.as_str()))
    }

    /// Get the `server_id` section of the ID (empty where the ID has no `:`).
    pub fn server_id(&self) -> (r: String)
        ensures
            r@ == id_server(self.0@),
    {
        let s = chars_of(self.0.as_str());
        let (head, rest) = split_once_char(s.as_slice(), ':');
        match rest {
            Some(_) => string_of(head.as_slice()),
            None => String::new(),
        }
    }

    /// Get the `hash` section of the ID: everything after the first `:`, or
    /// the whole ID where it has none.
    pub fn hash(&self) -> (r: String)
        ensures
            r@ == id_hash(self.0@),
    {
        let s = chars_of(self.0.as_str());
        let (_, rest) = split_once_char(s.as_slice(), ':');
        match rest {
            Some(h) => string_of(h.as_slice()),
            None => self.0.clone(),
        }
    }
}

/// An ID written `{server_id}:{hash}`, where the server part holds no `:`,
/// splits back into those two parts; an ID without `:` is all hash.
pub proof fn law_id_parts(server: Seq<char>, hash: Seq<char>)
    requires
        forall|i: int| 0 <= i < server.len() ==> server[i] != ':',
    ensures
        id_server(server + seq![':'] + hash) == server,
        id_hash(server + seq![':'] + hash) == hash,
        id_server(server) == Seq::<char>::empty(),
        id_hash(server) == server,
{
    lemma_split_at_first(server, hash, ':');
    lemma_no_char(server, ':');
}

/// Information about a server
#[derive(Debug)]
pub struct ServerInfo {
    /// Public server name
    pub name: String,
    /// Server hostname
    pub id: String,
}

/// A description of a schema's API
#[derive(Debug)]
pub struct SchemaAPI {
    /// The method to send with the API request
    pub method: HttpMethod,
    /// The URL to send the API request to
    pub url: String,
    /// The body of the API request (supports template values)
    pub body: String,
}

/// A description of where a schema is located based on its ID
#[derive(Debug)]
pub struct SchemaPointer {
    /// Schema ID
    pub id: String,
    /// Schema location (relative to `/.well-known/citrus`)
    pub location: String,
    /// The schema's API endpoints, by name
    pub api: Vec<(String, SchemaAPI)>,
}

/// A schema
#[derive(Debug)]
pub struct Schema {
    /// Schema ID
    pub id: String,
    /// Schema data
    pub structure: StringMap,
}

/// A representation of a server (`/.well-known/citrus/citrus.toml`)
#[derive(Debug)]
pub struct ServerRepresentation {
    pub server: ServerInfo,
    pub schemas: Vec<SchemaPointer>,
}

/// The position of the first schema of `s` whose ID is `id`.
pub open spec fn schema_position(s: Seq<SchemaPointer>, id: Seq<char>) -> Option<int>
    decreases s.len(),
{
    if s.len() == 0 {
        None
    } else if s[0].id@ == id {
        Some(0)
    } else {
        match schema_position(s.subrange(1, s.len() as int), id) {
            Some(k) => Some(k + 1),
            None => None,
        }
    }
}

impl ServerRepresentation {
    /// Get the location of a schema file based on its ID: that of the first
    /// schema with that ID.
    pub fn get_schema(&self, schema: &str) -> (r: Option<String>)
        ensures
            match schema_position(self.schemas@, schema@) {
                Some(k) => r matches Some(l) && l@ == self.schemas@[k].location@,
                None => r is None,
            },
    {
        let sc = chars_of(schema);
        let mut i: usize = 0;
        assert(self.schemas@.subrange(0, self.schemas@.len() as int) =~= self.schemas@);
        while i < self.schemas.len()
            invariant
                sc@ == schema@,
                i <= self.schemas.len(),
                schema_position(self.schemas@, schema@) == match schema_position(
                    self.schemas@.subrange(i as int, self.schemas@.len() as int), schema@) {
                    Some(k) => Some(k + i),
                    None => None,
                },
            decreases self.schemas.len() - i,
        {
            let ghost t = self.schemas@.subrange(i as int, self.schemas@.len() as int);
            assert(t.subrange(1, t.len() as int) =~= self.schemas@.subrange(i + 1, self.schemas@.len() as int));
            let ic = chars_of(self.schemas[i].id.as_str());
            if chars_eq(ic.as_slice(), sc.as_slice()) {
                return Some(self.schemas[i].location.clone());
            }
            i = i + 1;
        }
        None
    }

    /// Check if the server has the given schema by its ID.
    pub fn has_schema(&self, schema: &str) -> (r: bool)
        ensures
            r == schema_position(self.schemas@, schema@) is Some,
    {
        self.get_schema(schema).is_some()
    }
}

/// The address of a server's description: `{protocol}//{hostname}/.well-known/citrus/citrus.toml`.
pub fn server_description_url(protocol: HttpProtocol, hostname: &str) -> (r: String)
    ensures
        r@ == protocol_scheme(protocol) + "//"@ + hostname@ + "/.well-known/citrus/citrus.toml"@,
{
    let mut out: Vec<char> = Vec::new();
    let p = protocol.to_string();
    push_str(&mut out, p.as_str());
    push_str(&mut out, "//");
    push_str(&mut out, hostname);
    push_str(&mut out, "/.well-known/citrus/citrus.toml");
    assert(out@ =~= protocol_scheme(protocol) + "//"@ + hostname@ + "/.well-known/citrus/citrus.toml"@);
    string_of(out.as_slice())
}

/// The address to fetch `url` from on `server`, which must support
/// `schema`: `{protocol}//{server id}{url}`, or the error message where the
/// server does not support the schema.
pub fn schema_data_url(protocol: HttpProtocol, server: &ServerRepresentation, schema: &str, url: &str) -> (r:
    Result<String, String>)
    ensures
        schema_position(server.schemas@, schema@) is None <==> r is Err,
        r matches Err(e) ==> e@ == "Server does not support schema"@,
        r matches Ok(a) ==> a@ == protocol_scheme(protocol) + "//"@ + server.server.id@ + url@,
{
    if !server.has_schema(schema) {
        return Err("Server does not support schema".to_owned());
    }
    let mut out: Vec<char> = Vec::new();
    let p = protocol.to_string();
    push_str(&mut out, p.as_str());
    push_str(&mut out, "//");
    push_str(&mut out, server.server.id.as_str());
    push_str(&mut out, url);
    assert(out@ =~= protocol_scheme(protocol) + "//"@ + server.server.id@ + url@);
    Ok(string_of(out.as_slice()))
}

/// Citrus API body template builder
#[derive(Debug)]
pub struct TemplateBuilder(pub String);

/// `s` with its first `values.len()` `<field>` markers filled in by
/// `values`, one after another.
pub open spec fn fill_fields(s: Seq<char>, values: Seq<Seq<char>>) -> Seq<char>
    decreases values.len(),
{
    if values.len() == 0 {
        s
    } else {
        fill_fields(replace_first(s, "<field>"@, values[0]), values.subrange(1, values.len() as int))
    }
}

impl TemplateBuilder {
    /// Build template: each value replaces the first `<field>` left.
    pub fn build(self, values: Vec<&str>) -> (r: TemplateBuilder)
        ensures
            r.0@ == fill_fields(self.0@, strs_view(values@)),
    {
        let field = chars_of("<field>");
        proof {
            reveal_strlit("<field>");
        }
        let mut cur = chars_of(self.0.as_str());
        let ghost vs = strs_view(values@);
        let mut i: usize = 0;
        assert(vs.subrange(0, vs.len() as int) =~= vs);
        while i < values.len()
            invariant
                field@ == "<field>"@,
                field@.len() > 0,
                vs == strs_view(values@),
                i <= values.len(),
                fill_fields(cur@, vs.subrange(i as int, vs.len() as int)) == fill_fields(self.0@, vs),
            decreases values.len() - i,
        {
            let ghost t = vs.subrange(i as int, vs.len() as int);
            assert(t[0] == values@[i as int]@);
            assert(t.subrange(1, t.len() as int) =~= vs.subrange(i + 1, vs.len() as int));
            let v = chars_of(values[i]);
            cur = replace_first_chars(cur.as_slice(), field.as_slice(), v.as_slice());
            i = i + 1;
        }
        assert(vs.subrange(vs.len() as int, vs.len() as int) =~= Seq::<Seq<char>>::empty());
        TemplateBuilder(string_of(cur.as_slice()))
    }
}

} // verus!
