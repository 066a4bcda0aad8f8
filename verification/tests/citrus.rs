use rainbeam_core::citrus::{
    schema_data_url, server_description_url, CitrusID, HttpMethod, HttpProtocol, SchemaAPI, SchemaPointer,
    ServerInfo, ServerRepresentation, TemplateBuilder,
};

fn server() -> ServerRepresentation {
    ServerRepresentation {
        server: ServerInfo { name: "Example".to_string(), id: "example.com".to_string() },
        schemas: vec![
            SchemaPointer {
                id: "net.rainbeam.structs.Profile".to_string(),
                location: "/schemas/profile.json".to_string(),
                api: vec![(
                    "get".to_string(),
                    SchemaAPI { method: HttpMethod::GET, url: "/api/<field>".to_string(), body: String::new() },
                )],
            },
            SchemaPointer {
                id: "net.rainbeam.structs.Profile".to_string(),
                location: "/second.json".to_string(),
                api: vec![],
            },
        ],
    }
}

#[test]
fn id_parts() {
    let id = CitrusID("example.com:abc123".to_string());
    assert_eq!(id.bytes_lens(), (11, 6));
    assert_eq!(id.server_id(), "example.com");
    assert_eq!(id.hash(), "abc123");
}

#[test]
fn id_without_a_server() {
    let id = CitrusID("abc123".to_string());
    assert_eq!(id.bytes_lens(), (0, 6));
    assert_eq!(id.server_id(), "");
    assert_eq!(id.hash(), "abc123");
}

#[test]
fn id_with_extra_colons() {
    let id = CitrusID("a:b:c".to_string());
    assert_eq!(id.bytes_lens(), (1, 3));
    assert_eq!(id.server_id(), "a");
    assert_eq!(id.hash(), "b:c");
}

#[test]
fn id_lengths_are_in_bytes() {
    let id = CitrusID("é:x".to_string());
    assert_eq!(id.bytes_lens(), (2, 1));
    assert_eq!(id.server_id(), "é");
    assert_eq!(id.hash(), "x");
}

#[test]
fn schemas_are_found_by_id() {
    let s = server();
    assert_eq!(s.get_schema("net.rainbeam.structs.Profile"), Some("/schemas/profile.json".to_string()));
    assert_eq!(s.get_schema("net.rainbeam.structs.Question"), None);
    assert!(s.has_schema("net.rainbeam.structs.Profile"));
    assert!(!s.has_schema(""));
}

#[test]
fn addresses() {
    assert_eq!(
        server_description_url(HttpProtocol::Https, "example.com"),
        "https://example.com/.well-known/citrus/citrus.toml"
    );
    assert_eq!(HttpProtocol::Http.to_string(), "http:");
    let s = server();
    assert_eq!(
        schema_data_url(HttpProtocol::Http, &s, "net.rainbeam.structs.Profile", "/api/profile/1"),
        Ok("http://example.com/api/profile/1".to_string())
    );
    assert_eq!(
        schema_data_url(HttpProtocol::Http, &s, "unknown", "/x"),
        Err("Server does not support schema".to_string())
    );
}

#[test]
fn templates_fill_fields_in_order() {
    let t = TemplateBuilder("{\"a\": \"<field>\", \"b\": \"<field>\"}".to_string());
    assert_eq!(t.build(vec!["1", "2"]).0, "{\"a\": \"1\", \"b\": \"2\"}");
    let extra = TemplateBuilder("<field>".to_string()).build(vec!["x", "y"]);
    assert_eq!(extra.0, "x");
    let nested = TemplateBuilder("<field>-<field>".to_string()).build(vec!["<field>", "z"]);
    assert_eq!(nested.0, "z-<field>");
}
