//! Content-type resolution from MIME text and header values.

use axum::http::HeaderValue;
use axum_codec::Accept;
use axum_codec::ContentType;
use axum_codec::content::FromStrError;

#[test]
fn as_str_gives_canonical_mime() {
    assert_eq!(ContentType::Json.as_str(), "application/json");
    assert_eq!(ContentType::MsgPack.as_str(), "application/vnd.msgpack");
    assert_eq!(ContentType::Bincode.as_str(), "application/vnd.bincode");
    assert_eq!(ContentType::Bitcode.as_str(), "application/vnd.bitcode");
    assert_eq!(ContentType::Cbor.as_str(), "application/cbor");
    assert_eq!(ContentType::Yaml.as_str(), "application/x-yaml");
    assert_eq!(ContentType::Toml.as_str(), "text/toml");
}

#[test]
fn default_is_json() {
    assert_eq!(ContentType::default(), ContentType::Json);
}

#[test]
fn from_str_resolves_official_and_common_types() {
    assert_eq!(ContentType::from_str("application/json").unwrap(), ContentType::Json);
    assert_eq!(ContentType::from_str("application/msgpack").unwrap(), ContentType::MsgPack);
    assert_eq!(ContentType::from_str("application/vnd.msgpack").unwrap(), ContentType::MsgPack);
    assert_eq!(ContentType::from_str("application/x-msgpack").unwrap(), ContentType::MsgPack);
    assert_eq!(ContentType::from_str("application/x.msgpack").unwrap(), ContentType::MsgPack);
    assert_eq!(ContentType::from_str("application/vnd.bincode").unwrap(), ContentType::Bincode);
    assert_eq!(ContentType::from_str("application/x-bitcode").unwrap(), ContentType::Bitcode);
    assert_eq!(ContentType::from_str("application/cbor").unwrap(), ContentType::Cbor);
    assert_eq!(ContentType::from_str("application/x-yaml").unwrap(), ContentType::Yaml);
    assert_eq!(ContentType::from_str("text/yaml").unwrap(), ContentType::Yaml);
    assert_eq!(ContentType::from_str("text/yml").unwrap(), ContentType::Yaml);
    assert_eq!(ContentType::from_str("text/toml").unwrap(), ContentType::Toml);
    assert_eq!(ContentType::from_str("application/toml").unwrap(), ContentType::Toml);
    assert_eq!(ContentType::from_str("application/vnd.toml").unwrap(), ContentType::Toml);
}

#[test]
fn from_mime_parts_reads_type_and_effective_subtype() {
    assert_eq!(
        ContentType::from_mime_parts("application", "json"),
        Some(ContentType::Json)
    );
    assert_eq!(
        ContentType::from_mime_parts("text", "x-yaml"),
        Some(ContentType::Yaml)
    );
    assert_eq!(ContentType::from_mime_parts("text", "json"), None);
    assert_eq!(ContentType::from_mime_parts("application", "pdf"), None);
}

#[test]
fn from_str_uses_the_suffix_when_present() {
    assert_eq!(ContentType::from_str("application/problem+json").unwrap(), ContentType::Json);
    assert_eq!(ContentType::from_str("application/thing+cbor").unwrap(), ContentType::Cbor);
}

#[test]
fn from_str_rejects_unsupported_types() {
    assert!(matches!(
        ContentType::from_str("application/pdf"),
        Err(FromStrError::InvalidContentType)
    ));
    assert!(matches!(
        ContentType::from_str("text/json"),
        Err(FromStrError::InvalidContentType)
    ));
}

#[test]
fn from_str_rejects_malformed_mime_text() {
    assert!(matches!(ContentType::from_str("not a mime"), Err(FromStrError::Mime(_))));
    assert!(matches!(ContentType::from_str(""), Err(FromStrError::Mime(_))));
}

#[test]
fn from_header_parses_mime_headers() {
    let header = HeaderValue::from_static("application/json");
    assert_eq!(ContentType::from_header(&header), Some(ContentType::Json));

    let header = HeaderValue::from_static("application/vnd.msgpack");
    assert_eq!(ContentType::from_header(&header), Some(ContentType::MsgPack));

    let header = HeaderValue::from_static("application/x-msgpack");
    assert_eq!(ContentType::from_header(&header), Some(ContentType::MsgPack));

    let header = HeaderValue::from_static("application/octet-stream");
    assert_eq!(ContentType::from_header(&header), None);
}

#[test]
fn from_header_rejects_opaque_bytes() {
    let header = HeaderValue::from_bytes(&[0xff, 0xfe]).unwrap();
    assert_eq!(ContentType::from_header(&header), None);
}

#[test]
fn into_header_carries_the_canonical_mime() {
    assert_eq!(ContentType::Json.into_header(), HeaderValue::from_static("application/json"));
    assert_eq!(
        ContentType::MsgPack.into_header(),
        HeaderValue::from_static("application/vnd.msgpack")
    );
    assert_eq!(ContentType::Yaml.into_header(), HeaderValue::from_static("application/x-yaml"));
    assert_eq!(ContentType::Toml.into_header(), HeaderValue::from_static("text/toml"));
}

#[test]
fn the_canonical_mime_text_resolves_back_to_its_format() {
    for content_type in [
        ContentType::Json,
        ContentType::MsgPack,
        ContentType::Bincode,
        ContentType::Bitcode,
        ContentType::Cbor,
        ContentType::Yaml,
        ContentType::Toml,
    ] {
        assert_eq!(ContentType::from_str(content_type.as_str()).unwrap(), content_type);
        assert_eq!(ContentType::from_header(&content_type.into_header()), Some(content_type));
    }
}

#[test]
fn accept_wraps_a_content_type() {
    let accept = Accept::new(ContentType::Cbor);
    assert_eq!(accept.content_type(), ContentType::Cbor);
    assert_eq!(ContentType::from(accept), ContentType::Cbor);
}
