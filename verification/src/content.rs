//! Wire-format resolution from MIME header text.

use mime::FromStrError as MimeFromStrError;
use vstd::prelude::*;

verus! {

/// The wire formats the library can negotiate between.
#[derive(Clone, Copy, PartialEq, Eq, Structural, Debug)]
pub enum ContentType {
    Json,
    MsgPack,
    Bincode,
    Bitcode,
    Cbor,
    Yaml,
    Toml,
}

/// Ways `ContentType::from_str` can fail.
#[derive(Debug)]
pub enum FromStrError {
    /// The text is a well-formed MIME type, but names no supported format.
    InvalidContentType,
    /// The text is not a well-formed MIME type.
    Mime(MimeFromStrError),
}

#[verifier::external_type_specification]
#[verifier::external_body]
pub struct ExMimeError(MimeFromStrError);

#[verifier::external_type_specification]
#[verifier::external_body]
pub struct ExHeaderValue(axum::http::HeaderValue);

/// The top-level type, subtype and suffix of a parsed MIME type.
pub struct MimeParts {
    pub top: String,
    pub sub: String,
    pub suffix: Option<String>,
}

/// What `mime` parses the given text into, if anything: the top-level type,
/// the subtype, and the suffix.
pub uninterp spec fn mime_parse(s: Seq<char>) -> Option<(Seq<char>, Seq<char>, Option<Seq<char>>)>;

pub open spec fn opt_text(s: Option<String>) -> Option<Seq<char>> {
    match s {
        Some(x) => Some(x@),
        None => None,
    }
}

/// Relies on `mime::Mime`'s `FromStr` impl together with `Mime::type_`,
/// `Mime::subtype`, `Mime::suffix` and `Name::as_str`: whether MIME text parses,
/// and into which parts, depends on the text alone.
#[verifier::external_body]
fn parse_mime(s: &str) -> (r: Result<MimeParts, MimeFromStrError>)
    ensures
        r matches Ok(p) ==> mime_parse(s@) == Some((p.top@, p.sub@, opt_text(p.suffix))),
        r is Err ==> mime_parse(s@) is None,
{
    match s.parse::<mime::Mime>() {
        Ok(m) => Ok(MimeParts {
            top: m.type_().as_str().to_owned(),
            sub: m.subtype().as_str().to_owned(),
            suffix: m.suffix().map(|n| n.as_str().to_owned()),
        }),
        Err(e) => Err(e),
    }
}

/// The text of a header value, when its bytes are all visible ASCII (or space
/// or tab), and nothing otherwise.
pub uninterp spec fn header_text(h: axum::http::HeaderValue) -> Option<Seq<char>>;

/// Relies on http's `HeaderValue::to_str`: returns the value's contents as text
/// exactly when every byte is visible ASCII, space or tab; the outcome depends
/// on the value alone.
#[verifier::external_body]
fn header_value_text(h: &axum::http::HeaderValue) -> (r: Option<String>)
    ensures
        r matches Some(s) ==> header_text(*h) == Some(s@),
        r is None ==> header_text(*h) is None,
{
    h.to_str().ok().map(|s| s.to_owned())
}

/// The characters accepted in a header value built from a string: visible
/// ASCII and the space, each a single byte.
pub open spec fn valid_header_chars(s: Seq<char>) -> bool {
    forall|i: int| 0 <= i < s.len() ==> ' ' <= #[trigger] s[i] <= '~'
}

/// Relies on http's `HeaderValue::from_static`: builds a value whose contents
/// are the given string. It panics on bytes not permitted in a header, which
/// the precondition rules out.
#[verifier::external_body]
fn header_value_from_static(s: &'static str) -> (r: axum::http::HeaderValue)
    requires
        valid_header_chars(s@),
    ensures
        header_text(r) == Some(s@),
{
    axum::http::HeaderValue::from_static(s)
}

/// Compares two string slices by contents.
pub(crate) fn str_eq(a: &str, b: &str) -> (r: bool)
    ensures
        r == (a@ == b@),
{
    let sa: String = a.to_owned();
    let sb: String = b.to_owned();
    sa == sb
}

/// Which format a MIME type with the given top-level type and effective
/// subtype (the suffix when present, the subtype otherwise) names.
pub open spec fn format_for(top: Seq<char>, sub: Seq<char>) -> Option<ContentType> {
    if top == "application"@ && sub == "json"@ {
        Some(ContentType::Json)
    } else if top == "application"@ && (sub == "msgpack"@ || sub == "vnd.msgpack"@ || sub
        == "x-msgpack"@ || sub == "x.msgpack"@) {
        Some(ContentType::MsgPack)
    } else if top == "application"@ && (sub == "bincode"@ || sub == "vnd.bincode"@ || sub
        == "x-bincode"@ || sub == "x.bincode"@) {
        Some(ContentType::Bincode)
    } else if top == "application"@ && (sub == "bitcode"@ || sub == "vnd.bitcode"@ || sub
        == "x-bitcode"@ || sub == "x.bitcode"@) {
        Some(ContentType::Bitcode)
    } else if top == "application"@ && sub == "cbor"@ {
        Some(ContentType::Cbor)
    } else if (top == "application"@ || top == "text"@) && (sub == "yaml"@ || sub == "yml"@ || sub
        == "x-yaml"@) {
        Some(ContentType::Yaml)
    } else if (top == "application"@ || top == "text"@) && (sub == "toml"@ || sub == "x-toml"@
        || sub == "vnd.toml"@) {
        Some(ContentType::Toml)
    } else {
        None
    }
}

impl ContentType {
    /// Maps a top-level MIME type and effective subtype (the suffix of the
    /// MIME type when it has one, its subtype otherwise) to the format they
    /// name.
    pub fn from_mime_parts(top: &str, sub: &str) -> (r: Option<ContentType>)
        ensures
            r == format_for(top@, sub@),
    {
        let application = str_eq(top, "application");
        let text = str_eq(top, "text");
        if application && str_eq(sub, "json") {
            Some(ContentType::Json)
        } else if application && (str_eq(sub, "msgpack") || str_eq(sub, "vnd.msgpack") || str_eq(
            sub,
            "x-msgpack",
        ) || str_eq(sub, "x.msgpack")) {
            Some(ContentType::MsgPack)
        } else if application && (str_eq(sub, "bincode") || str_eq(sub, "vnd.bincode") || str_eq(
            sub,
            "x-bincode",
        ) || str_eq(sub, "x.bincode")) {
            Some(ContentType::Bincode)
        } else if application && (str_eq(sub, "bitcode") || str_eq(sub, "vnd.bitcode") || str_eq(
            sub,
            "x-bitcode",
        ) || str_eq(sub, "x.bitcode")) {
            Some(ContentType::Bitcode)
        } else if application && str_eq(sub, "cbor") {
            Some(ContentType::Cbor)
        } else if (application || text) && (str_eq(sub, "yaml") || str_eq(sub, "yml") || str_eq(
            sub,
            "x-yaml",
        )) {
            Some(ContentType::Yaml)
        } else if (application || text) && (str_eq(sub, "toml") || str_eq(sub, "x-toml") || str_eq(
            sub,
            "vnd.toml",
        )) {
            Some(ContentType::Toml)
        } else {
            None
        }
    }
}

impl ContentType {
    /// The canonical MIME text of each format, as sent in a `Content-Type` header.
    pub open spec fn mime_text(self) -> Seq<char> {
        match self {
            ContentType::Json => "application/json"@,
            ContentType::MsgPack => "application/vnd.msgpack"@,
            ContentType::Bincode => "application/vnd.bincode"@,
            ContentType::Bitcode => "application/vnd.bitcode"@,
            ContentType::Cbor => "application/cbor"@,
            ContentType::Yaml => "application/x-yaml"@,
            ContentType::Toml => "text/toml"@,
        }
    }

    /// The format that MIME text resolves to: the suffix, when one is present,
    /// stands in for the subtype.
    pub open spec fn spec_from_str(s: Seq<char>) -> Option<ContentType> {
        match mime_parse(s) {
            None => None,
            Some((top, sub, suffix)) => {
                let effective = if suffix is Some {
                    suffix.unwrap()
                } else {
                    sub
                };
                format_for(top, effective)
            },
        }
    }

    /// Parses MIME text into the format it names.
    ///
    /// Along with the official MIME types, this recognizes some unofficial
    /// ones that are common in practice.
    pub fn from_str(s: &str) -> (r: Result<ContentType, FromStrError>)
        ensures
            mime_parse(s@) is None ==> r matches Err(FromStrError::Mime(_)),
            mime_parse(s@) is Some ==> match Self::spec_from_str(s@) {
                Some(ct) => r == Ok::<ContentType, FromStrError>(ct),
                None => r matches Err(FromStrError::InvalidContentType),
            },
    {
        match parse_mime(s) {
            Err(e) => Err(FromStrError::Mime(e)),
            Ok(parts) => {
                let effective: &String = match &parts.suffix {
                    Some(x) => x,
                    None => &parts.sub,
                };
                match Self::from_mime_parts(parts.top.as_str(), effective.as_str()) {
                    Some(ct) => Ok(ct),
                    None => Err(FromStrError::InvalidContentType),
                }
            },
        }
    }

    /// The format a header value resolves to, if its text parses to one.
    pub open spec fn spec_from_header(h: axum::http::HeaderValue) -> Option<ContentType> {
        match header_text(h) {
            None => None,
            Some(s) => Self::spec_from_str(s),
        }
    }

    /// Attempts to parse the given header value into a [`ContentType`] by
    /// treating it as a MIME type.
    pub fn from_header(header: &axum::http::HeaderValue) -> (r: Option<ContentType>)
        ensures
            r == Self::spec_from_header(*header),
    {
        match header_value_text(header) {
            None => None,
            Some(s) => match Self::from_str(s.as_str()) {
                Ok(ct) => Some(ct),
                Err(_) => None,
            },
        }
    }

    /// Returns the canonical MIME type as a string slice.
    pub fn as_str(&self) -> (r: &'static str)
        ensures
            r@ == self.mime_text(),
    {
        match *self {
            ContentType::Json => "application/json",
            ContentType::MsgPack => "application/vnd.msgpack",
            ContentType::Bincode => "application/vnd.bincode",
            ContentType::Bitcode => "application/vnd.bitcode",
            ContentType::Cbor => "application/cbor",
            ContentType::Yaml => "application/x-yaml",
            ContentType::Toml => "text/toml",
        }
    }

    /// Converts the [`ContentType`] into a header value holding its MIME text.
    pub fn into_header(self) -> (r: axum::http::HeaderValue)
        ensures
            header_text(r) == Some(self.mime_text()),
    {
        proof {
            lemma_mime_text_valid(self);
        }
        header_value_from_static(self.as_str())
    }
}

/// The canonical MIME text of every format is made of header-safe characters.
proof fn lemma_mime_text_valid(ct: ContentType)
    ensures
        valid_header_chars(ct.mime_text()),
{
    reveal_strlit("application/json");
    reveal_strlit("application/vnd.msgpack");
    reveal_strlit("application/vnd.bincode");
    reveal_strlit("application/vnd.bitcode");
    reveal_strlit("application/cbor");
    reveal_strlit("application/x-yaml");
    reveal_strlit("text/toml");
}

impl Default for ContentType {
    /// The format assumed when a request names no usable one.
    fn default() -> (r: Self)
        ensures
            r == ContentType::Json,
    {
        ContentType::Json
    }
}

/// The request's desired response [`ContentType`], as read from its `Accept`
/// (or, failing that, `Content-Type`) header.
#[derive(Debug, Clone, Copy)]
pub struct Accept(ContentType);

impl Accept {
    /// The format the value wraps.
    pub closed spec fn spec_content_type(self) -> ContentType {
        self.0
    }

    /// Wraps an already resolved [`ContentType`].
    pub fn new(content_type: ContentType) -> (r: Self)
        ensures
            r.spec_content_type() == content_type,
    {
        Accept(content_type)
    }

    /// Returns the request's desired response [`ContentType`].
    pub fn content_type(self) -> (r: ContentType)
        ensures
            r == self.spec_content_type(),
    {
        self.0
    }
}

impl From<Accept> for ContentType {
    fn from(accept: Accept) -> (r: Self) {
        accept.0
    }
}

impl vstd::std_specs::convert::FromSpecImpl<Accept> for ContentType {
    open spec fn obeys_from_spec() -> bool {
        true
    }

    open spec fn from_spec(t: Accept) -> ContentType {
        t.spec_content_type()
    }
}

} // verus!
