//! Rejections raised while extracting a [`Codec`](crate::Codec) from a request.

use axum::extract::rejection::BytesRejection;
use bincode::error::DecodeError as BincodeDecodeError;
use bitcode::Error as BitcodeError;
use ciborium::de::Error as CborDecodeError;
use core::str::Utf8Error as StrUtf8Error;
use rmp_serde::decode::Error as MsgPackDecodeError;
use serde_json::Error as JsonError;
use serde_yaml::Error as YamlError;
use std::io::Error as IoError;
use toml::de::Error as TomlDecodeError;
use vstd::prelude::*;

verus! {

#[verifier::external_type_specification]
#[verifier::external_body]
pub struct ExBytesRejection(BytesRejection);

#[verifier::external_type_specification]
#[verifier::external_body]
pub struct ExJsonError(JsonError);

#[verifier::external_type_specification]
#[verifier::external_body]
pub struct ExMsgPackDecodeError(MsgPackDecodeError);

#[verifier::external_type_specification]
#[verifier::external_body]
#[verifier::reject_recursive_types(T)]
pub struct ExCborDecodeError<T>(CborDecodeError<T>);

#[verifier::external_type_specification]
#[verifier::external_body]
pub struct ExIoError(IoError);

#[verifier::external_type_specification]
#[verifier::external_body]
pub struct ExBincodeDecodeError(BincodeDecodeError);

#[verifier::external_type_specification]
#[verifier::external_body]
pub struct ExBitcodeError(BitcodeError);

#[verifier::external_type_specification]
#[verifier::external_body]
pub struct ExYamlError(YamlError);

#[verifier::external_type_specification]
#[verifier::external_body]
pub struct ExTomlDecodeError(TomlDecodeError);

#[verifier::external_type_specification]
#[verifier::external_body]
pub struct ExStrUtf8Error(StrUtf8Error);

/// Rejection used for [`Codec`](crate::Codec).
///
/// Contains one variant for each way the extractor can fail.
#[derive(Debug)]
pub enum CodecRejection {
    /// Reading the request body failed.
    Bytes(BytesRejection),
    /// The body did not decode as JSON.
    Json(JsonError),
    /// The body did not decode as MessagePack.
    MsgPack(MsgPackDecodeError),
    /// The body did not decode as CBOR.
    Cbor(CborDecodeError<IoError>),
    /// The body did not decode as Bincode.
    Bincode(BincodeDecodeError),
    /// The body did not decode as Bitcode.
    Bitcode(BitcodeError),
    /// The body did not decode as YAML.
    Yaml(YamlError),
    /// The body did not decode as TOML.
    Toml(TomlDecodeError),
    /// The body had to be text but was not valid UTF-8.
    Utf8Error(StrUtf8Error),
}

impl CodecRejection {
    /// Whether a rejection is one that decoding as the given format can raise.
    pub open spec fn arises_from(self, content_type: crate::ContentType) -> bool {
        match content_type {
            crate::ContentType::Json => self is Json,
            crate::ContentType::MsgPack => self is MsgPack,
            crate::ContentType::Bincode => self is Bincode,
            crate::ContentType::Bitcode => self is Bitcode,
            crate::ContentType::Cbor => self is Cbor,
            crate::ContentType::Yaml => self is Yaml || self is Utf8Error,
            crate::ContentType::Toml => self is Toml || self is Utf8Error,
        }
    }

    /// The HTTP status code owed to the rejection: 413 when the body could not
    /// be read, 400 otherwise.
    pub open spec fn spec_status_code(self) -> u16 {
        if self is Bytes {
            413
        } else {
            400
        }
    }

    /// Returns the HTTP status code for the rejection.
    pub fn status_code(&self) -> (r: u16)
        ensures
            r == self.spec_status_code(),
    {
        if matches!(self, CodecRejection::Bytes(..)) {
            413
        } else {
            400
        }
    }

    /// The code the rejection reports: which kind of failure it was.
    pub open spec fn spec_code(self) -> Seq<char> {
        match self {
            CodecRejection::Bytes(_) => "payload_too_large"@,
            CodecRejection::Utf8Error(_) => "malformed_utf8"@,
            _ => "decode"@,
        }
    }

    /// Returns a pretty [`Message`] representing the rejection.
    ///
    /// Useful for sending a detailed error message to the client, but not so
    /// much for local debugging.
    pub fn message(&self) -> (r: Message)
        ensures
            r.code@ == self.spec_code(),
            self is Bytes ==> r.content@ == "The request payload is too large."@,
            self is Utf8Error ==> r.content@
                == "The request payload is not valid UTF-8 when it should be."@,
    {
        match self {
            CodecRejection::Bytes(_) => Message {
                code: "payload_too_large",
                content: "The request payload is too large.".to_owned(),
            },
            CodecRejection::Utf8Error(_) => Message {
                code: "malformed_utf8",
                content: "The request payload is not valid UTF-8 when it should be.".to_owned(),
            },
            CodecRejection::Json(e) => Message { code: "decode", content: e.to_string() },
            CodecRejection::MsgPack(e) => Message { code: "decode", content: e.to_string() },
            CodecRejection::Cbor(e) => Message { code: "decode", content: e.to_string() },
            CodecRejection::Bincode(e) => Message { code: "decode", content: e.to_string() },
            CodecRejection::Bitcode(e) => Message { code: "decode", content: e.to_string() },
            CodecRejection::Yaml(e) => Message { code: "decode", content: e.to_string() },
            CodecRejection::Toml(e) => Message { code: "decode", content: e.to_string() },
        }
    }
}

/// A code and a human-readable text representing an extractor rejection.
pub struct Message {
    /// A unique error code, useful for localization.
    pub code: &'static str,
    /// A human-readable error message in English.
    pub content: String,
}

} // verus!
