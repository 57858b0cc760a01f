//! Decoding bytes into a [`Codec`] value in every supported format.

use crate::content::ContentType;
use crate::extract::Codec;
use crate::rejection::CodecRejection;
use bincode::error::DecodeError as BincodeDecodeError;
use bitcode::Error as BitcodeError;
use ciborium::de::Error as CborDecodeError;
use core::str::Utf8Error as StrUtf8Error;
use rmp_serde::decode::Error as MsgPackDecodeError;
use serde_json::Error as JsonError;
use serde_yaml::Error as YamlError;
use std::io::Error as IoError;
use toml::de::Error as TomlDecodeError;
use vstd::prelude::*;
use vstd::string::StringSliceAdditionalSpecFns;

verus! {

/// Relies on `core::str::from_utf8`: succeeds exactly on valid UTF-8 and
/// returns the text those bytes encode.
#[verifier::external_body]
fn str_from_utf8(bytes: &[u8]) -> (r: Result<&str, StrUtf8Error>)
    ensures
        r matches Ok(s) ==> vstd::utf8::valid_utf8(bytes@) && s.spec_bytes() == bytes@,
        r is Err ==> !vstd::utf8::valid_utf8(bytes@),
{
    core::str::from_utf8(bytes)
}

impl<T> Codec<T> {
    /// Relies on `serde_json::from_slice`: attempts to deserialize the given
    /// bytes as JSON.
    #[verifier::external_body]
    pub fn from_json(bytes: &[u8]) -> (r: Result<Self, JsonError>)
        where T: serde::de::DeserializeOwned,
    {
        serde_json::from_slice(bytes).map(Codec)
    }

    /// Relies on `rmp_serde::from_slice`: attempts to deserialize the given
    /// bytes as MessagePack.
    #[verifier::external_body]
    pub fn from_msgpack(bytes: &[u8]) -> (r: Result<Self, MsgPackDecodeError>)
        where T: serde::de::DeserializeOwned,
    {
        rmp_serde::from_slice(bytes).map(Codec)
    }

    /// Relies on `ciborium::from_reader`: attempts to deserialize the given
    /// bytes as CBOR.
    #[verifier::external_body]
    pub fn from_cbor(bytes: &[u8]) -> (r: Result<Self, CborDecodeError<IoError>>)
        where T: serde::de::DeserializeOwned,
    {
        ciborium::from_reader(bytes).map(Codec)
    }

    /// Relies on `serde_yaml::from_str`: attempts to deserialize the given
    /// text as YAML.
    #[verifier::external_body]
    pub fn from_yaml(text: &str) -> (r: Result<Self, YamlError>)
        where T: serde::de::DeserializeOwned,
    {
        serde_yaml::from_str(text).map(Codec)
    }

    /// Relies on `toml::from_str`: attempts to deserialize the given text as
    /// TOML.
    #[verifier::external_body]
    pub fn from_toml(text: &str) -> (r: Result<Self, TomlDecodeError>)
        where T: serde::de::DeserializeOwned,
    {
        toml::from_str(text).map(Codec)
    }

    /// Relies on `bincode::decode_from_slice` with the standard configuration:
    /// attempts to deserialize the given bytes as Bincode.
    #[verifier::external_body]
    pub fn from_bincode(bytes: &[u8]) -> (r: Result<Self, BincodeDecodeError>)
        where T: bincode::Decode<()>,
    {
        bincode::decode_from_slice(bytes, bincode::config::standard()).map(|t| Codec(t.0))
    }

    /// Relies on `bitcode::decode`: attempts to deserialize the given bytes
    /// as Bitcode.
    #[verifier::external_body]
    pub fn from_bitcode(bytes: &[u8]) -> (r: Result<Self, BitcodeError>)
        where T: bitcode::DecodeOwned,
    {
        bitcode::decode(bytes).map(Codec)
    }

    /// Attempts to deserialize the given bytes as the specified
    /// [`ContentType`].
    ///
    /// A rejection always belongs to the chosen format; the textual formats
    /// reject bytes that are not valid UTF-8 before decoding them.
    pub fn from_bytes(bytes: &[u8], content_type: ContentType) -> (r: Result<Self, CodecRejection>)
        where T: serde::de::DeserializeOwned + bincode::Decode<()> + bitcode::DecodeOwned,
        ensures
            r matches Err(e) ==> e.arises_from(content_type) && (e is Utf8Error
                ==> !vstd::utf8::valid_utf8(bytes@)),
            (content_type is Yaml || content_type is Toml) && !vstd::utf8::valid_utf8(bytes@)
                ==> r matches Err(CodecRejection::Utf8Error(_)),
    {
        match content_type {
            ContentType::Json => match Self::from_json(bytes) {
                Ok(c) => Ok(c),
                Err(e) => Err(CodecRejection::Json(e)),
            },
            ContentType::MsgPack => match Self::from_msgpack(bytes) {
                Ok(c) => Ok(c),
                Err(e) => Err(CodecRejection::MsgPack(e)),
            },
            ContentType::Bincode => match Self::from_bincode(bytes) {
                Ok(c) => Ok(c),
                Err(e) => Err(CodecRejection::Bincode(e)),
            },
            ContentType::Bitcode => match Self::from_bitcode(bytes) {
                Ok(c) => Ok(c),
                Err(e) => Err(CodecRejection::Bitcode(e)),
            },
            ContentType::Cbor => match Self::from_cbor(bytes) {
                Ok(c) => Ok(c),
                Err(e) => Err(CodecRejection::Cbor(e)),
            },
            ContentType::Yaml => match str_from_utf8(bytes) {
                Err(e) => Err(CodecRejection::Utf8Error(e)),
                Ok(text) => match Self::from_yaml(text) {
                    Ok(c) => Ok(c),
                    Err(e) => Err(CodecRejection::Yaml(e)),
                },
            },
            ContentType::Toml => match str_from_utf8(bytes) {
                Err(e) => Err(CodecRejection::Utf8Error(e)),
                Ok(text) => match Self::from_toml(text) {
                    Ok(c) => Ok(c),
                    Err(e) => Err(CodecRejection::Toml(e)),
                },
            },
        }
    }
}

} // verus!
