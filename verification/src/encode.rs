//! Encoding a [`Codec`] value into bytes in every supported format.

use crate::content::ContentType;
use crate::extract::Codec;
use bincode::error::EncodeError as BincodeEncodeError;
use ciborium::ser::Error as CborEncodeError;
use rmp_serde::encode::Error as MsgPackEncodeError;
use serde_json::Error as JsonError;
use serde_yaml::Error as YamlError;
use std::io::Error as IoError;
use toml::ser::Error as TomlEncodeError;
use vstd::prelude::*;

verus! {

#[verifier::external_type_specification]
#[verifier::external_body]
pub struct ExMsgPackEncodeError(MsgPackEncodeError);

#[verifier::external_type_specification]
#[verifier::external_body]
#[verifier::reject_recursive_types(T)]
pub struct ExCborEncodeError<T>(CborEncodeError<T>);

#[verifier::external_type_specification]
#[verifier::external_body]
pub struct ExBincodeEncodeError(BincodeEncodeError);

#[verifier::external_type_specification]
#[verifier::external_body]
pub struct ExTomlEncodeError(TomlEncodeError);

/// Errors that can occur during encoding.
#[derive(Debug)]
pub enum Error {
    /// The value did not encode as JSON.
    Json(JsonError),
    /// The value did not encode as MessagePack.
    MsgPack(MsgPackEncodeError),
    /// The value did not encode as CBOR.
    Cbor(CborEncodeError<IoError>),
    /// The value did not encode as Bincode.
    Bincode(BincodeEncodeError),
    /// The value did not encode as YAML.
    Yaml(YamlError),
    /// The value did not encode as TOML.
    Toml(TomlEncodeError),
}

impl Error {
    /// Whether an error is one that encoding as the given format can raise;
    /// Bitcode encoding cannot fail.
    pub open spec fn arises_from(self, content_type: ContentType) -> bool {
        match content_type {
            ContentType::Json => self is Json,
            ContentType::MsgPack => self is MsgPack,
            ContentType::Bincode => self is Bincode,
            ContentType::Bitcode => false,
            ContentType::Cbor => self is Cbor,
            ContentType::Yaml => self is Yaml,
            ContentType::Toml => self is Toml,
        }
    }
}

/// Relies on `String::into_bytes`: the UTF-8 bytes of the string.
#[verifier::external_body]
fn string_into_bytes(s: String) -> (r: Vec<u8>)
    ensures
        r@ == vstd::utf8::encode_utf8(s@),
{
    s.into_bytes()
}

impl<T> Codec<T> {
    /// Relies on `serde_json::to_vec`: attempts to serialize the value as
    /// JSON.
    #[verifier::external_body]
    pub fn to_json(&self) -> (r: Result<Vec<u8>, JsonError>)
        where T: serde::Serialize,
    {
        serde_json::to_vec(&self.0)
    }

    /// Relies on `rmp_serde::to_vec_named`: attempts to serialize the value
    /// as MessagePack with named fields.
    #[verifier::external_body]
    pub fn to_msgpack(&self) -> (r: Result<Vec<u8>, MsgPackEncodeError>)
        where T: serde::Serialize,
    {
        rmp_serde::to_vec_named(&self.0)
    }

    /// Relies on `ciborium::into_writer`: attempts to serialize the value as
    /// CBOR.
    #[verifier::external_body]
    pub fn to_cbor(&self) -> (r: Result<Vec<u8>, CborEncodeError<IoError>>)
        where T: serde::Serialize,
    {
        let mut buf = Vec::new();
        match ciborium::into_writer(&self.0, &mut buf) {
            Ok(()) => Ok(buf),
            Err(e) => Err(e),
        }
    }

    /// Relies on `serde_yaml::to_string`: attempts to serialize the value as
    /// YAML.
    #[verifier::external_body]
    pub fn to_yaml(&self) -> (r: Result<String, YamlError>)
        where T: serde::Serialize,
    {
        serde_yaml::to_string(&self.0)
    }

    /// Relies on `toml::to_string`: attempts to serialize the value as TOML.
    #[verifier::external_body]
    pub fn to_toml(&self) -> (r: Result<String, TomlEncodeError>)
        where T: serde::Serialize,
    {
        toml::to_string(&self.0)
    }

    /// Relies on `bincode::encode_to_vec` with the standard configuration:
    /// attempts to serialize the value as Bincode.
    #[verifier::external_body]
    pub fn to_bincode(&self) -> (r: Result<Vec<u8>, BincodeEncodeError>)
        where T: bincode::Encode,
    {
        bincode::encode_to_vec(&self.0, bincode::config::standard())
    }

    /// Relies on `bitcode::encode`: serializes the value as Bitcode; this
    /// encoding cannot fail.
    #[verifier::external_body]
    pub fn to_bitcode(&self) -> (r: Vec<u8>)
        where T: bitcode::Encode,
    {
        bitcode::encode(&self.0)
    }

    /// Attempts to serialize the value as the specified [`ContentType`].
    ///
    /// An error always belongs to the chosen format, and the Bitcode format
    /// always succeeds; the textual formats return the UTF-8 bytes of the
    /// text they produce.
    pub fn to_bytes(&self, content_type: ContentType) -> (r: Result<Vec<u8>, Error>)
        where T: serde::Serialize + bincode::Encode + bitcode::Encode,
        ensures
            r matches Err(e) ==> e.arises_from(content_type),
            content_type is Bitcode ==> r is Ok,
            r matches Ok(bytes) ==> ((content_type is Yaml || content_type is Toml)
                ==> vstd::utf8::valid_utf8(bytes@)),
    {
        broadcast use vstd::utf8::encode_utf8_valid_utf8;

        match content_type {
            ContentType::Json => match self.to_json() {
                Ok(bytes) => Ok(bytes),
                Err(e) => Err(Error::Json(e)),
            },
            ContentType::MsgPack => match self.to_msgpack() {
                Ok(bytes) => Ok(bytes),
                Err(e) => Err(Error::MsgPack(e)),
            },
            ContentType::Bincode => match self.to_bincode() {
                Ok(bytes) => Ok(bytes),
                Err(e) => Err(Error::Bincode(e)),
            },
            ContentType::Bitcode => Ok(self.to_bitcode()),
            ContentType::Cbor => match self.to_cbor() {
                Ok(bytes) => Ok(bytes),
                Err(e) => Err(Error::Cbor(e)),
            },
            ContentType::Yaml => match self.to_yaml() {
                Ok(text) => Ok(string_into_bytes(text)),
                Err(e) => Err(Error::Yaml(e)),
            },
            ContentType::Toml => match self.to_toml() {
                Ok(text) => Ok(string_into_bytes(text)),
                Err(e) => Err(Error::Toml(e)),
            },
        }
    }
}

} // verus!
