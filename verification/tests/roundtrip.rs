//! Round trips through every supported format.

use axum_codec::Codec;
use serde::ser::SerializeStruct;

#[derive(Debug, PartialEq)]
struct Data {
    string: String,
    integer: i32,
    array: Vec<i32>,
    boolean: bool,
}

impl serde::Serialize for Data {
    fn serialize<S: serde::Serializer>(&self, serializer: S) -> Result<S::Ok, S::Error> {
        let mut st = serializer.serialize_struct("Data", 4)?;
        st.serialize_field("string", &self.string)?;
        st.serialize_field("integer", &self.integer)?;
        st.serialize_field("array", &self.array)?;
        st.serialize_field("boolean", &self.boolean)?;
        st.end()
    }
}

struct DataVisitor;

impl<'de> serde::de::Visitor<'de> for DataVisitor {
    type Value = Data;

    fn expecting(&self, f: &mut std::fmt::Formatter) -> std::fmt::Result {
        f.write_str("struct Data")
    }

    fn visit_map<A: serde::de::MapAccess<'de>>(self, mut map: A) -> Result<Data, A::Error> {
        let mut string: Option<String> = None;
        let mut integer: Option<i32> = None;
        let mut array: Option<Vec<i32>> = None;
        let mut boolean: Option<bool> = None;
        while let Some(key) = map.next_key::<String>()? {
            match key.as_str() {
                "string" => string = Some(map.next_value()?),
                "integer" => integer = Some(map.next_value()?),
                "array" => array = Some(map.next_value()?),
                "boolean" => boolean = Some(map.next_value()?),
                _ => {
                    let _: serde::de::IgnoredAny = map.next_value()?;
                }
            }
        }
        Ok(Data {
            string: string.ok_or_else(|| serde::de::Error::missing_field("string"))?,
            integer: integer.ok_or_else(|| serde::de::Error::missing_field("integer"))?,
            array: array.ok_or_else(|| serde::de::Error::missing_field("array"))?,
            boolean: boolean.ok_or_else(|| serde::de::Error::missing_field("boolean"))?,
        })
    }
}

impl<'de> serde::Deserialize<'de> for Data {
    fn deserialize<D: serde::Deserializer<'de>>(deserializer: D) -> Result<Data, D::Error> {
        deserializer.deserialize_struct(
            "Data",
            &["string", "integer", "array", "boolean"],
            DataVisitor,
        )
    }
}

impl bincode::Encode for Data {
    fn encode<E: bincode::enc::Encoder>(
        &self,
        encoder: &mut E,
    ) -> Result<(), bincode::error::EncodeError> {
        self.string.encode(encoder)?;
        self.integer.encode(encoder)?;
        self.array.encode(encoder)?;
        self.boolean.encode(encoder)
    }
}

impl<Context> bincode::Decode<Context> for Data {
    fn decode<D: bincode::de::Decoder<Context = Context>>(
        decoder: &mut D,
    ) -> Result<Self, bincode::error::DecodeError> {
        Ok(Data {
            string: bincode::Decode::decode(decoder)?,
            integer: bincode::Decode::decode(decoder)?,
            array: bincode::Decode::decode(decoder)?,
            boolean: bincode::Decode::decode(decoder)?,
        })
    }
}

#[derive(Default)]
struct DataEncoder {
    string: <String as bitcode::Encode>::Encoder,
    integer: <i32 as bitcode::Encode>::Encoder,
    array: <Vec<i32> as bitcode::Encode>::Encoder,
    boolean: <bool as bitcode::Encode>::Encoder,
}

impl bitcode::__private::Buffer for DataEncoder {
    fn collect_into(&mut self, out: &mut Vec<u8>) {
        self.string.collect_into(out);
        self.integer.collect_into(out);
        self.array.collect_into(out);
        self.boolean.collect_into(out);
    }

    fn reserve(&mut self, additional: std::num::NonZeroUsize) {
        self.string.reserve(additional);
        self.integer.reserve(additional);
        self.array.reserve(additional);
        self.boolean.reserve(additional);
    }
}

impl bitcode::__private::Encoder<Data> for DataEncoder {
    fn encode(&mut self, t: &Data) {
        self.string.encode(&t.string);
        self.integer.encode(&t.integer);
        self.array.encode(&t.array);
        self.boolean.encode(&t.boolean);
    }
}

impl bitcode::Encode for Data {
    type Encoder = DataEncoder;
}

#[derive(Default)]
struct DataDecoder<'a> {
    string: <String as bitcode::Decode<'a>>::Decoder,
    integer: <i32 as bitcode::Decode<'a>>::Decoder,
    array: <Vec<i32> as bitcode::Decode<'a>>::Decoder,
    boolean: <bool as bitcode::Decode<'a>>::Decoder,
}

impl<'a> bitcode::__private::View<'a> for DataDecoder<'a> {
    fn populate(&mut self, input: &mut &'a [u8], length: usize) -> Result<(), bitcode::Error> {
        self.string.populate(input, length)?;
        self.integer.populate(input, length)?;
        self.array.populate(input, length)?;
        self.boolean.populate(input, length)
    }
}

impl<'a> bitcode::__private::Decoder<'a, Data> for DataDecoder<'a> {
    fn decode(&mut self) -> Data {
        Data {
            string: self.string.decode(),
            integer: self.integer.decode(),
            array: self.array.decode(),
            boolean: self.boolean.decode(),
        }
    }
}

impl<'a> bitcode::Decode<'a> for Data {
    type Decoder = DataDecoder<'a>;
}

fn data() -> Data {
    Data {
        string: "hello".into(),
        integer: 42,
        array: vec![1, 2, 3],
        boolean: true,
    }
}

#[test]
fn test_msgpack_roundtrip() {
    let data = data();
    let encoded = Codec(&data).to_msgpack().unwrap();

    let Codec(decoded) = Codec::<Data>::from_msgpack(&encoded).unwrap();

    assert_eq!(decoded, data);
}

#[test]
fn test_json_roundtrip() {
    let data = data();
    let encoded = Codec(&data).to_json().unwrap();

    let Codec(decoded) = Codec::<Data>::from_json(&encoded).unwrap();

    assert_eq!(decoded, data);
}

#[test]
fn test_cbor_roundtrip() {
    let data = data();
    let encoded = Codec(&data).to_cbor().unwrap();

    let Codec(decoded) = Codec::<Data>::from_cbor(&encoded).unwrap();

    assert_eq!(decoded, data);
}

#[test]
fn test_yaml_roundtrip() {
    let data = data();
    let encoded = Codec(&data).to_yaml().unwrap();

    let Codec(decoded) = Codec::<Data>::from_yaml(&encoded).unwrap();

    assert_eq!(decoded, data);
}

#[test]
fn test_toml_roundtrip() {
    let data = data();
    let encoded = Codec(&data).to_toml().unwrap();

    let Codec(decoded) = Codec::<Data>::from_toml(&encoded).unwrap();

    assert_eq!(decoded, data);
}

#[test]
fn test_bincode_roundtrip() {
    let data = data();
    let encoded = Codec(&data).to_bincode().unwrap();

    let Codec(decoded) = Codec::<Data>::from_bincode(&encoded).unwrap();

    assert_eq!(decoded, data);
}

#[test]
fn test_bitcode_roundtrip() {
    let encoded = Codec(data()).to_bitcode();

    let Codec(decoded) = Codec::<Data>::from_bitcode(&encoded).unwrap();

    assert_eq!(decoded, data());
}
