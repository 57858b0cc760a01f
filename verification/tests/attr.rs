//! The attribute model: option parsing and the derive lines it expands to.

use axum_codec::apply::ArgListShape;
use axum_codec::apply::ArgShape;
use axum_codec::apply::Args;
use axum_codec::apply::ArgsError;
use axum_codec::apply::AttrMeta;
use axum_codec::apply::AttrValue;
use axum_codec::apply::Features;
use axum_codec::apply::SegmentShape;
use axum_codec::apply::TypeShape;
use axum_codec::apply::apply;
use axum_codec::apply::decode_trait;
use axum_codec::apply::encode_trait;
use axum_codec::apply::infer_state_types;
use axum_codec::apply::second;

fn all_features() -> Features {
    Features { serde: true, bincode: true, bitcode: true, aide: true, validator: true }
}

fn no_features() -> Features {
    Features { serde: false, bincode: false, bitcode: false, aide: false, validator: false }
}

fn flag(name: &str) -> AttrMeta {
    AttrMeta::Flag(Some(name.to_owned()))
}

#[test]
fn parse_reads_the_flags() {
    let args = Args::parse(&vec![flag("encode"), flag("decode")]).unwrap();
    assert!(args.encode);
    assert!(args.decode);
    assert_eq!(args.crate_name, "axum_codec");
    assert!(!args.crate_absolute);

    let args = Args::parse(&vec![flag("decode")]).unwrap();
    assert!(!args.encode);
    assert!(args.decode);
}

#[test]
fn parse_requires_a_direction() {
    assert!(matches!(Args::parse(&vec![]), Err(ArgsError::MissingCodec)));
    let metas = vec![AttrMeta::Assign(
        Some("crate".to_owned()),
        AttrValue::Str("other".to_owned()),
    )];
    assert!(matches!(Args::parse(&metas), Err(ArgsError::MissingCodec)));
}

#[test]
fn parse_rejects_duplicate_options() {
    let r = Args::parse(&vec![flag("encode"), flag("encode")]);
    assert!(matches!(r, Err(ArgsError::DuplicateEncode)));
    let r = Args::parse(&vec![flag("decode"), flag("decode")]);
    assert!(matches!(r, Err(ArgsError::DuplicateDecode)));
}

#[test]
fn parse_rejects_unknown_options() {
    let r = Args::parse(&vec![flag("encrypt")]);
    match r {
        Err(ArgsError::UnknownOption(name)) => assert_eq!(name, "encrypt"),
        other => panic!("expected an unknown-option error, got {other:?}"),
    }
}

#[test]
fn parse_rejects_malformed_arguments() {
    assert!(matches!(Args::parse(&vec![AttrMeta::List]), Err(ArgsError::UnexpectedList)));
    assert!(matches!(Args::parse(&vec![AttrMeta::Flag(None)]), Err(ArgsError::ExpectedOption)));
    let r = Args::parse(&vec![AttrMeta::Assign(Some("krate".to_owned()), AttrValue::NotLit)]);
    assert!(matches!(r, Err(ArgsError::ExpectedCrate)));
    let r = Args::parse(&vec![AttrMeta::Assign(None, AttrValue::NotLit)]);
    assert!(matches!(r, Err(ArgsError::ExpectedCrate)));
    let r = Args::parse(&vec![AttrMeta::Assign(Some("crate".to_owned()), AttrValue::OtherLit)]);
    assert!(matches!(r, Err(ArgsError::ExpectedString)));
    let r = Args::parse(&vec![AttrMeta::Assign(Some("crate".to_owned()), AttrValue::NotLit)]);
    assert!(matches!(r, Err(ArgsError::ExpectedLiteralString)));
}

#[test]
fn parse_normalizes_the_crate_path() {
    let metas = vec![
        flag("encode"),
        AttrMeta::Assign(Some("crate".to_owned()), AttrValue::Str("my_crate".to_owned())),
    ];
    let args = Args::parse(&metas).unwrap();
    assert_eq!(args.crate_name, "my_crate");
    assert!(args.crate_absolute);

    let metas = vec![
        flag("encode"),
        AttrMeta::Assign(Some("crate".to_owned()), AttrValue::Str("crate".to_owned())),
    ];
    let args = Args::parse(&metas).unwrap();
    assert_eq!(args.crate_name, "crate");
    assert!(!args.crate_absolute);
}

#[test]
fn apply_emits_every_enabled_derive() {
    let args = Args::parse(&vec![flag("encode"), flag("decode")]).unwrap();
    let lines = apply(&args, &all_features());
    assert_eq!(lines, vec![
        "#[derive(axum_codec::__private::serde::Serialize)]".to_owned(),
        "#[derive(axum_codec::__private::serde::Deserialize)]".to_owned(),
        "#[serde(crate = \"axum_codec::__private::serde\")]".to_owned(),
        "#[derive(axum_codec::__private::bincode::Encode)]".to_owned(),
        "#[derive(axum_codec::__private::bincode::Decode)]".to_owned(),
        "#[bincode(crate = \"axum_codec::__private::bincode\")]".to_owned(),
        "#[derive(axum_codec::__private::bitcode::Encode)]".to_owned(),
        "#[derive(axum_codec::__private::bitcode::Decode)]".to_owned(),
        "#[bitcode(crate = \"axum_codec::__private::bitcode\")]".to_owned(),
        "#[derive(axum_codec::__private::schemars::JsonSchema)]".to_owned(),
        "#[schemars(crate = \"axum_codec::__private::schemars\")]".to_owned(),
        "#[derive(validator::Validate)]".to_owned(),
    ]);
}

#[test]
fn apply_skips_the_disabled_directions() {
    let args = Args::parse(&vec![flag("encode")]).unwrap();
    let features = Features { serde: true, bincode: false, bitcode: false, aide: false, validator: true };
    let lines = apply(&args, &features);
    assert_eq!(lines, vec![
        "#[derive(axum_codec::__private::serde::Serialize)]".to_owned(),
        "#[serde(crate = \"axum_codec::__private::serde\")]".to_owned(),
    ]);
}

#[test]
fn apply_names_the_chosen_crate() {
    let metas = vec![
        flag("decode"),
        AttrMeta::Assign(Some("crate".to_owned()), AttrValue::Str("my_crate".to_owned())),
    ];
    let args = Args::parse(&metas).unwrap();
    let features = Features { serde: true, bincode: false, bitcode: false, aide: false, validator: false };
    let lines = apply(&args, &features);
    assert_eq!(lines, vec![
        "#[derive(::my_crate::__private::serde::Deserialize)]".to_owned(),
        "#[serde(crate = \"::my_crate::__private::serde\")]".to_owned(),
    ]);
}

#[test]
fn decode_trait_lists_every_enabled_bound() {
    assert_eq!(
        decode_trait(&all_features()),
        "pub trait CodecDecode: serde::de::DeserializeOwned + bincode::Decode + \
         bitcode::DecodeOwned + validator::Validate {}\n\
         impl<T> CodecDecode for T where T: serde::de::DeserializeOwned + bincode::Decode + \
         bitcode::DecodeOwned + validator::Validate {}\n"
    );
    assert_eq!(decode_trait(&no_features()), "pub trait CodecDecode {}\nimpl<T> CodecDecode for T {}\n");
}

#[test]
fn encode_trait_lists_every_enabled_bound() {
    assert_eq!(
        encode_trait(&all_features()),
        "pub trait CodecEncode: serde::Serialize + bincode::Encode + bitcode::Encode {}\n\
         impl<T> CodecEncode for T where T: serde::Serialize + bincode::Encode + \
         bitcode::Encode {}\n"
    );
    assert_eq!(encode_trait(&no_features()), "pub trait CodecEncode {}\nimpl<T> CodecEncode for T {}\n");
}

#[test]
fn second_returns_the_second_component() {
    assert_eq!(second((1, 2)), 2);
    assert_eq!(second(("key", "value")), "value");
}

#[test]
fn infer_state_types_picks_single_argument_state_paths() {
    let types = vec![
        TypeShape::NotPath,
        TypeShape::Path(Some(SegmentShape {
            ident: "State".to_owned(),
            args: ArgListShape::Angle(vec![ArgShape::TypeArg]),
        })),
        TypeShape::Path(Some(SegmentShape {
            ident: "Json".to_owned(),
            args: ArgListShape::Angle(vec![ArgShape::TypeArg]),
        })),
        TypeShape::Path(Some(SegmentShape {
            ident: "State".to_owned(),
            args: ArgListShape::Angle(vec![ArgShape::TypeArg, ArgShape::TypeArg]),
        })),
        TypeShape::Path(Some(SegmentShape {
            ident: "State".to_owned(),
            args: ArgListShape::Absent,
        })),
        TypeShape::Path(None),
        TypeShape::Path(Some(SegmentShape {
            ident: "State".to_owned(),
            args: ArgListShape::Angle(vec![ArgShape::OtherArg]),
        })),
        TypeShape::Path(Some(SegmentShape {
            ident: "State".to_owned(),
            args: ArgListShape::Paren,
        })),
    ];
    assert_eq!(infer_state_types(&types), vec![1]);
}
