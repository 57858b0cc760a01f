//! The decisions behind the attribute that equips a type with codec support:
//! which options the attribute accepts, and which derive attributes it puts
//! before the item for a given set of enabled integrations.
//!
//! The host's attribute syntax is read at the edge into the plain shapes
//! below; everything from there on is ordinary logic.

use crate::content::str_eq;
use vstd::prelude::*;
use vstd::string::StringExecFns;

verus! {

/// The optional integrations the expansion can be built with.
#[derive(Clone, Copy, PartialEq, Eq, Structural, Debug)]
pub struct Features {
    pub serde: bool,
    pub bincode: bool,
    pub bitcode: bool,
    pub aide: bool,
    pub validator: bool,
}

/// The value of a `name = value` attribute argument, as far as the options
/// read it.
#[derive(Debug, Clone, PartialEq, Eq)]
pub enum AttrValue {
    /// A literal string and its text.
    Str(String),
    /// A literal of some other kind.
    OtherLit,
    /// Not a literal at all.
    NotLit,
}

/// One argument of the attribute.
#[derive(Debug, Clone, PartialEq, Eq)]
pub enum AttrMeta {
    /// A bare path: its identifier, or nothing when the path is not a plain
    /// identifier.
    Flag(Option<String>),
    /// A `name = value` pair: the name when it is a plain identifier, and the
    /// value.
    Assign(Option<String>, AttrValue),
    /// A parenthesised list.
    List,
}

/// The parsed options of the attribute.
#[derive(Debug, Clone, PartialEq, Eq)]
pub struct Args {
    /// Whether encoding support is asked for.
    pub encode: bool,
    /// Whether decoding support is asked for.
    pub decode: bool,
    /// The path text of the crate the emitted attributes name.
    pub crate_name: String,
    /// Whether the emitted path gets a leading `::`.
    pub crate_absolute: bool,
}

/// The mathematical value of [`Args`].
pub struct SpecArgs {
    pub encode: bool,
    pub decode: bool,
    pub crate_name: Seq<char>,
    pub crate_absolute: bool,
}

impl View for Args {
    type V = SpecArgs;

    open spec fn view(&self) -> SpecArgs {
        SpecArgs {
            encode: self.encode,
            decode: self.decode,
            crate_name: self.crate_name@,
            crate_absolute: self.crate_absolute,
        }
    }
}

/// Ways parsing the attribute's arguments can fail.
#[derive(Debug, Clone, PartialEq, Eq)]
pub enum ArgsError {
    /// A parenthesised list stood where an option was expected.
    UnexpectedList,
    /// The `encode` option was given twice.
    DuplicateEncode,
    /// The `decode` option was given twice.
    DuplicateDecode,
    /// An unknown option was given; its name is carried along.
    UnknownOption(String),
    /// A path that is not a plain identifier stood where an option was
    /// expected.
    ExpectedOption,
    /// Something other than `crate` was assigned to.
    ExpectedCrate,
    /// The value assigned to `crate` was a literal of another kind.
    ExpectedString,
    /// The value assigned to `crate` was not a literal.
    ExpectedLiteralString,
    /// Neither `encode` nor `decode` was enabled.
    MissingCodec,
}

/// The mathematical value of [`ArgsError`].
pub enum SpecArgsError {
    UnexpectedList,
    DuplicateEncode,
    DuplicateDecode,
    UnknownOption(Seq<char>),
    ExpectedOption,
    ExpectedCrate,
    ExpectedString,
    ExpectedLiteralString,
    MissingCodec,
}

impl View for ArgsError {
    type V = SpecArgsError;

    open spec fn view(&self) -> SpecArgsError {
        match self {
            ArgsError::UnexpectedList => SpecArgsError::UnexpectedList,
            ArgsError::DuplicateEncode => SpecArgsError::DuplicateEncode,
            ArgsError::DuplicateDecode => SpecArgsError::DuplicateDecode,
            ArgsError::UnknownOption(id) => SpecArgsError::UnknownOption(id@),
            ArgsError::ExpectedOption => SpecArgsError::ExpectedOption,
            ArgsError::ExpectedCrate => SpecArgsError::ExpectedCrate,
            ArgsError::ExpectedString => SpecArgsError::ExpectedString,
            ArgsError::ExpectedLiteralString => SpecArgsError::ExpectedLiteralString,
            ArgsError::MissingCodec => SpecArgsError::MissingCodec,
        }
    }
}

impl ArgsError {
    /// The message the attribute reports for the error.
    pub open spec fn spec_message(self) -> Seq<char> {
        match self {
            ArgsError::UnexpectedList => "expected `encode`, `decode`, or `crate`"@,
            ArgsError::DuplicateEncode => "option `encode` is already enabled"@,
            ArgsError::DuplicateDecode => "option `decode` is already enabled"@,
            ArgsError::UnknownOption(o) => "unknown option `"@ + o@
                + "`, expected `encode` or `decode`"@,
            ArgsError::ExpectedOption => "expected `encode` or `decode`"@,
            ArgsError::ExpectedCrate => "expected `crate`"@,
            ArgsError::ExpectedString => "expected a string"@,
            ArgsError::ExpectedLiteralString => "expected a literal string"@,
            ArgsError::MissingCodec => "at least one of `encode` or `decode` must be enabled"@,
        }
    }

    /// Renders the message the attribute reports for the error.
    pub fn message(&self) -> (r: String)
        ensures
            r@ == self.spec_message(),
    {
        match self {
            ArgsError::UnexpectedList => String::from_str("expected `encode`, `decode`, or `crate`"),
            ArgsError::DuplicateEncode => String::from_str("option `encode` is already enabled"),
            ArgsError::DuplicateDecode => String::from_str("option `decode` is already enabled"),
            ArgsError::UnknownOption(o) => {
                let mut s = String::from_str("unknown option `");
                s.append(o.as_str());
                s.append("`, expected `encode` or `decode`");
                s
            },
            ArgsError::ExpectedOption => String::from_str("expected `encode` or `decode`"),
            ArgsError::ExpectedCrate => String::from_str("expected `crate`"),
            ArgsError::ExpectedString => String::from_str("expected a string"),
            ArgsError::ExpectedLiteralString => String::from_str("expected a literal string"),
            ArgsError::MissingCodec => String::from_str(
                "at least one of `encode` or `decode` must be enabled",
            ),
        }
    }
}

/// The options before any argument is read: nothing enabled, and the emitted
/// path naming this crate.
pub open spec fn default_spec_args() -> SpecArgs {
    SpecArgs { encode: false, decode: false, crate_name: "axum_codec"@, crate_absolute: false }
}

/// How one argument changes the options read so far.
pub open spec fn spec_parse_step(st: SpecArgs, m: AttrMeta) -> Result<SpecArgs, SpecArgsError> {
    match m {
        AttrMeta::List => Err(SpecArgsError::UnexpectedList),
        AttrMeta::Flag(opt) => match opt {
            None => Err(SpecArgsError::ExpectedOption),
            Some(id) => if id@ == "encode"@ {
                if st.encode {
                    Err(SpecArgsError::DuplicateEncode)
                } else {
                    Ok(SpecArgs { encode: true, ..st })
                }
            } else if id@ == "decode"@ {
                if st.decode {
                    Err(SpecArgsError::DuplicateDecode)
                } else {
                    Ok(SpecArgs { decode: true, ..st })
                }
            } else {
                Err(SpecArgsError::UnknownOption(id@))
            },
        },
        AttrMeta::Assign(name, value) => match name {
            None => Err(SpecArgsError::ExpectedCrate),
            Some(id) => if id@ == "crate"@ {
                match value {
                    AttrValue::Str(path) => Ok(
                        SpecArgs { crate_name: path@, crate_absolute: !(path@ == "crate"@), ..st },
                    ),
                    AttrValue::OtherLit => Err(SpecArgsError::ExpectedString),
                    AttrValue::NotLit => Err(SpecArgsError::ExpectedLiteralString),
                }
            } else {
                Err(SpecArgsError::ExpectedCrate)
            },
        },
    }
}

/// Folds `spec_parse_step` over the arguments from the given options on.
pub open spec fn spec_parse_from(st: SpecArgs, metas: Seq<AttrMeta>) -> Result<
    SpecArgs,
    SpecArgsError,
>
    decreases metas.len(),
{
    if metas.len() == 0 {
        Ok(st)
    } else {
        match spec_parse_step(st, metas[0]) {
            Ok(st2) => spec_parse_from(st2, metas.drop_first()),
            Err(e) => Err(e),
        }
    }
}

/// What parsing the attribute's arguments yields: the first error, or the
/// options read, which must enable at least one of `encode` and `decode`.
pub open spec fn spec_parse(metas: Seq<AttrMeta>) -> Result<SpecArgs, SpecArgsError> {
    match spec_parse_from(default_spec_args(), metas) {
        Ok(sa) => if !sa.encode && !sa.decode {
            Err(SpecArgsError::MissingCodec)
        } else {
            Ok(sa)
        },
        Err(e) => Err(e),
    }
}

/// Folding over two runs of arguments one after the other reads them all.
proof fn lemma_parse_from_concat(st: SpecArgs, a: Seq<AttrMeta>, b: Seq<AttrMeta>)
    ensures
        spec_parse_from(st, a + b) == (match spec_parse_from(st, a) {
            Ok(m) => spec_parse_from(m, b),
            Err(e) => Err(e),
        }),
    decreases a.len(),
{
    if a.len() == 0 {
        assert(a + b =~= b);
    } else {
        assert((a + b)[0] == a[0]);
        assert((a + b).drop_first() =~= a.drop_first() + b);
        match spec_parse_step(st, a[0]) {
            Ok(st2) => {
                lemma_parse_from_concat(st2, a.drop_first(), b);
            },
            Err(_) => {},
        }
    }
}

impl Args {
    /// Reads the attribute's arguments.
    ///
    /// `encode` and `decode` each enable one direction and may be given once;
    /// `crate = "..."` names the crate the emitted attributes speak of, with
    /// any path but `crate` itself made absolute.
    pub fn parse(metas: &Vec<AttrMeta>) -> (r: Result<Args, ArgsError>)
        ensures
            match spec_parse(metas@) {
                Ok(sa) => r matches Ok(a) && a@ == sa,
                Err(e) => r matches Err(a) && a@ == e,
            },
    {
        let mut encode = false;
        let mut decode = false;
        let mut crate_name: String = String::from_str("axum_codec");
        let mut crate_absolute = false;
        let mut i: usize = 0;
        while i < metas.len()
            invariant
                0 <= i <= metas@.len(),
                spec_parse_from(default_spec_args(), metas@.take(i as int)) == Ok::<
                    SpecArgs,
                    SpecArgsError,
                >(
                    SpecArgs {
                        encode: encode,
                        decode: decode,
                        crate_name: crate_name@,
                        crate_absolute: crate_absolute,
                    },
                ),
            decreases metas@.len() - i,
        {
            let ghost st = SpecArgs {
                encode: encode,
                decode: decode,
                crate_name: crate_name@,
                crate_absolute: crate_absolute,
            };
            proof {
                reveal_with_fuel(spec_parse_from, 2);
                lemma_parse_from_concat(
                    default_spec_args(),
                    metas@.take(i as int),
                    seq![metas@[i as int]],
                );
                assert(metas@.take(i as int) + seq![metas@[i as int]] =~= metas@.take(i as int + 1));
                assert(seq![metas@[i as int]].drop_first() =~= Seq::<AttrMeta>::empty());
            }
            let mut step_error: Option<ArgsError> = None;
            match &metas[i] {
                AttrMeta::List => {
                    step_error = Some(ArgsError::UnexpectedList);
                },
                AttrMeta::Flag(opt) => match opt {
                    None => {
                        step_error = Some(ArgsError::ExpectedOption);
                    },
                    Some(id) => {
                        if str_eq(id.as_str(), "encode") {
                            if encode {
                                step_error = Some(ArgsError::DuplicateEncode);
                            } else {
                                encode = true;
                            }
                        } else if str_eq(id.as_str(), "decode") {
                            if decode {
                                step_error = Some(ArgsError::DuplicateDecode);
                            } else {
                                decode = true;
                            }
                        } else {
                            step_error = Some(ArgsError::UnknownOption(id.clone()));
                        }
                    },
                },
                AttrMeta::Assign(name, value) => {
                    let is_crate = match name {
                        Some(id) => str_eq(id.as_str(), "crate"),
                        None => false,
                    };
                    if !is_crate {
                        step_error = Some(ArgsError::ExpectedCrate);
                    } else {
                        match value {
                            AttrValue::Str(path) => {
                                crate_absolute = !str_eq(path.as_str(), "crate");
                                crate_name = path.clone();
                            },
                            AttrValue::OtherLit => {
                                step_error = Some(ArgsError::ExpectedString);
                            },
                            AttrValue::NotLit => {
                                step_error = Some(ArgsError::ExpectedLiteralString);
                            },
                        }
                    }
                },
            }
            match step_error {
                Some(e) => {
                    proof {
                        assert(spec_parse_step(st, metas@[i as int]) == Err::<
                            SpecArgs,
                            SpecArgsError,
                        >(e@));
                        assert(metas@.take(i as int) + metas@.skip(i as int) =~= metas@);
                        lemma_parse_from_concat(
                            default_spec_args(),
                            metas@.take(i as int),
                            metas@.skip(i as int),
                        );
                        assert(metas@.skip(i as int)[0] == metas@[i as int]);
                    }
                    return Err(e);
                },
                None => {},
            }
            i += 1;
        }
        proof {
            assert(metas@.take(metas@.len() as int) =~= metas@);
        }
        if !encode && !decode {
            return Err(ArgsError::MissingCodec);
        }
        Ok(Args { encode, decode, crate_name, crate_absolute })
    }
}

/// The views of a list of owned strings.
pub open spec fn lines_view(v: Seq<String>) -> Seq<Seq<char>> {
    v.map_values(|s: String| s@)
}

/// The views of a list of string slices.
pub open spec fn strs_view(v: Seq<&'static str>) -> Seq<Seq<char>> {
    v.map_values(|s: &'static str| s@)
}

/// The path text the emitted attributes name the crate by.
pub open spec fn spec_effective_path(a: SpecArgs) -> Seq<char> {
    if a.crate_absolute {
        "::"@ + a.crate_name
    } else {
        a.crate_name
    }
}

/// The attribute lines the serde integration contributes.
pub open spec fn spec_serde_lines(a: SpecArgs, f: Features, p: Seq<char>) -> Seq<Seq<char>> {
    if f.serde {
        (if a.encode {
            seq!["#[derive("@ + p + "::__private::serde::Serialize)]"@]
        } else {
            Seq::empty()
        }) + (if a.decode {
            seq!["#[derive("@ + p + "::__private::serde::Deserialize)]"@]
        } else {
            Seq::empty()
        }) + seq!["#[serde(crate = \""@ + p + "::__private::serde\")]"@]
    } else {
        Seq::empty()
    }
}

/// The attribute lines the bincode integration contributes.
pub open spec fn spec_bincode_lines(a: SpecArgs, f: Features, p: Seq<char>) -> Seq<Seq<char>> {
    if f.bincode {
        (if a.encode {
            seq!["#[derive("@ + p + "::__private::bincode::Encode)]"@]
        } else {
            Seq::empty()
        }) + (if a.decode {
            seq!["#[derive("@ + p + "::__private::bincode::Decode)]"@]
        } else {
            Seq::empty()
        }) + seq!["#[bincode(crate = \""@ + p + "::__private::bincode\")]"@]
    } else {
        Seq::empty()
    }
}

/// The attribute lines the bitcode integration contributes.
pub open spec fn spec_bitcode_lines(a: SpecArgs, f: Features, p: Seq<char>) -> Seq<Seq<char>> {
    if f.bitcode {
        (if a.encode {
            seq!["#[derive("@ + p + "::__private::bitcode::Encode)]"@]
        } else {
            Seq::empty()
        }) + (if a.decode {
            seq!["#[derive("@ + p + "::__private::bitcode::Decode)]"@]
        } else {
            Seq::empty()
        }) + seq!["#[bitcode(crate = \""@ + p + "::__private::bitcode\")]"@]
    } else {
        Seq::empty()
    }
}

/// The attribute lines the schema integration contributes.
pub open spec fn spec_aide_lines(f: Features, p: Seq<char>) -> Seq<Seq<char>> {
    if f.aide {
        seq![
            "#[derive("@ + p + "::__private::schemars::JsonSchema)]"@,
            "#[schemars(crate = \""@ + p + "::__private::schemars\")]"@,
        ]
    } else {
        Seq::empty()
    }
}

/// The attribute lines the validator integration contributes.
pub open spec fn spec_validator_lines(a: SpecArgs, f: Features) -> Seq<Seq<char>> {
    if f.validator && a.decode {
        seq!["#[derive(validator::Validate)]"@]
    } else {
        Seq::empty()
    }
}

/// Every attribute line `apply` puts before the item, in order.
pub open spec fn spec_derive_lines(a: SpecArgs, f: Features) -> Seq<Seq<char>> {
    let p = spec_effective_path(a);
    spec_serde_lines(a, f, p) + spec_bincode_lines(a, f, p) + spec_bitcode_lines(a, f, p)
        + spec_aide_lines(f, p) + spec_validator_lines(a, f)
}

/// Builds the path text the emitted attributes name the crate by.
fn effective_path(args: &Args) -> (r: String)
    ensures
        r@ == spec_effective_path(args@),
{
    if args.crate_absolute {
        let mut s = String::from_str("::");
        s.append(args.crate_name.as_str());
        s
    } else {
        args.crate_name.clone()
    }
}

/// Builds one attribute line around the crate path.
fn attr_line(head: &'static str, path: &str, tail: &'static str) -> (r: String)
    ensures
        r@ == head@ + path@ + tail@,
{
    let mut s = String::from_str(head);
    s.append(path);
    s.append(tail);
    s
}

/// The derive and helper attributes that equip an item with the codec support
/// the parsed options ask for, under the given integrations, in order.
#[verifier::rlimit(60)]
pub fn apply(args: &Args, features: &Features) -> (r: Vec<String>)
    ensures
        lines_view(r@) == spec_derive_lines(args@, *features),
{
    let path = effective_path(args);
    let p: &str = path.as_str();
    let ghost pv = spec_effective_path(args@);
    let mut lines: Vec<String> = Vec::new();
    if features.serde {
        if args.encode {
            lines.push(attr_line("#[derive(", p, "::__private::serde::Serialize)]"));
        }
        if args.decode {
            lines.push(attr_line("#[derive(", p, "::__private::serde::Deserialize)]"));
        }
        lines.push(attr_line("#[serde(crate = \"", p, "::__private::serde\")]"));
    }
    proof {
        assert(lines_view(lines@) =~= spec_serde_lines(args@, *features, pv));
    }
    if features.bincode {
        if args.encode {
            lines.push(attr_line("#[derive(", p, "::__private::bincode::Encode)]"));
        }
        if args.decode {
            lines.push(attr_line("#[derive(", p, "::__private::bincode::Decode)]"));
        }
        lines.push(attr_line("#[bincode(crate = \"", p, "::__private::bincode\")]"));
    }
    proof {
        assert(lines_view(lines@) =~= spec_serde_lines(args@, *features, pv) + spec_bincode_lines(
            args@,
            *features,
            pv,
        ));
    }
    if features.bitcode {
        if args.encode {
            lines.push(attr_line("#[derive(", p, "::__private::bitcode::Encode)]"));
        }
        if args.decode {
            lines.push(attr_line("#[derive(", p, "::__private::bitcode::Decode)]"));
        }
        lines.push(attr_line("#[bitcode(crate = \"", p, "::__private::bitcode\")]"));
    }
    proof {
        assert(lines_view(lines@) =~= spec_serde_lines(args@, *features, pv) + spec_bincode_lines(
            args@,
            *features,
            pv,
        ) + spec_bitcode_lines(args@, *features, pv));
    }
    if features.aide {
        lines.push(attr_line("#[derive(", p, "::__private::schemars::JsonSchema)]"));
        lines.push(attr_line("#[schemars(crate = \"", p, "::__private::schemars\")]"));
    }
    proof {
        assert(lines_view(lines@) =~= spec_serde_lines(args@, *features, pv) + spec_bincode_lines(
            args@,
            *features,
            pv,
        ) + spec_bitcode_lines(args@, *features, pv) + spec_aide_lines(*features, pv));
    }
    if features.validator && args.decode {
        lines.push(String::from_str("#[derive(validator::Validate)]"));
    }
    proof {
        assert(lines_view(lines@) =~= spec_derive_lines(args@, *features));
    }
    lines
}

/// The bounds a type must meet to be decodable, one per enabled integration
/// that constrains decoding.
pub open spec fn spec_decode_constraints(f: Features) -> Seq<Seq<char>> {
    (if f.serde {
        seq!["serde::de::DeserializeOwned"@]
    } else {
        Seq::empty()
    }) + (if f.bincode {
        seq!["bincode::Decode"@]
    } else {
        Seq::empty()
    }) + (if f.bitcode {
        seq!["bitcode::DecodeOwned"@]
    } else {
        Seq::empty()
    }) + (if f.validator {
        seq!["validator::Validate"@]
    } else {
        Seq::empty()
    })
}

/// The bounds a type must meet to be encodable, one per enabled integration
/// that constrains encoding.
pub open spec fn spec_encode_constraints(f: Features) -> Seq<Seq<char>> {
    (if f.serde {
        seq!["serde::Serialize"@]
    } else {
        Seq::empty()
    }) + (if f.bincode {
        seq!["bincode::Encode"@]
    } else {
        Seq::empty()
    }) + (if f.bitcode {
        seq!["bitcode::Encode"@]
    } else {
        Seq::empty()
    })
}

/// Whether any integration is enabled: only then do the capability traits get
/// a bound list at all.
pub open spec fn spec_any_integration(f: Features) -> bool {
    f.serde || f.bincode || f.bitcode || f.aide || f.validator
}

/// The given parts joined with ` + `.
pub open spec fn spec_joined(parts: Seq<Seq<char>>) -> Seq<char>
    decreases parts.len(),
{
    if parts.len() == 0 {
        Seq::empty()
    } else if parts.len() == 1 {
        parts[0]
    } else {
        spec_joined(parts.drop_last()) + " + "@ + parts.last()
    }
}

/// The text of one capability trait: its definition, with the bound list when
/// any integration is enabled, and its blanket impl.
pub open spec fn spec_trait_text(name: Seq<char>, constraints: Seq<Seq<char>>, bounded: bool) -> Seq<
    char,
> {
    "pub trait "@ + name + (if bounded {
        ": "@ + spec_joined(constraints)
    } else {
        Seq::empty()
    }) + " {}\n"@ + "impl<T> "@ + name + " for T"@ + (if bounded {
        " where T: "@ + spec_joined(constraints)
    } else {
        Seq::empty()
    }) + " {}\n"@
}

/// Joins the given parts with ` + `.
fn join_plus(parts: &Vec<&'static str>) -> (r: String)
    ensures
        r@ == spec_joined(strs_view(parts@)),
{
    let mut s = String::new();
    let mut i: usize = 0;
    while i < parts.len()
        invariant
            0 <= i <= parts@.len(),
            s@ == spec_joined(strs_view(parts@).take(i as int)),
        decreases parts@.len() - i,
    {
        if i > 0 {
            s.append(" + ");
        }
        s.append(parts[i]);
        proof {
            assert(strs_view(parts@).take(i as int + 1).drop_last() =~= strs_view(parts@).take(
                i as int,
            ));
        }
        i += 1;
    }
    proof {
        assert(strs_view(parts@).take(parts@.len() as int) =~= strs_view(parts@));
    }
    s
}

/// Builds the text of one capability trait and its blanket impl.
fn trait_text(name: &'static str, constraints: &Vec<&'static str>, bounded: bool) -> (r: String)
    ensures
        r@ == spec_trait_text(name@, strs_view(constraints@), bounded),
{
    let joined = join_plus(constraints);
    let mut s = String::from_str("pub trait ");
    s.append(name);
    if bounded {
        s.append(": ");
        s.append(joined.as_str());
    }
    s.append(" {}\n");
    s.append("impl<T> ");
    s.append(name);
    s.append(" for T");
    if bounded {
        s.append(" where T: ");
        s.append(joined.as_str());
    }
    s.append(" {}\n");
    proof {
        assert(s@ =~= spec_trait_text(name@, strs_view(constraints@), bounded));
    }
    s
}

/// The bounds that constrain decoding, as path texts.
fn decode_constraints(features: &Features) -> (r: Vec<&'static str>)
    ensures
        strs_view(r@) == spec_decode_constraints(*features),
{
    let mut v: Vec<&'static str> = Vec::new();
    if features.serde {
        v.push("serde::de::DeserializeOwned");
    }
    if features.bincode {
        v.push("bincode::Decode");
    }
    if features.bitcode {
        v.push("bitcode::DecodeOwned");
    }
    if features.validator {
        v.push("validator::Validate");
    }
    proof {
        assert(strs_view(v@) =~= spec_decode_constraints(*features));
    }
    v
}

/// The bounds that constrain encoding, as path texts.
fn encode_constraints(features: &Features) -> (r: Vec<&'static str>)
    ensures
        strs_view(r@) == spec_encode_constraints(*features),
{
    let mut v: Vec<&'static str> = Vec::new();
    if features.serde {
        v.push("serde::Serialize");
    }
    if features.bincode {
        v.push("bincode::Encode");
    }
    if features.bitcode {
        v.push("bitcode::Encode");
    }
    proof {
        assert(strs_view(v@) =~= spec_encode_constraints(*features));
    }
    v
}

/// The text of the decode-capability trait for the given integrations: every
/// enabled integration further restricts what a type must implement.
pub fn decode_trait(features: &Features) -> (r: String)
    ensures
        r@ == spec_trait_text(
            "CodecDecode"@,
            spec_decode_constraints(*features),
            spec_any_integration(*features),
        ),
{
    let constraints = decode_constraints(features);
    let bounded = features.serde || features.bincode || features.bitcode || features.aide
        || features.validator;
    trait_text("CodecDecode", &constraints, bounded)
}

/// The text of the encode-capability trait for the given integrations: every
/// enabled integration further restricts what a type must implement.
pub fn encode_trait(features: &Features) -> (r: String)
    ensures
        r@ == spec_trait_text(
            "CodecEncode"@,
            spec_encode_constraints(*features),
            spec_any_integration(*features),
        ),
{
    let constraints = encode_constraints(features);
    let bounded = features.serde || features.bincode || features.bitcode || features.aide
        || features.validator;
    trait_text("CodecEncode", &constraints, bounded)
}

/// Returns the second component of a pair.
pub fn second<T, K>(tuple: (T, K)) -> (r: K)
    ensures
        r == tuple.1,
{
    tuple.1
}

/// One generic argument of a path segment, as far as state inference reads it.
#[derive(Clone, Copy, PartialEq, Eq, Structural, Debug)]
pub enum ArgShape {
    /// A type argument.
    TypeArg,
    /// An argument of another kind (a lifetime, a constant).
    OtherArg,
}

/// The generic arguments of a path type's last segment.
pub enum ArgListShape {
    /// No argument list.
    Absent,
    /// Angle-bracketed arguments.
    Angle(Vec<ArgShape>),
    /// Parenthesised arguments.
    Paren,
}

/// A path type's last segment: its identifier and its arguments.
pub struct SegmentShape {
    pub ident: String,
    pub args: ArgListShape,
}

/// The shape of one handler-argument type, as far as state inference reads it.
pub enum TypeShape {
    /// Not a path type.
    NotPath,
    /// A path type: its last segment, or nothing when the path has none.
    Path(Option<SegmentShape>),
}

/// Whether a type is a state extractor: a path whose last segment is `State`
/// with exactly one angle-bracketed type argument.
pub open spec fn spec_is_state(t: TypeShape) -> bool {
    match t {
        TypeShape::Path(seg) => match seg {
            Some(s) => s.ident@ == "State"@ && match s.args {
                ArgListShape::Angle(v) => v@.len() == 1 && v@[0] is TypeArg,
                _ => false,
            },
            None => false,
        },
        _ => false,
    }
}

/// The positions of the state extractors among the given types, in order.
pub open spec fn spec_state_positions(ts: Seq<TypeShape>) -> Seq<int>
    decreases ts.len(),
{
    if ts.len() == 0 {
        Seq::empty()
    } else {
        spec_state_positions(ts.drop_last()) + (if spec_is_state(ts.last()) {
            seq![ts.len() - 1]
        } else {
            Seq::empty()
        })
    }
}

/// Picks out the types whose state a handler takes: each position of a
/// `State<_>` extractor among the given type shapes, in order.
pub fn infer_state_types(types: &Vec<TypeShape>) -> (r: Vec<usize>)
    ensures
        r@.map_values(|u: usize| u as int) == spec_state_positions(types@),
{
    let mut out: Vec<usize> = Vec::new();
    let mut i: usize = 0;
    while i < types.len()
        invariant
            0 <= i <= types@.len(),
            out@.map_values(|u: usize| u as int) == spec_state_positions(types@.take(i as int)),
        decreases types@.len() - i,
    {
        let is_state = match &types[i] {
            TypeShape::Path(seg) => match seg {
                Some(s) => str_eq(s.ident.as_str(), "State") && match &s.args {
                    ArgListShape::Angle(v) => v.len() == 1 && matches!(v[0], ArgShape::TypeArg),
                    _ => false,
                },
                None => false,
            },
            _ => false,
        };
        if is_state {
            out.push(i);
        }
        proof {
            assert(types@.take(i as int + 1).drop_last() =~= types@.take(i as int));
            assert(types@.take(i as int + 1).last() == types@[i as int]);
            assert(out@.map_values(|u: usize| u as int) =~= spec_state_positions(
                types@.take(i as int + 1),
            ));
        }
        i += 1;
    }
    proof {
        assert(types@.take(types@.len() as int) =~= types@);
    }
    out
}

} // verus!
