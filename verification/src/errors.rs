//! The failure conditions of parsing, building and resolving a device
//! description, and the containment-path context every error carries as it
//! unwinds.
//!
//! Each condition keeps its programmatic kind; intermediate layers only push
//! context entries such as `In register \`WRITECTRL\``, so the surfaced error
//! names the full path to the failure.

use vstd::prelude::*;

verus! {

/// What kind of content a tag was expected to hold.
#[derive(Clone, Copy, Debug, PartialEq, Eq, Structural)]
pub enum XmlContent {
    Text,
    Element,
    Unknown,
}

/// A required tag that was absent, or present without the expected content.
#[derive(Clone, Debug, PartialEq, Eq)]
pub enum TagError {
    EmptyTag { name: String, content: XmlContent },
    MissingTag { name: String },
}

/// Mathematical image of a [`TagError`].
pub enum TagErrorV {
    EmptyTag { name: Seq<char>, content: XmlContent },
    MissingTag { name: Seq<char> },
}

impl View for TagError {
    type V = TagErrorV;

    open spec fn view(&self) -> TagErrorV {
        match self {
            TagError::EmptyTag { name, content } => TagErrorV::EmptyTag {
                name: name@,
                content: *content,
            },
            TagError::MissingTag { name } => TagErrorV::MissingTag { name: name@ },
        }
    }
}

/// The target type of a text conversion that failed.
#[derive(Clone, Copy, Debug, PartialEq, Eq, Structural)]
pub enum ConvType {
    Bool,
    U32,
    U64,
    DimIndex,
}

/// Text that was present but not convertible to the expected type.
#[derive(Clone, Debug, PartialEq, Eq)]
pub struct ParseError {
    /// The tag whose text was being converted.
    pub tagname: String,
    /// The conversion that failed.
    pub conv: ConvType,
    /// The offending text.
    pub text: String,
}

/// Mathematical image of a [`ParseError`].
pub struct ParseErrorV {
    pub tagname: Seq<char>,
    pub conv: ConvType,
    pub text: Seq<char>,
}

impl View for ParseError {
    type V = ParseErrorV;

    open spec fn view(&self) -> ParseErrorV {
        ParseErrorV { tagname: self.tagname@, conv: self.conv, text: self.text@ }
    }
}

/// A malformed `<bitRange>` text.
#[derive(Clone, Copy, Debug, PartialEq, Eq, Structural)]
pub enum BitRangeParseError {
    MissingOpen,
    MissingClose,
    ParseError,
    Syntax,
}

/// A dimensioned element whose name or index list cannot be expanded.
#[derive(Clone, Copy, Debug, PartialEq, Eq, Structural)]
pub enum DimensionError {
    NoPlaceHolder,
    DimensionsMismatch,
}

/// An `<access>` text outside its closed vocabulary.
#[derive(Clone, Debug, PartialEq, Eq)]
pub struct AccessVariantError(pub String);

/// An `<endian>` text outside its closed vocabulary.
#[derive(Clone, Debug, PartialEq, Eq)]
pub struct EndianVariantError(pub String);

/// A `<usage>` text outside its closed vocabulary.
#[derive(Clone, Debug, PartialEq, Eq)]
pub struct UsageVariantError(pub String);

/// A `<writeConstraint>` element with an unknown or ambiguous child.
#[derive(Clone, Debug, PartialEq, Eq)]
pub enum WriteConstraintError {
    Variant(String),
    TooManyElements,
}

/// Mathematical image of a [`WriteConstraintError`].
pub enum WriteConstraintErrorV {
    Variant(Seq<char>),
    TooManyElements,
}

impl View for WriteConstraintError {
    type V = WriteConstraintErrorV;

    open spec fn view(&self) -> WriteConstraintErrorV {
        match self {
            WriteConstraintError::Variant(s) => WriteConstraintErrorV::Variant(s@),
            WriteConstraintError::TooManyElements => WriteConstraintErrorV::TooManyElements,
        }
    }
}

/// Every terminal condition of this crate, without its context chain.
#[derive(Clone, Debug, PartialEq, Eq)]
pub enum SvdErrorKind {
    /// A required child tag absent or empty.
    Tag(TagError),
    /// The wrong element kind at the expected parse site; carries the
    /// expected tag name.
    NotExpectedTag(String),
    /// Text not convertible to the expected scalar type.
    Parse(ParseError),
    /// An `<access>` value outside its vocabulary.
    Access(AccessVariantError),
    /// An `<endian>` value outside its vocabulary.
    Endian(EndianVariantError),
    /// A `<usage>` value outside its vocabulary.
    Usage(UsageVariantError),
    /// A `<modifiedWriteValues>` value outside its vocabulary.
    ModifiedWriteValuesVariant(String),
    /// A `<writeConstraint>` element with an unknown or ambiguous child.
    WriteConstraint(WriteConstraintError),
    /// A malformed or absent bit range.
    BitRange(BitRangeParseError),
    /// A dimension list that cannot be expanded.
    Dimension(DimensionError),
    /// A `derivedFrom` reference naming no sibling.
    DerivedFromNotFound(String),
    /// An entity transitively deriving from itself; carries the repeated name.
    DerivationCycle(String),
    /// A builder missing the named required field.
    Uninitialized(String),
    /// Property inheritance left the named mandatory field unset.
    UnresolvedProperty(String),
    /// A device with no peripherals.
    EmptyDevice,
    /// A cluster with no children and no derivation.
    EmptyCluster,
    /// A register with a `<fields>` tag but no fields and no derivation.
    EmptyFields,
    /// An enumeration set with no values and no derivation.
    EnumeratedValuesEmpty,
}

/// Mathematical image of a [`SvdErrorKind`].
pub enum SvdErrorKindV {
    Tag(TagErrorV),
    NotExpectedTag(Seq<char>),
    Parse(ParseErrorV),
    Access(Seq<char>),
    Endian(Seq<char>),
    Usage(Seq<char>),
    ModifiedWriteValuesVariant(Seq<char>),
    WriteConstraint(WriteConstraintErrorV),
    BitRange(BitRangeParseError),
    Dimension(DimensionError),
    DerivedFromNotFound(Seq<char>),
    DerivationCycle(Seq<char>),
    Uninitialized(Seq<char>),
    UnresolvedProperty(Seq<char>),
    EmptyDevice,
    EmptyCluster,
    EmptyFields,
    EnumeratedValuesEmpty,
}

impl View for SvdErrorKind {
    type V = SvdErrorKindV;

    open spec fn view(&self) -> SvdErrorKindV {
        match self {
            SvdErrorKind::Tag(t) => SvdErrorKindV::Tag(t@),
            SvdErrorKind::NotExpectedTag(s) => SvdErrorKindV::NotExpectedTag(s@),
            SvdErrorKind::Parse(p) => SvdErrorKindV::Parse(p@),
            SvdErrorKind::Access(a) => SvdErrorKindV::Access(a.0@),
            SvdErrorKind::Endian(e) => SvdErrorKindV::Endian(e.0@),
            SvdErrorKind::Usage(u) => SvdErrorKindV::Usage(u.0@),
            SvdErrorKind::ModifiedWriteValuesVariant(s) => SvdErrorKindV::ModifiedWriteValuesVariant(
                s@,
            ),
            SvdErrorKind::WriteConstraint(w) => SvdErrorKindV::WriteConstraint(w@),
            SvdErrorKind::BitRange(b) => SvdErrorKindV::BitRange(*b),
            SvdErrorKind::Dimension(d) => SvdErrorKindV::Dimension(*d),
            SvdErrorKind::DerivedFromNotFound(s) => SvdErrorKindV::DerivedFromNotFound(s@),
            SvdErrorKind::DerivationCycle(s) => SvdErrorKindV::DerivationCycle(s@),
            SvdErrorKind::Uninitialized(s) => SvdErrorKindV::Uninitialized(s@),
            SvdErrorKind::UnresolvedProperty(s) => SvdErrorKindV::UnresolvedProperty(s@),
            SvdErrorKind::EmptyDevice => SvdErrorKindV::EmptyDevice,
            SvdErrorKind::EmptyCluster => SvdErrorKindV::EmptyCluster,
            SvdErrorKind::EmptyFields => SvdErrorKindV::EmptyFields,
            SvdErrorKind::EnumeratedValuesEmpty => SvdErrorKindV::EnumeratedValuesEmpty,
        }
    }
}

/// A terminal condition together with the containment path to it, innermost
/// entry first.
#[derive(Clone, Debug, PartialEq, Eq)]
pub struct SvdError {
    pub kind: SvdErrorKind,
    pub context: Vec<String>,
}

/// Mathematical image of a [`SvdError`].
pub struct SvdErrorV {
    pub kind: SvdErrorKindV,
    pub context: Seq<Seq<char>>,
}

impl View for SvdError {
    type V = SvdErrorV;

    open spec fn view(&self) -> SvdErrorV {
        SvdErrorV { kind: self.kind@, context: self.context@.map_values(|s: String| s@) }
    }
}

/// The image of a fresh error of kind `k` with no context.
pub open spec fn err_of(k: SvdErrorKindV) -> SvdErrorV {
    SvdErrorV { kind: k, context: Seq::empty() }
}

/// The image of `e` wrapped by one more containment entry `c`.
pub open spec fn err_in(e: SvdErrorV, c: Seq<char>) -> SvdErrorV {
    SvdErrorV { kind: e.kind, context: e.context.push(c) }
}

/// A containment entry: `prefix` followed by the entity's name and a
/// closing backquote.
pub open spec fn ctx_text(prefix: Seq<char>, name: Seq<char>) -> Seq<char> {
    prefix + name + "`"@
}

/// Exec mirror of [`ctx_text`]: `prefix` is expected to end in an opening
/// backquote, as in `In register \``.
pub fn make_ctx(prefix: &str, name: &String) -> (r: String)
    ensures
        r@ == ctx_text(prefix@, name@),
{
    let mut s: String = prefix.to_owned();
    s.append(name.as_str());
    s.append("`");
    proof {
        assert(s@ =~= ctx_text(prefix@, name@));
    }
    s
}

impl SvdError {
    /// A fresh error with no context.
    pub fn new(kind: SvdErrorKind) -> (e: SvdError)
        ensures
            e@ == err_of(kind@),
    {
        let e = SvdError { kind, context: Vec::new() };
        proof {
            assert(e@.context =~= Seq::<Seq<char>>::empty());
        }
        e
    }

    /// The same condition, wrapped by one more containment entry.
    pub fn in_context(self, c: String) -> (e: SvdError)
        ensures
            e@ == err_in(self@, c@),
    {
        let mut e = self;
        let ghost old_e = e;
        e.context.push(c);
        proof {
            assert(e@.context =~= err_in(old_e@, c@).context);
        }
        e
    }
}

} // verus!
