//! Wire type descriptors, the table of supported element types, and the
//! check that a declared type is a range over an accepted element type.

use crate::range::PgRange;
use vstd::prelude::*;

verus! {

/// What sort of type a descriptor stands for.
#[derive(Debug, PartialEq, Eq)]
pub enum TypeKind {
    Simple,
    Pseudo,
    Domain(Box<TypeInfo>),
    Composite,
    Array(Box<TypeInfo>),
    Enum,
    /// A range over the element type inside.
    Range(Box<TypeInfo>),
}

/// A wire type descriptor: the type's object id and what sort of type it is.
#[derive(Debug, PartialEq, Eq)]
pub struct TypeInfo {
    pub oid: u32,
    pub kind: TypeKind,
}

/// The element types that a range can be made over.
#[derive(Debug, Clone, Copy, PartialEq, Eq, Hash, Structural)]
pub enum ElementKind {
    Bool,
    Int1,
    Int2,
    Int4,
    Int8,
    Float4,
    Float8,
    Numeric,
    Date,
    Time,
    Timestamp,
    TimestampTz,
}

/// The object id of each element type.
pub open spec fn element_oid(kind: ElementKind) -> u32 {
    match kind {
        ElementKind::Bool => 16,
        ElementKind::Int1 => 18,
        ElementKind::Int2 => 21,
        ElementKind::Int4 => 23,
        ElementKind::Int8 => 20,
        ElementKind::Float4 => 700,
        ElementKind::Float8 => 701,
        ElementKind::Numeric => 1700,
        ElementKind::Date => 1082,
        ElementKind::Time => 1083,
        ElementKind::Timestamp => 1114,
        ElementKind::TimestampTz => 1184,
    }
}

/// The object id of the built-in range type over each element type that has
/// one.
pub open spec fn range_oid(kind: ElementKind) -> Option<u32> {
    match kind {
        ElementKind::Int4 => Some(3904u32),
        ElementKind::Numeric => Some(3906u32),
        ElementKind::Timestamp => Some(3908u32),
        ElementKind::TimestampTz => Some(3910u32),
        ElementKind::Date => Some(3912u32),
        ElementKind::Int8 => Some(3926u32),
        _ => None,
    }
}

/// The name of the range type over each element type. The element types
/// without a built-in range type go by a quoted name of their own.
pub open spec fn range_name(kind: ElementKind) -> Seq<char> {
    match kind {
        ElementKind::Bool => "\"_boolrange\""@,
        ElementKind::Int1 => "\"_int1range\""@,
        ElementKind::Int2 => "\"_int2range\""@,
        ElementKind::Int4 => "int4range"@,
        ElementKind::Int8 => "int8range"@,
        ElementKind::Float4 => "\"_float4range\""@,
        ElementKind::Float8 => "\"_float8range\""@,
        ElementKind::Numeric => "numrange"@,
        ElementKind::Date => "daterange"@,
        ElementKind::Time => "\"_naivetimerange\""@,
        ElementKind::Timestamp => "tsrange"@,
        ElementKind::TimestampTz => "tstzrange"@,
    }
}

/// The name of the array-of-range type over each element type that has one.
pub open spec fn range_array_name(kind: ElementKind) -> Option<Seq<char>> {
    match kind {
        ElementKind::Int4 => Some("_int4range"@),
        ElementKind::Int8 => Some("_int8range"@),
        ElementKind::Numeric => Some("_numrange"@),
        ElementKind::Date => Some("_daterange"@),
        ElementKind::Timestamp => Some("_tsrange"@),
        ElementKind::TimestampTz => Some("_tstzrange"@),
        _ => None,
    }
}

impl ElementKind {
    /// The object id of the element type.
    pub fn oid(self) -> (r: u32)
        ensures
            r == element_oid(self),
    {
        match self {
            ElementKind::Bool => 16,
            ElementKind::Int1 => 18,
            ElementKind::Int2 => 21,
            ElementKind::Int4 => 23,
            ElementKind::Int8 => 20,
            ElementKind::Float4 => 700,
            ElementKind::Float8 => 701,
            ElementKind::Numeric => 1700,
            ElementKind::Date => 1082,
            ElementKind::Time => 1083,
            ElementKind::Timestamp => 1114,
            ElementKind::TimestampTz => 1184,
        }
    }

    /// The descriptor of the element type.
    pub fn type_info(self) -> (r: TypeInfo)
        ensures
            r == (TypeInfo { oid: element_oid(self), kind: TypeKind::Simple }),
    {
        TypeInfo { oid: self.oid(), kind: TypeKind::Simple }
    }

    /// Whether a descriptor denotes this element type: it does when it
    /// carries the element type's object id.
    pub fn compatible(self, ty: &TypeInfo) -> (r: bool)
        ensures
            r == (ty.oid == element_oid(self)),
    {
        ty.oid == self.oid()
    }

    /// Whether a descriptor denotes a range over this element type. Any
    /// descriptor that is no range gives `false`.
    pub fn range_compatible(self, ty: &TypeInfo) -> (r: bool)
        ensures
            r == is_range_of(*ty, self),
    {
        match &ty.kind {
            TypeKind::Range(element) => self.compatible(element),
            _ => false,
        }
    }

    /// The name of the range type over this element type.
    pub fn range_type_name(self) -> (r: &'static str)
        ensures
            r@ == range_name(self),
    {
        match self {
            ElementKind::Bool => "\"_boolrange\"",
            ElementKind::Int1 => "\"_int1range\"",
            ElementKind::Int2 => "\"_int2range\"",
            ElementKind::Int4 => "int4range",
            ElementKind::Int8 => "int8range",
            ElementKind::Float4 => "\"_float4range\"",
            ElementKind::Float8 => "\"_float8range\"",
            ElementKind::Numeric => "numrange",
            ElementKind::Date => "daterange",
            ElementKind::Time => "\"_naivetimerange\"",
            ElementKind::Timestamp => "tsrange",
            ElementKind::TimestampTz => "tstzrange",
        }
    }

    /// The name of the array-of-range type over this element type, where
    /// there is one.
    pub fn range_array_type_name(self) -> (r: Option<&'static str>)
        ensures
            match range_array_name(self) {
                Some(name) => r matches Some(s) && s@ == name,
                None => r is None,
            },
    {
        match self {
            ElementKind::Int4 => Some("_int4range"),
            ElementKind::Int8 => Some("_int8range"),
            ElementKind::Numeric => Some("_numrange"),
            ElementKind::Date => Some("_daterange"),
            ElementKind::Timestamp => Some("_tsrange"),
            ElementKind::TimestampTz => Some("_tstzrange"),
            _ => None,
        }
    }

    /// The descriptor of the built-in range type over this element type,
    /// where there is one.
    pub fn range_type_info(self) -> (r: Option<TypeInfo>)
        ensures
            match range_oid(self) {
                Some(oid) => r == Some(
                    TypeInfo {
                        oid,
                        kind: TypeKind::Range(
                            Box::new(TypeInfo { oid: element_oid(self), kind: TypeKind::Simple }),
                        ),
                    },
                ),
                None => r is None,
            },
    {
        let oid: u32 = match self {
            ElementKind::Int4 => 3904,
            ElementKind::Numeric => 3906,
            ElementKind::Timestamp => 3908,
            ElementKind::TimestampTz => 3910,
            ElementKind::Date => 3912,
            ElementKind::Int8 => 3926,
            _ => {
                return None;
            },
        };
        Some(TypeInfo { oid, kind: TypeKind::Range(Box::new(self.type_info())) })
    }
}

/// Whether a descriptor denotes a range over an element type that the given
/// kind accepts.
pub open spec fn is_range_of(ty: TypeInfo, kind: ElementKind) -> bool {
    ty.kind matches TypeKind::Range(element) && element.oid == element_oid(kind)
}

/// An element type with a place in the table of element types.
pub trait ElementType {
    /// The row of the table that the type stands in.
    spec fn element_kind() -> ElementKind;

    /// The row of the table that the type stands in.
    fn kind() -> (k: ElementKind)
        ensures
            k == Self::element_kind(),
    ;
}

/// Whether the declared type is a range with an element type that `E`
/// accepts. Any other descriptor gives `false`.
pub fn range_compatible<E: ElementType>(ty: &TypeInfo) -> (r: bool)
    ensures
        r == is_range_of(*ty, E::element_kind()),
{
    E::kind().range_compatible(ty)
}

impl<T: ElementType> PgRange<T> {
    /// The name of the range type of this range.
    pub fn range_type_name() -> (r: &'static str)
        ensures
            r@ == range_name(T::element_kind()),
    {
        T::kind().range_type_name()
    }

    /// The name of the type of an array of this range, where there is one.
    pub fn range_array_type_name() -> (r: Option<&'static str>)
        ensures
            match range_array_name(T::element_kind()) {
                Some(name) => r matches Some(s) && s@ == name,
                None => r is None,
            },
    {
        T::kind().range_array_type_name()
    }

    /// Whether a value of the declared type can be read as this range.
    pub fn compatible(ty: &TypeInfo) -> (r: bool)
        ensures
            r == is_range_of(*ty, T::element_kind()),
    {
        range_compatible::<T>(ty)
    }
}

impl ElementType for bool {
    open spec fn element_kind() -> ElementKind {
        ElementKind::Bool
    }

    fn kind() -> (k: ElementKind) {
        ElementKind::Bool
    }
}

impl ElementType for i8 {
    open spec fn element_kind() -> ElementKind {
        ElementKind::Int1
    }

    fn kind() -> (k: ElementKind) {
        ElementKind::Int1
    }
}

impl ElementType for i16 {
    open spec fn element_kind() -> ElementKind {
        ElementKind::Int2
    }

    fn kind() -> (k: ElementKind) {
        ElementKind::Int2
    }
}

impl ElementType for i32 {
    open spec fn element_kind() -> ElementKind {
        ElementKind::Int4
    }

    fn kind() -> (k: ElementKind) {
        ElementKind::Int4
    }
}

impl ElementType for i64 {
    open spec fn element_kind() -> ElementKind {
        ElementKind::Int8
    }

    fn kind() -> (k: ElementKind) {
        ElementKind::Int8
    }
}

} // verus!
