//! The object system underneath the toolkit: truth values, the class
//! lattice, owning handles and string marshalling.

use libc::c_int;
use vstd::prelude::*;

pub mod error;
pub mod glib_container;
pub mod list;
pub mod traits;
pub mod translate;
pub mod types;

verus! {

/// The foreign truth value.
pub type Gboolean = c_int;

pub const GFALSE: Gboolean = 0;

pub const GTRUE: Gboolean = 1;

/// The foreign truth value of a host boolean.
pub open spec fn spec_to_gboolean(b: bool) -> Gboolean {
    if b {
        GTRUE
    } else {
        GFALSE
    }
}

/// The host boolean of a foreign truth value: everything but `GFALSE` counts
/// as true.
pub open spec fn spec_to_bool(b: Gboolean) -> bool {
    b != GFALSE
}

#[verifier::when_used_as_spec(spec_to_gboolean)]
pub fn to_gboolean(b: bool) -> (r: Gboolean)
    ensures
        r == spec_to_gboolean(b),
{
    match b {
        true => GTRUE,
        false => GFALSE,
    }
}

#[verifier::when_used_as_spec(spec_to_bool)]
pub fn to_bool(b: Gboolean) -> (r: bool)
    ensures
        r == spec_to_bool(b),
{
    b != GFALSE
}

/// A host boolean survives the trip through the foreign representation.
pub proof fn lemma_gboolean_round_trip(b: bool)
    ensures
        spec_to_bool(spec_to_gboolean(b)) == b,
{
}

/// An opaque structure used as the base of all interface types.
#[derive(Clone, Copy, Debug)]
pub struct TypeInterface;

/// An opaque structure used as the base of all type instances.
#[derive(Clone, Copy, Debug)]
pub struct TypeInstance;

/// An opaque structure used as the base of all classes.
#[derive(Clone, Copy, Debug)]
pub struct TypeClass;

/// Flags of an object property.
#[derive(Clone, Copy, PartialEq, Eq, Structural, Debug)]
pub enum ParamFlags {
    Readable,
    Writable,
    ReadWrite,
    Construct,
    ConstructOnly,
    LaxValidation,
    StaticName,
    Private,
    StaticNick,
    StaticBlurb,
    Deprecated,
}

/// The fundamental types of the type system.
#[derive(Clone, Copy, PartialEq, Eq, Structural, Debug)]
pub enum GType {
    /// An invalid type, used as an error return value.
    Invalid,
    /// The replacement for the C `void` return type.
    Void,
    /// The type from which all interfaces are derived.
    Interface,
    Char,
    UChar,
    Boolean,
    Int,
    UInt,
    Long,
    ULong,
    Int64,
    UInt64,
    /// The type from which all enumeration types are derived.
    Enum,
    /// The type from which all flags types are derived.
    Flags,
    Float,
    Double,
    /// Nul-terminated C strings.
    String,
    Pointer,
    /// The type from which all boxed types are derived.
    Boxed,
    /// The type from which all parameter specifications are derived.
    Param,
    /// The fundamental type of objects.
    Object,
    Variant,
}

impl GType {
    /// The position of the type among the fundamental types.
    pub open spec fn ordinal(self) -> nat {
        match self {
            GType::Invalid => 0,
            GType::Void => 1,
            GType::Interface => 2,
            GType::Char => 3,
            GType::UChar => 4,
            GType::Boolean => 5,
            GType::Int => 6,
            GType::UInt => 7,
            GType::Long => 8,
            GType::ULong => 9,
            GType::Int64 => 10,
            GType::UInt64 => 11,
            GType::Enum => 12,
            GType::Flags => 13,
            GType::Float => 14,
            GType::Double => 15,
            GType::String => 16,
            GType::Pointer => 17,
            GType::Boxed => 18,
            GType::Param => 19,
            GType::Object => 20,
            GType::Variant => 21,
        }
    }

    /// The identifier the type system uses for the type: its ordinal in the
    /// bits above the two lowest.
    pub fn to_glib(self) -> (id: usize)
        ensures
            id == self.ordinal() * 4,
    {
        match self {
            GType::Invalid => 0,
            GType::Void => 4,
            GType::Interface => 8,
            GType::Char => 12,
            GType::UChar => 16,
            GType::Boolean => 20,
            GType::Int => 24,
            GType::UInt => 28,
            GType::Long => 32,
            GType::ULong => 36,
            GType::Int64 => 40,
            GType::UInt64 => 44,
            GType::Enum => 48,
            GType::Flags => 52,
            GType::Float => 56,
            GType::Double => 60,
            GType::String => 64,
            GType::Pointer => 68,
            GType::Boxed => 72,
            GType::Param => 76,
            GType::Object => 80,
            GType::Variant => 84,
        }
    }
}

} // verus!
