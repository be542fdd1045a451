//! Patterns: the sources that drawing takes its paint from.

use crate::glib::traits::Ptr;
use libc::c_uint;
use vstd::prelude::*;

verus! {

/// The kinds of pattern that the drawing library has.
#[derive(Clone, Copy, PartialEq, Eq, Structural, Debug)]
pub enum PatternType {
    PatternTypeSolid,
    PatternTypeSurface,
    PatternTypeLinearGradient,
    PatternTypeRadialGradient,
    PatternTypeMesh,
    PatternTypeRasterSource,
}

/// The tag of a pattern.
#[derive(Debug)]
pub struct C_CairoPattern;

/// A handle on a pattern, by its kind.
#[derive(Debug)]
pub enum WrappedPattern {
    Solid(Ptr<C_CairoPattern>),
    Surface(Ptr<C_CairoPattern>),
    LinearGradient(Ptr<C_CairoPattern>),
    RadialGradient(Ptr<C_CairoPattern>),
    Mesh(Ptr<C_CairoPattern>),
}

impl WrappedPattern {
    /// The address of the pattern.
    pub open spec fn addr(self) -> usize {
        match self {
            WrappedPattern::Solid(p)
            | WrappedPattern::Surface(p)
            | WrappedPattern::LinearGradient(p)
            | WrappedPattern::RadialGradient(p)
            | WrappedPattern::Mesh(p) => p.addr,
        }
    }

    /// The kind of the pattern.
    pub open spec fn kind(self) -> PatternType {
        match self {
            WrappedPattern::Solid(_) => PatternType::PatternTypeSolid,
            WrappedPattern::Surface(_) => PatternType::PatternTypeSurface,
            WrappedPattern::LinearGradient(_) => PatternType::PatternTypeLinearGradient,
            WrappedPattern::RadialGradient(_) => PatternType::PatternTypeRadialGradient,
            WrappedPattern::Mesh(_) => PatternType::PatternTypeMesh,
        }
    }
}

/// The handle for the pattern at `ptr`, which the drawing library reports
/// to be of kind `pattern_type`. Raster sources have no handle.
pub fn wrap_pattern(ptr: Ptr<C_CairoPattern>, pattern_type: PatternType) -> (r: WrappedPattern)
    requires
        pattern_type != PatternType::PatternTypeRasterSource,
    ensures
        r.addr() == ptr.addr,
        r.kind() == pattern_type,
{
    match pattern_type {
        PatternType::PatternTypeSolid => WrappedPattern::Solid(ptr),
        PatternType::PatternTypeSurface => WrappedPattern::Surface(ptr),
        PatternType::PatternTypeLinearGradient => WrappedPattern::LinearGradient(ptr),
        PatternType::PatternTypeRadialGradient => WrappedPattern::RadialGradient(ptr),
        PatternType::PatternTypeMesh => WrappedPattern::Mesh(ptr),
        PatternType::PatternTypeRasterSource => {
            proof {
                assert(false);
            }
            vstd::pervasive::unreached()
        },
    }
}

/// The corners of a patch of a mesh pattern.
#[derive(Clone, Copy, PartialEq, Eq, Structural, Debug)]
pub enum MeshCorner {
    MeshCorner0,
    MeshCorner1,
    MeshCorner2,
    MeshCorner3,
}

impl MeshCorner {
    /// The number of the corner.
    pub open spec fn spec_to_glib(self) -> c_uint {
        match self {
            MeshCorner::MeshCorner0 => 0,
            MeshCorner::MeshCorner1 => 1,
            MeshCorner::MeshCorner2 => 2,
            MeshCorner::MeshCorner3 => 3,
        }
    }

    #[verifier::when_used_as_spec(spec_to_glib)]
    pub fn to_glib(self) -> (v: c_uint)
        ensures
            v == self.spec_to_glib(),
    {
        match self {
            MeshCorner::MeshCorner0 => 0,
            MeshCorner::MeshCorner1 => 1,
            MeshCorner::MeshCorner2 => 2,
            MeshCorner::MeshCorner3 => 3,
        }
    }
}

} // verus!
