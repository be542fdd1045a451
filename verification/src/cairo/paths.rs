//! Paths as the drawing library hands them out: one array in which each
//! segment is a header, which says what the segment is and how many
//! elements it takes up, followed by the points of the segment.
//!
//! The coordinates stay where the array is read. Here an element is known
//! only as a header or a point, and a segment names its points by their
//! place in the array.

use vstd::prelude::*;

verus! {

/// What a segment of a path is.
#[derive(Clone, Copy, PartialEq, Eq, Structural, Debug)]
pub enum PathDataType {
    PathMoveTo,
    PathLineTo,
    PathCurveTo,
    PathClosePath,
}

impl PathDataType {
    /// The number of points that follow the header of such a segment.
    pub open spec fn spec_points(self) -> usize {
        match self {
            PathDataType::PathMoveTo => 1,
            PathDataType::PathLineTo => 1,
            PathDataType::PathCurveTo => 3,
            PathDataType::PathClosePath => 0,
        }
    }

    #[verifier::when_used_as_spec(spec_points)]
    pub fn points(self) -> (n: usize)
        ensures
            n == self.spec_points(),
    {
        match self {
            PathDataType::PathMoveTo => 1,
            PathDataType::PathLineTo => 1,
            PathDataType::PathCurveTo => 3,
            PathDataType::PathClosePath => 0,
        }
    }
}

/// One element of the array of a path.
#[derive(Clone, Copy, PartialEq, Eq, Structural, Debug)]
pub enum PathData {
    /// The head of a segment: its kind, and the number of elements that the
    /// segment takes up, the header among them.
    Header { data_type: PathDataType, length: usize },
    /// A point of a segment.
    Point,
}

/// A segment of a path; each point stands by its place in the array.
#[derive(Clone, Copy, PartialEq, Eq, Structural, Debug)]
pub enum PathSegment {
    MoveTo(usize),
    LineTo(usize),
    CurveTo(usize, usize, usize),
    ClosePath,
}

/// Whether a segment starts at place `i`: a header stands there, and the
/// elements that it claims are in the array and are enough for its points.
pub open spec fn segment_starts(data: Seq<PathData>, i: int) -> bool {
    &&& 0 <= i < data.len()
    &&& data[i] matches PathData::Header { data_type, length }
    &&& length > data_type.spec_points()
    &&& i + length <= data.len()
}

/// The number of elements that the segment at place `i` takes up.
pub open spec fn segment_length(data: Seq<PathData>, i: int) -> int {
    match data[i] {
        PathData::Header { data_type, length } => length as int,
        PathData::Point => 1,
    }
}

/// The segment whose header stands at place `i`.
pub open spec fn segment_at(data: Seq<PathData>, i: int) -> PathSegment {
    match data[i] {
        PathData::Header { data_type, length } => match data_type {
            PathDataType::PathMoveTo => PathSegment::MoveTo((i + 1) as usize),
            PathDataType::PathLineTo => PathSegment::LineTo((i + 1) as usize),
            PathDataType::PathCurveTo => PathSegment::CurveTo(
                (i + 1) as usize,
                (i + 2) as usize,
                (i + 3) as usize,
            ),
            PathDataType::PathClosePath => PathSegment::ClosePath,
        },
        PathData::Point => PathSegment::ClosePath,
    }
}

/// Whether the array from place `i` on is made of whole segments.
pub open spec fn tiled(data: Seq<PathData>, i: int) -> bool
    decreases data.len() - i,
{
    if i >= data.len() {
        i == data.len()
    } else if i < 0 {
        false
    } else {
        segment_starts(data, i) && tiled(data, i + segment_length(data, i))
    }
}

/// The segments from place `i` on, first to last.
pub open spec fn segments_from(data: Seq<PathData>, i: int) -> Seq<PathSegment>
    decreases data.len() - i,
{
    if 0 <= i < data.len() && segment_starts(data, i) {
        seq![segment_at(data, i)] + segments_from(data, i + segment_length(data, i))
    } else {
        Seq::empty()
    }
}

/// A walk over the segments of a path.
#[derive(Debug)]
pub struct PathSegments {
    data: Vec<PathData>,
    i: usize,
}

impl PathSegments {
    #[verifier::type_invariant]
    spec fn well_formed(&self) -> bool {
        self.i <= self.data@.len() && tiled(self.data@, self.i as int)
    }

    /// The array of the path.
    pub closed spec fn data(&self) -> Seq<PathData> {
        self.data@
    }

    /// The place of the header of the next segment.
    pub closed spec fn position(&self) -> int {
        self.i as int
    }

    /// A walk from the start of `data`, if the array is made of whole
    /// segments.
    pub fn new(data: Vec<PathData>) -> (r: Option<PathSegments>)
        ensures
            r is Some <==> tiled(data@, 0),
            r matches Some(walk) ==> walk.data() == data@ && walk.position() == 0,
    {
        let mut i: usize = 0;
        while i < data.len()
            invariant
                i <= data.len(),
                tiled(data@, 0) == tiled(data@, i as int),
            decreases data.len() - i,
        {
            match data[i] {
                PathData::Header { data_type, length } => {
                    if length <= data_type.points() || length > data.len() - i {
                        return None;
                    }
                    i += length;
                },
                PathData::Point => {
                    return None;
                },
            }
        }
        Some(PathSegments { data, i: 0 })
    }

    /// The next segment, and a step past it; `None` at the end of the
    /// array.
    pub fn next(&mut self) -> (r: Option<PathSegment>)
        ensures
            final(self).data() == old(self).data(),
            r is None <==> old(self).position() >= old(self).data().len(),
            r is None ==> final(self).position() == old(self).position(),
            r matches Some(segment) ==> {
                &&& segment == segment_at(old(self).data(), old(self).position())
                &&& final(self).position() == old(self).position() + segment_length(
                    old(self).data(),
                    old(self).position(),
                )
            },
            segments_from(old(self).data(), old(self).position()) == match r {
                Some(segment) => seq![segment] + segments_from(
                    final(self).data(),
                    final(self).position(),
                ),
                None => Seq::empty(),
            },
    {
        proof {
            use_type_invariant(&*self);
        }
        let i = self.i;
        if i >= self.data.len() {
            return None;
        }
        match self.data[i] {
            PathData::Header { data_type, length } => {
                self.i = i + length;
                Some(
                    match data_type {
                        PathDataType::PathMoveTo => PathSegment::MoveTo(i + 1),
                        PathDataType::PathLineTo => PathSegment::LineTo(i + 1),
                        PathDataType::PathCurveTo => PathSegment::CurveTo(i + 1, i + 2, i + 3),
                        PathDataType::PathClosePath => PathSegment::ClosePath,
                    },
                )
            },
            PathData::Point => {
                proof {
                    assert(false);
                }
                None
            },
        }
    }
}

/// Every point that a segment of a well-made path names is a point of the
/// array, after the segment's header and within the segment.
pub proof fn lemma_points_in_segment(data: Seq<PathData>, i: int)
    requires
        segment_starts(data, i),
        data.len() <= usize::MAX,
    ensures
        match segment_at(data, i) {
            PathSegment::MoveTo(p) => i < p < i + segment_length(data, i),
            PathSegment::LineTo(p) => i < p < i + segment_length(data, i),
            PathSegment::CurveTo(p, q, r) => i < p < q < r < i + segment_length(data, i),
            PathSegment::ClosePath => true,
        },
{
}

} // verus!
