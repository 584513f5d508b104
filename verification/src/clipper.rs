//! The data model: vertices, paths, polygons and collections of polygons,
//! the numeric codes of the clipping parameters, and structural equality.
use vstd::prelude::*;
use vstd::std_specs::cmp::PartialEqSpecImpl;

verus! {

broadcast use vstd::array::group_array_axioms;

/// Boolean operation applied between subject and clip polygons.
pub type ClipType = u32;

pub const ClipType_ctIntersection: ClipType = 0;
pub const ClipType_ctUnion: ClipType = 1;
pub const ClipType_ctDifference: ClipType = 2;
pub const ClipType_ctXor: ClipType = 3;

/// How corners are joined when offsetting.
pub type JoinType = u32;

pub const JoinType_jtSquare: JoinType = 0;
pub const JoinType_jtRound: JoinType = 1;
pub const JoinType_jtMiter: JoinType = 2;

/// How open or closed paths are ended when offsetting.
pub type EndType = u32;

pub const EndType_etClosedPolygon: EndType = 0;
pub const EndType_etClosedLine: EndType = 1;
pub const EndType_etOpenButt: EndType = 2;
pub const EndType_etOpenSquare: EndType = 3;
pub const EndType_etOpenRound: EndType = 4;

/// The role of a polygon in a clipping operation.
pub type PolyType = u32;

pub const PolyType_ptSubject: PolyType = 0;
pub const PolyType_ptClip: PolyType = 1;

/// The rule deciding which regions count as filled.
pub type PolyFillType = u32;

pub const PolyFillType_pftEvenOdd: PolyFillType = 0;
pub const PolyFillType_pftNonZero: PolyFillType = 1;
pub const PolyFillType_pftPositive: PolyFillType = 2;
pub const PolyFillType_pftNegative: PolyFillType = 3;

/// Integer coordinate type.
pub type cInt = i64;

/// A vertex: its `x` and `y` coordinates.
pub type Vertice = [cInt; 2];

/// A polyline or a closed contour.
#[derive(Clone, Debug)]
pub struct Path {
    pub vertices: Vec<Vertice>,
    /// Non-zero when the path is a closed contour.
    pub closed: i32,
}

/// A polygon: its contours (outer boundaries and holes) and its role.
#[derive(Clone, Debug)]
pub struct Polygon {
    pub paths: Vec<Path>,
    pub type_: PolyType,
}

/// A collection of polygons, as passed to and returned by the clipper.
#[derive(Clone, Debug)]
pub struct Polygons {
    pub polygons: Vec<Polygon>,
}

/// Mathematical value of a [`Path`].
pub struct PathModel {
    pub vertices: Seq<Vertice>,
    pub closed: i32,
}

/// Mathematical value of a [`Polygon`].
pub struct PolygonModel {
    pub paths: Seq<PathModel>,
    pub type_: PolyType,
}

impl View for Path {
    type V = PathModel;

    open spec fn view(&self) -> PathModel {
        PathModel { vertices: self.vertices@, closed: self.closed }
    }
}

impl View for Polygon {
    type V = PolygonModel;

    open spec fn view(&self) -> PolygonModel {
        PolygonModel { paths: self.paths@.map_values(|p: Path| p@), type_: self.type_ }
    }
}

impl View for Polygons {
    type V = Seq<PolygonModel>;

    open spec fn view(&self) -> Seq<PolygonModel> {
        self.polygons@.map_values(|p: Polygon| p@)
    }
}

impl Path {
    /// Builds a path from its vertices and its closed flag.
    pub fn new(vertices: Vec<Vertice>, closed: i32) -> (res: Path)
        ensures
            res@ == (PathModel { vertices: vertices@, closed }),
    {
        Path { vertices, closed }
    }

    /// The number of vertices.
    pub fn vertices_count(&self) -> (res: usize)
        ensures
            res == self@.vertices.len(),
    {
        self.vertices.len()
    }

    /// The vertices of the path, in order.
    pub fn vertices(&self) -> (res: &[Vertice])
        ensures
            res@ == self@.vertices,
    {
        self.vertices.as_slice()
    }

    /// Structural equality: same closed flag and the same vertices in the same order.
    pub fn equals(&self, other: &Path) -> (res: bool)
        ensures
            res == (self@ == other@),
    {
        if self.closed != other.closed {
            return false;
        }
        let n = self.vertices.len();
        if n != other.vertices.len() {
            return false;
        }
        let mut i: usize = 0;
        while i < n
            invariant
                n == self.vertices@.len(),
                n == other.vertices@.len(),
                i <= n,
                forall|j: int| 0 <= j < i ==> #[trigger] self.vertices@[j] == other.vertices@[j],
            decreases n - i,
        {
            let a = &self.vertices[i];
            let b = &other.vertices[i];
            if a[0] != b[0] || a[1] != b[1] {
                assert(self.vertices@[i as int] != other.vertices@[i as int]);
                return false;
            }
            assert(a =~= b);
            i = i + 1;
        }
        assert(self.vertices@ =~= other.vertices@);
        true
    }
}

impl PartialEq for Path {
    fn eq(&self, other: &Self) -> (res: bool) {
        self.equals(other)
    }
}

impl PartialEqSpecImpl for Path {
    open spec fn obeys_eq_spec() -> bool {
        true
    }

    open spec fn eq_spec(&self, other: &Path) -> bool {
        self@ == other@
    }
}

impl Eq for Path {}

impl Polygon {
    /// Builds a polygon from its contours and its role.
    pub fn new(paths: Vec<Path>, type_: PolyType) -> (res: Polygon)
        ensures
            res.paths@ == paths@,
            res.type_ == type_,
            res@ == (PolygonModel { paths: paths@.map_values(|p: Path| p@), type_ }),
    {
        Polygon { paths, type_ }
    }

    /// The number of contours.
    pub fn paths_count(&self) -> (res: usize)
        ensures
            res == self@.paths.len(),
    {
        self.paths.len()
    }

    /// The contours of the polygon, in order.
    pub fn paths(&self) -> (res: &[Path])
        ensures
            res@ == self.paths@,
            res@.map_values(|p: Path| p@) == self@.paths,
    {
        self.paths.as_slice()
    }

    /// Structural equality: same role and equal contours in the same order.
    pub fn equals(&self, other: &Polygon) -> (res: bool)
        ensures
            res == (self@ == other@),
    {
        if self.type_ != other.type_ {
            return false;
        }
        let n = self.paths.len();
        if n != other.paths.len() {
            assert(self@.paths.len() != other@.paths.len());
            return false;
        }
        let mut i: usize = 0;
        while i < n
            invariant
                n == self.paths@.len(),
                n == other.paths@.len(),
                i <= n,
                forall|j: int| 0 <= j < i ==> #[trigger] self.paths@[j]@ == other.paths@[j]@,
            decreases n - i,
        {
            if !self.paths[i].equals(&other.paths[i]) {
                assert(self@.paths[i as int] != other@.paths[i as int]);
                return false;
            }
            i = i + 1;
        }
        assert(self@.paths =~= other@.paths);
        true
    }
}

impl PartialEq for Polygon {
    fn eq(&self, other: &Self) -> (res: bool) {
        self.equals(other)
    }
}

impl PartialEqSpecImpl for Polygon {
    open spec fn obeys_eq_spec() -> bool {
        true
    }

    open spec fn eq_spec(&self, other: &Polygon) -> bool {
        self@ == other@
    }
}

impl Eq for Polygon {}

impl Polygons {
    /// Builds a collection from its polygons.
    pub fn new(polygons: Vec<Polygon>) -> (res: Polygons)
        ensures
            res.polygons@ == polygons@,
            res@ == polygons@.map_values(|p: Polygon| p@),
    {
        Polygons { polygons }
    }

    /// The number of polygons.
    pub fn polygons_count(&self) -> (res: usize)
        ensures
            res == self@.len(),
    {
        self.polygons.len()
    }

    /// The polygons of the collection, in order.
    pub fn polygons(&self) -> (res: &[Polygon])
        ensures
            res@ == self.polygons@,
            res@.map_values(|p: Polygon| p@) == self@,
    {
        self.polygons.as_slice()
    }

    /// Structural equality: equal polygons in the same order.
    pub fn equals(&self, other: &Polygons) -> (res: bool)
        ensures
            res == (self@ == other@),
    {
        let n = self.polygons.len();
        if n != other.polygons.len() {
            assert(self@.len() != other@.len());
            return false;
        }
        let mut i: usize = 0;
        while i < n
            invariant
                n == self.polygons@.len(),
                n == other.polygons@.len(),
                i <= n,
                forall|j: int| 0 <= j < i ==> #[trigger] self.polygons@[j]@ == other.polygons@[j]@,
            decreases n - i,
        {
            if !self.polygons[i].equals(&other.polygons[i]) {
                assert(self@[i as int] != other@[i as int]);
                return false;
            }
            i = i + 1;
        }
        assert(self@ =~= other@);
        true
    }
}

impl PartialEq for Polygons {
    fn eq(&self, other: &Self) -> (res: bool) {
        self.equals(other)
    }
}

impl PartialEqSpecImpl for Polygons {
    open spec fn obeys_eq_spec() -> bool {
        true
    }

    open spec fn eq_spec(&self, other: &Polygons) -> bool {
        self@ == other@
    }
}

impl Eq for Polygons {}

} // verus!
