//! `Debug`-style rendering of the data model: each wrapper appends to a
//! `String` exactly what `{:?}` (`fmt`) or `{:#?}` (`fmt_pretty`) writes for
//! the value it wraps, under the integer options (`+`, `0`, width, fill and
//! alignment) in an `IntFormat`.
use vstd::prelude::*;

use crate::clipper::{Path, PathModel, PolyType, Polygon, PolygonModel, Polygons, Vertice};
use crate::text::{
    int_formatted, join, lemma_join_take_step, lemma_pretty_entries_take_step, list_text,
    pretty_entries, pretty_entry, pretty_list_text, push_int_with, push_spaces, spaces, IntFormat,
};

verus! {

/// Text of a vertex: `[x, y]`.
pub open spec fn vertice_text(v: Vertice, o: IntFormat) -> Seq<char> {
    "["@ + int_formatted(v[0] as int, o, 0) + ", "@ + int_formatted(v[1] as int, o, 0) + "]"@
}

/// Text of a list of vertices.
pub open spec fn vertices_text(vs: Seq<Vertice>, o: IntFormat) -> Seq<char> {
    list_text(vs.map_values(|v: Vertice| vertice_text(v, o)))
}

/// Text of a path: `Path { vertices: [..], closed: c }`.
pub open spec fn path_text(p: PathModel, o: IntFormat) -> Seq<char> {
    "Path { vertices: "@ + vertices_text(p.vertices, o) + ", closed: "@ + int_formatted(
        p.closed as int,
        o,
        0,
    ) + " }"@
}

/// Text of a list of paths.
pub open spec fn paths_text(ps: Seq<PathModel>, o: IntFormat) -> Seq<char> {
    list_text(ps.map_values(|p: PathModel| path_text(p, o)))
}

/// Name of a polygon role: `ptSubject`, `ptClip`, or `invalid type` for any other code.
pub open spec fn poly_type_text(t: PolyType) -> Seq<char> {
    if t == 0 {
        "ptSubject"@
    } else if t == 1 {
        "ptClip"@
    } else {
        "invalid type"@
    }
}

/// Text of a polygon: `Polygon { paths: [..], type: name }`.
pub open spec fn polygon_text(p: PolygonModel, o: IntFormat) -> Seq<char> {
    "Polygon { paths: "@ + paths_text(p.paths, o) + ", type: "@ + poly_type_text(p.type_) + " }"@
}

/// Text of a collection of polygons.
pub open spec fn polygons_text(ps: Seq<PolygonModel>, o: IntFormat) -> Seq<char> {
    list_text(ps.map_values(|p: PolygonModel| polygon_text(p, o)))
}

/// Pretty (`{:#?}`) text of a vertex whose lines are indented by `indent`:
/// each coordinate on a line of its own.
#[verifier::opaque]
pub open spec fn vertice_pretty(v: Vertice, o: IntFormat, indent: nat) -> Seq<char> {
    pretty_list_text(
        seq![int_formatted(v[0] as int, o, indent + 4), int_formatted(v[1] as int, o, indent + 4)],
        indent,
    )
}

/// Pretty text of a list of vertices.
#[verifier::opaque]
pub open spec fn vertices_pretty(vs: Seq<Vertice>, o: IntFormat, indent: nat) -> Seq<char> {
    pretty_list_text(vs.map_values(|v: Vertice| vertice_pretty(v, o, indent + 4)), indent)
}

/// Pretty text of a path: `Path {`, one `name: value,` line per field, `}`.
#[verifier::opaque]
pub open spec fn path_pretty(p: PathModel, o: IntFormat, indent: nat) -> Seq<char> {
    "Path {"@ + pretty_entry("vertices: "@ + vertices_pretty(p.vertices, o, indent + 4), indent)
        + pretty_entry("closed: "@ + int_formatted(p.closed as int, o, indent + 4), indent) + "\n"@
        + spaces(indent) + "}"@
}

/// Pretty text of a list of paths.
#[verifier::opaque]
pub open spec fn paths_pretty(ps: Seq<PathModel>, o: IntFormat, indent: nat) -> Seq<char> {
    pretty_list_text(ps.map_values(|p: PathModel| path_pretty(p, o, indent + 4)), indent)
}

/// Pretty text of a polygon: `Polygon {`, one `name: value,` line per field,
/// `}`; the role name is written as in the compact form.
#[verifier::opaque]
pub open spec fn polygon_pretty(p: PolygonModel, o: IntFormat, indent: nat) -> Seq<char> {
    "Polygon {"@ + pretty_entry("paths: "@ + paths_pretty(p.paths, o, indent + 4), indent)
        + pretty_entry("type: "@ + poly_type_text(p.type_), indent) + "\n"@ + spaces(indent)
        + "}"@
}

/// Pretty text of a collection of polygons.
#[verifier::opaque]
pub open spec fn polygons_pretty(ps: Seq<PolygonModel>, o: IntFormat, indent: nat) -> Seq<char> {
    pretty_list_text(ps.map_values(|p: PolygonModel| polygon_pretty(p, o, indent + 4)), indent)
}

/// Renders a collection of polygons.
pub struct PolygonsDebug<'a>(pub &'a Polygons);

/// Renders a polygon.
pub struct PolygonDebug<'a>(pub &'a Polygon);

/// Renders a path.
pub struct PathDebug<'a>(pub &'a Path);

/// Renders a list of paths.
pub struct PathsDebug<'a>(pub &'a [Path]);

/// Renders a polygon role.
pub struct PolyTypeDebug<'a>(pub &'a PolyType);

/// Renders a list of vertices.
pub struct VerticesDebug<'a>(pub &'a [Vertice]);

/// Renders a vertex.
pub struct VerticeDebug<'a>(pub &'a Vertice);

impl<'a> VerticeDebug<'a> {
    /// Appends `[x, y]`.
    pub fn fmt(&self, out: &mut String, o: &IntFormat)
        ensures
            final(out)@ == old(out)@ + vertice_text(*self.0, *o),
    {
        let v = self.0;
        out.append("[");
        push_int_with(out, v[0], o, 0);
        out.append(", ");
        push_int_with(out, v[1], o, 0);
        out.append("]");
        assert(out@ =~= old(out)@ + vertice_text(*self.0, *o));
    }
}

impl<'a> VerticeDebug<'a> {
    /// Appends the pretty form, its lines indented by `indent`: `[`, each
    /// coordinate on a line of its own followed by `,`, then `]`.
    pub fn fmt_pretty(&self, out: &mut String, o: &IntFormat, indent: usize)
        requires
            indent + 4 <= usize::MAX,
        ensures
            final(out)@ == old(out)@ + vertice_pretty(*self.0, *o, indent as nat),
    {
        reveal(vertice_pretty);
        let v = self.0;
        let ghost items = seq![
            int_formatted(v[0] as int, *o, (indent + 4) as nat),
            int_formatted(v[1] as int, *o, (indent + 4) as nat),
        ];
        let ghost start = old(out)@;
        out.append("[");
        let mut i: usize = 0;
        while i < 2
            invariant
                i <= 2,
                indent + 4 <= usize::MAX,
                items == seq![
                    int_formatted(v[0] as int, *o, (indent + 4) as nat),
                    int_formatted(v[1] as int, *o, (indent + 4) as nat),
                ],
                out@ == start + "["@ + pretty_entries(items.take(i as int), indent as nat),
            decreases 2 - i,
        {
            proof { lemma_pretty_entries_take_step(items, indent as nat, i as int); }
            let ghost before = out@;
            out.append("\n");
            push_spaces(out, indent + 4);
            push_int_with(out, v[i], o, indent + 4);
            out.append(",");
            assert(items[i as int] == int_formatted(v[i as int] as int, *o, (indent + 4) as nat));
            assert(out@ =~= before + pretty_entry(items[i as int], indent as nat));
            assert(out@ =~= start + "["@ + pretty_entries(items.take(i + 1), indent as nat));
            i = i + 1;
        }
        assert(items.take(2) =~= items);
        out.append("\n");
        push_spaces(out, indent);
        out.append("]");
        assert(out@ =~= start + vertice_pretty(*self.0, *o, indent as nat));
    }
}

impl<'a> VerticesDebug<'a> {
    /// Appends the vertices as a list.
    pub fn fmt(&self, out: &mut String, o: &IntFormat)
        ensures
            final(out)@ == old(out)@ + vertices_text(self.0@, *o),
    {
        let vs = self.0;
        let ghost items = vs@.map_values(|v: Vertice| vertice_text(v, *o));
        let ghost start = old(out)@;
        out.append("[");
        let n = vs.len();
        let mut i: usize = 0;
        while i < n
            invariant
                n == vs@.len(),
                i <= n,
                items == vs@.map_values(|v: Vertice| vertice_text(v, *o)),
                out@ == start + "["@ + join(items.take(i as int)),
            decreases n - i,
        {
            proof { lemma_join_take_step(items, i as int); }
            if i > 0 {
                out.append(", ");
            }
            VerticeDebug(&vs[i]).fmt(out, o);
            assert(out@ =~= start + "["@ + join(items.take(i + 1)));
            i = i + 1;
        }
        assert(items.take(n as int) =~= items);
        out.append("]");
        assert(out@ =~= start + vertices_text(vs@, *o));
    }

    /// Appends the pretty form, its lines indented by `indent`.
    pub fn fmt_pretty(&self, out: &mut String, o: &IntFormat, indent: usize)
        requires
            indent + 8 <= usize::MAX,
        ensures
            final(out)@ == old(out)@ + vertices_pretty(self.0@, *o, indent as nat),
    {
        reveal(vertices_pretty);
        let vs = self.0;
        let ghost items = vs@.map_values(|v: Vertice| vertice_pretty(v, *o, (indent + 4) as nat));
        let ghost start = old(out)@;
        let n = vs.len();
        if n == 0 {
            out.append("[]");
            assert(items =~= Seq::<Seq<char>>::empty());
            return;
        }
        out.append("[");
        let mut i: usize = 0;
        while i < n
            invariant
                n == vs@.len(),
                i <= n,
                indent + 8 <= usize::MAX,
                items == vs@.map_values(|v: Vertice| vertice_pretty(v, *o, (indent + 4) as nat)),
                out@ == start + "["@ + pretty_entries(items.take(i as int), indent as nat),
            decreases n - i,
        {
            proof { lemma_pretty_entries_take_step(items, indent as nat, i as int); }
            let ghost before = out@;
            out.append("\n");
            push_spaces(out, indent + 4);
            VerticeDebug(&vs[i]).fmt_pretty(out, o, indent + 4);
            out.append(",");
            assert(out@ =~= before + pretty_entry(items[i as int], indent as nat));
            assert(out@ =~= start + "["@ + pretty_entries(items.take(i + 1), indent as nat));
            i = i + 1;
        }
        assert(items.take(n as int) =~= items);
        out.append("\n");
        push_spaces(out, indent);
        out.append("]");
        assert(out@ =~= start + vertices_pretty(vs@, *o, indent as nat));
    }
}

impl<'a> PathDebug<'a> {
    /// Appends `Path { vertices: [..], closed: c }`.
    pub fn fmt(&self, out: &mut String, o: &IntFormat)
        ensures
            final(out)@ == old(out)@ + path_text(self.0@, *o),
    {
        let p = self.0;
        out.append("Path { vertices: ");
        VerticesDebug(p.vertices()).fmt(out, o);
        out.append(", closed: ");
        push_int_with(out, p.closed as i64, o, 0);
        out.append(" }");
        assert(out@ =~= old(out)@ + path_text(self.0@, *o));
    }

    /// Appends the pretty form, its lines indented by `indent`.
    pub fn fmt_pretty(&self, out: &mut String, o: &IntFormat, indent: usize)
        requires
            indent + 12 <= usize::MAX,
        ensures
            final(out)@ == old(out)@ + path_pretty(self.0@, *o, indent as nat),
    {
        reveal(path_pretty);
        let p = self.0;
        let ghost start = old(out)@;
        out.append("Path {");
        let ghost s1 = out@;
        out.append("\n");
        push_spaces(out, indent + 4);
        out.append("vertices: ");
        VerticesDebug(p.vertices()).fmt_pretty(out, o, indent + 4);
        out.append(",");
        assert(out@ =~= s1 + pretty_entry(
            "vertices: "@ + vertices_pretty(p@.vertices, *o, (indent + 4) as nat),
            indent as nat,
        ));
        let ghost s2 = out@;
        out.append("\n");
        push_spaces(out, indent + 4);
        out.append("closed: ");
        push_int_with(out, p.closed as i64, o, indent + 4);
        out.append(",");
        assert(out@ =~= s2 + pretty_entry(
            "closed: "@ + int_formatted(p.closed as int, *o, (indent + 4) as nat),
            indent as nat,
        ));
        let ghost s3 = out@;
        out.append("\n");
        push_spaces(out, indent);
        out.append("}");
        assert(out@ =~= s3 + ("\n"@ + spaces(indent as nat) + "}"@));
        assert(out@ =~= start + path_pretty(self.0@, *o, indent as nat));
    }
}

impl<'a> PathsDebug<'a> {
    /// Appends the paths as a list.
    pub fn fmt(&self, out: &mut String, o: &IntFormat)
        ensures
            final(out)@ == old(out)@ + paths_text(self.0@.map_values(|p: Path| p@), *o),
    {
        let ps = self.0;
        let ghost items = ps@.map_values(|p: Path| path_text(p@, *o));
        let ghost start = old(out)@;
        out.append("[");
        let n = ps.len();
        let mut i: usize = 0;
        while i < n
            invariant
                n == ps@.len(),
                i <= n,
                items == ps@.map_values(|p: Path| path_text(p@, *o)),
                out@ == start + "["@ + join(items.take(i as int)),
            decreases n - i,
        {
            proof { lemma_join_take_step(items, i as int); }
            if i > 0 {
                out.append(", ");
            }
            PathDebug(&ps[i]).fmt(out, o);
            assert(out@ =~= start + "["@ + join(items.take(i + 1)));
            i = i + 1;
        }
        assert(items.take(n as int) =~= items);
        out.append("]");
        assert(ps@.map_values(|p: Path| p@).map_values(|p: PathModel| path_text(p, *o)) =~= items);
        assert(out@ =~= start + paths_text(ps@.map_values(|p: Path| p@), *o));
    }

    /// Appends the pretty form, its lines indented by `indent`.
    pub fn fmt_pretty(&self, out: &mut String, o: &IntFormat, indent: usize)
        requires
            indent + 16 <= usize::MAX,
        ensures
            final(out)@ == old(out)@ + paths_pretty(self.0@.map_values(|p: Path| p@), *o, indent as nat),
    {
        reveal(paths_pretty);
        let ps = self.0;
        let ghost items = ps@.map_values(|p: Path| path_pretty(p@, *o, (indent + 4) as nat));
        let ghost start = old(out)@;
        let n = ps.len();
        assert(ps@.map_values(|p: Path| p@).map_values(
            |p: PathModel| path_pretty(p, *o, (indent + 4) as nat),
        ) =~= items);
        if n == 0 {
            out.append("[]");
            assert(items =~= Seq::<Seq<char>>::empty());
            return;
        }
        out.append("[");
        let mut i: usize = 0;
        while i < n
            invariant
                n == ps@.len(),
                i <= n,
                indent + 16 <= usize::MAX,
                items == ps@.map_values(|p: Path| path_pretty(p@, *o, (indent + 4) as nat)),
                out@ == start + "["@ + pretty_entries(items.take(i as int), indent as nat),
            decreases n - i,
        {
            proof { lemma_pretty_entries_take_step(items, indent as nat, i as int); }
            let ghost before = out@;
            out.append("\n");
            push_spaces(out, indent + 4);
            PathDebug(&ps[i]).fmt_pretty(out, o, indent + 4);
            out.append(",");
            assert(out@ =~= before + pretty_entry(items[i as int], indent as nat));
            assert(out@ =~= start + "["@ + pretty_entries(items.take(i + 1), indent as nat));
            i = i + 1;
        }
        assert(items.take(n as int) =~= items);
        out.append("\n");
        push_spaces(out, indent);
        out.append("]");
        assert(out@ =~= start + paths_pretty(ps@.map_values(|p: Path| p@), *o, indent as nat));
    }
}

impl<'a> PolyTypeDebug<'a> {
    /// Appends the name of the role.
    pub fn fmt(&self, out: &mut String, o: &IntFormat)
        ensures
            final(out)@ == old(out)@ + poly_type_text(*self.0),
    {
        let t = *self.0;
        if t == crate::clipper::PolyType_ptSubject {
            out.append("ptSubject");
        } else if t == crate::clipper::PolyType_ptClip {
            out.append("ptClip");
        } else {
            out.append("invalid type");
        }
    }

    /// Appends the pretty form: the name alone, exactly as in the compact
    /// form, whatever the indentation.
    pub fn fmt_pretty(&self, out: &mut String, o: &IntFormat, indent: usize)
        ensures
            final(out)@ == old(out)@ + poly_type_text(*self.0),
    {
        self.fmt(out, o);
    }
}

impl<'a> PolygonDebug<'a> {
    /// Appends `Polygon { paths: [..], type: name }`.
    pub fn fmt(&self, out: &mut String, o: &IntFormat)
        ensures
            final(out)@ == old(out)@ + polygon_text(self.0@, *o),
    {
        let p = self.0;
        out.append("Polygon { paths: ");
        PathsDebug(p.paths()).fmt(out, o);
        out.append(", type: ");
        PolyTypeDebug(&p.type_).fmt(out, o);
        out.append(" }");
        assert(out@ =~= old(out)@ + polygon_text(self.0@, *o));
    }

    /// Appends the pretty form, its lines indented by `indent`.
    pub fn fmt_pretty(&self, out: &mut String, o: &IntFormat, indent: usize)
        requires
            indent + 20 <= usize::MAX,
        ensures
            final(out)@ == old(out)@ + polygon_pretty(self.0@, *o, indent as nat),
    {
        reveal(polygon_pretty);
        let p = self.0;
        let ghost start = old(out)@;
        out.append("Polygon {");
        let ghost s1 = out@;
        out.append("\n");
        push_spaces(out, indent + 4);
        out.append("paths: ");
        PathsDebug(p.paths()).fmt_pretty(out, o, indent + 4);
        out.append(",");
        assert(out@ =~= s1 + pretty_entry(
            "paths: "@ + paths_pretty(p@.paths, *o, (indent + 4) as nat),
            indent as nat,
        ));
        let ghost s2 = out@;
        out.append("\n");
        push_spaces(out, indent + 4);
        out.append("type: ");
        PolyTypeDebug(&p.type_).fmt_pretty(out, o, indent + 4);
        out.append(",");
        assert(out@ =~= s2 + pretty_entry("type: "@ + poly_type_text(p.type_), indent as nat));
        let ghost s3 = out@;
        out.append("\n");
        push_spaces(out, indent);
        out.append("}");
        assert(out@ =~= s3 + ("\n"@ + spaces(indent as nat) + "}"@));
        assert(out@ =~= start + polygon_pretty(self.0@, *o, indent as nat));
    }
}

impl<'a> PolygonsDebug<'a> {
    /// Appends the polygons as a list.
    pub fn fmt(&self, out: &mut String, o: &IntFormat)
        ensures
            final(out)@ == old(out)@ + polygons_text(self.0@, *o),
    {
        let ps = self.0.polygons();
        let ghost items = ps@.map_values(|p: Polygon| polygon_text(p@, *o));
        let ghost start = old(out)@;
        out.append("[");
        let n = ps.len();
        let mut i: usize = 0;
        while i < n
            invariant
                n == ps@.len(),
                i <= n,
                items == ps@.map_values(|p: Polygon| polygon_text(p@, *o)),
                out@ == start + "["@ + join(items.take(i as int)),
            decreases n - i,
        {
            proof { lemma_join_take_step(items, i as int); }
            if i > 0 {
                out.append(", ");
            }
            PolygonDebug(&ps[i]).fmt(out, o);
            assert(out@ =~= start + "["@ + join(items.take(i + 1)));
            i = i + 1;
        }
        assert(items.take(n as int) =~= items);
        out.append("]");
        assert(self.0@.map_values(|p: PolygonModel| polygon_text(p, *o)) =~= items);
        assert(out@ =~= start + polygons_text(self.0@, *o));
    }

    /// Appends the pretty form, its lines indented by `indent`.
    pub fn fmt_pretty(&self, out: &mut String, o: &IntFormat, indent: usize)
        requires
            indent + 24 <= usize::MAX,
        ensures
            final(out)@ == old(out)@ + polygons_pretty(self.0@, *o, indent as nat),
    {
        reveal(polygons_pretty);
        let ps = self.0.polygons();
        let ghost items = ps@.map_values(|p: Polygon| polygon_pretty(p@, *o, (indent + 4) as nat));
        let ghost start = old(out)@;
        let n = ps.len();
        assert(self.0@.map_values(|p: PolygonModel| polygon_pretty(p, *o, (indent + 4) as nat))
            =~= items);
        if n == 0 {
            out.append("[]");
            assert(items =~= Seq::<Seq<char>>::empty());
            return;
        }
        out.append("[");
        let mut i: usize = 0;
        while i < n
            invariant
                n == ps@.len(),
                i <= n,
                indent + 24 <= usize::MAX,
                items == ps@.map_values(|p: Polygon| polygon_pretty(p@, *o, (indent + 4) as nat)),
                out@ == start + "["@ + pretty_entries(items.take(i as int), indent as nat),
            decreases n - i,
        {
            proof { lemma_pretty_entries_take_step(items, indent as nat, i as int); }
            let ghost before = out@;
            out.append("\n");
            push_spaces(out, indent + 4);
            PolygonDebug(&ps[i]).fmt_pretty(out, o, indent + 4);
            out.append(",");
            assert(out@ =~= before + pretty_entry(items[i as int], indent as nat));
            assert(out@ =~= start + "["@ + pretty_entries(items.take(i + 1), indent as nat));
            i = i + 1;
        }
        assert(items.take(n as int) =~= items);
        out.append("\n");
        push_spaces(out, indent);
        out.append("]");
        assert(out@ =~= start + polygons_pretty(self.0@, *o, indent as nat));
    }
}

} // verus!
