//! Properties that hold across the operations of the library.
use vstd::prelude::*;

use crate::clipper::{Path, Polygon, Polygons};
use vstd::std_specs::cmp::PartialEqSpec;

use crate::clipper::{PathModel, PolygonModel, PolyType, Vertice};
use crate::debug::{
    path_pretty, path_text, paths_pretty, paths_text, poly_type_text, polygon_pretty,
    polygon_text, polygons_pretty, polygons_text, vertice_pretty, vertice_text, vertices_pretty,
    vertices_text,
};
use crate::text::{
    int_formatted, lemma_join_as_flatten, lemma_pretty_entries_as_flatten, spaces, IntFormat,
};

verus! {

broadcast use vstd::array::group_array_axioms;

/// `==` on paths is an equivalence relation: reflexive, symmetric and transitive.
pub proof fn lemma_path_eq_equivalence(a: Path, b: Path, c: Path)
    ensures
        a.eq_spec(&a),
        a.eq_spec(&b) == b.eq_spec(&a),
        (a.eq_spec(&b) && b.eq_spec(&c)) ==> a.eq_spec(&c),
{
}

/// `==` on polygons is an equivalence relation: reflexive, symmetric and transitive.
pub proof fn lemma_polygon_eq_equivalence(a: Polygon, b: Polygon, c: Polygon)
    ensures
        a.eq_spec(&a),
        a.eq_spec(&b) == b.eq_spec(&a),
        (a.eq_spec(&b) && b.eq_spec(&c)) ==> a.eq_spec(&c),
{
}

/// `==` on polygon collections is an equivalence relation: reflexive,
/// symmetric and transitive.
pub proof fn lemma_polygons_eq_equivalence(a: Polygons, b: Polygons, c: Polygons)
    ensures
        a.eq_spec(&a),
        a.eq_spec(&b) == b.eq_spec(&a),
        (a.eq_spec(&b) && b.eq_spec(&c)) ==> a.eq_spec(&c),
{
}

/// Two paths are equal exactly when their closed flags agree and they have
/// the same number of vertices with the same coordinates at each position.
pub proof fn lemma_path_eq_pointwise(a: Path, b: Path)
    ensures
        a@ == b@ <==> {
            &&& a.closed == b.closed
            &&& a.vertices@.len() == b.vertices@.len()
            &&& forall|i: int|
                0 <= i < a.vertices@.len() ==> #[trigger] a.vertices@[i][0] == b.vertices@[i][0]
                    && a.vertices@[i][1] == b.vertices@[i][1]
        },
{
    if a.closed == b.closed && a.vertices@.len() == b.vertices@.len() && forall|i: int|
        0 <= i < a.vertices@.len() ==> #[trigger] a.vertices@[i][0] == b.vertices@[i][0]
            && a.vertices@[i][1] == b.vertices@[i][1] {
        assert forall|i: int| 0 <= i < a.vertices@.len() implies a.vertices@[i]
            == b.vertices@[i] by {
            assert(a.vertices@[i][0] == b.vertices@[i][0]);
            assert(a.vertices@[i] =~= b.vertices@[i]);
        }
        assert(a.vertices@ =~= b.vertices@);
    }
}

/// Two polygons are equal exactly when their roles agree and they have the
/// same number of contours, equal position by position.
pub proof fn lemma_polygon_eq_pointwise(a: Polygon, b: Polygon)
    ensures
        a@ == b@ <==> {
            &&& a.type_ == b.type_
            &&& a.paths@.len() == b.paths@.len()
            &&& forall|i: int| 0 <= i < a.paths@.len() ==> #[trigger] a.paths@[i]@ == b.paths@[i]@
        },
{
    if a@ == b@ {
        assert(a.paths@.len() == a@.paths.len() && b.paths@.len() == b@.paths.len());
        assert forall|i: int| 0 <= i < a.paths@.len() implies #[trigger] a.paths@[i]@
            == b.paths@[i]@ by {
            assert(a@.paths[i] == b@.paths[i]);
        }
    }
    if a.type_ == b.type_ && a.paths@.len() == b.paths@.len() && forall|i: int|
        0 <= i < a.paths@.len() ==> #[trigger] a.paths@[i]@ == b.paths@[i]@ {
        assert(a@.paths =~= b@.paths);
    }
}

/// Two collections are equal exactly when they hold the same number of
/// polygons, equal position by position.
pub proof fn lemma_polygons_eq_pointwise(a: Polygons, b: Polygons)
    ensures
        a@ == b@ <==> {
            &&& a.polygons@.len() == b.polygons@.len()
            &&& forall|i: int|
                0 <= i < a.polygons@.len() ==> #[trigger] a.polygons@[i]@ == b.polygons@[i]@
        },
{
    if a@ == b@ {
        assert(a.polygons@.len() == a@.len() && b.polygons@.len() == b@.len());
        assert forall|i: int| 0 <= i < a.polygons@.len() implies #[trigger] a.polygons@[i]@
            == b.polygons@[i]@ by {
            assert(a@[i] == b@[i]);
        }
    }
    if a.polygons@.len() == b.polygons@.len() && forall|i: int|
        0 <= i < a.polygons@.len() ==> #[trigger] a.polygons@[i]@ == b.polygons@[i]@ {
        assert(a@ =~= b@);
    }
}

/// Equal values are rendered to the same text, compact or pretty, under any
/// formatting options and indentation.
pub proof fn lemma_equal_values_render_alike(
    p1: Path,
    p2: Path,
    q1: Polygon,
    q2: Polygon,
    r1: Polygons,
    r2: Polygons,
    o: IntFormat,
    indent: nat,
)
    ensures
        p1@ == p2@ ==> path_text(p1@, o) == path_text(p2@, o),
        p1@ == p2@ ==> path_pretty(p1@, o, indent) == path_pretty(p2@, o, indent),
        q1@ == q2@ ==> polygon_text(q1@, o) == polygon_text(q2@, o),
        q1@ == q2@ ==> polygon_pretty(q1@, o, indent) == polygon_pretty(q2@, o, indent),
        r1@ == r2@ ==> polygons_text(r1@, o) == polygons_text(r2@, o),
        r1@ == r2@ ==> polygons_pretty(r1@, o, indent) == polygons_pretty(r2@, o, indent),
{
}

/// The compact text of a list of vertices shows every one of them, in order:
/// `[]` when there is none, else `[`, the first, each later one after `, `,
/// and `]`, whatever the length of the list.
pub proof fn lemma_vertices_text_lists_every_item(vs: Seq<Vertice>, o: IntFormat)
    ensures
        vs.len() == 0 ==> vertices_text(vs, o) == "[]"@,
        vs.len() > 0 ==> vertices_text(vs, o) == "["@ + vertice_text(vs[0], o) + vs.drop_first().map_values(
            |x: Vertice| ", "@ + vertice_text(x, o),
        ).flatten() + "]"@,
{
    reveal_strlit("[]");
    reveal_strlit("[");
    reveal_strlit("]");
    let items = vs.map_values(|x: Vertice| vertice_text(x, o));
    if vs.len() == 0 {
        assert(items =~= Seq::<Seq<char>>::empty());
        assert(vertices_text(vs, o) =~= "[]"@);
    } else {
        lemma_join_as_flatten(items);
        assert(items.drop_first().map_values(|x: Seq<char>| ", "@ + x) =~= vs.drop_first().map_values(
            |x: Vertice| ", "@ + vertice_text(x, o),
        ));
    }
}

/// The compact text of a list of paths shows every one of them, in order:
/// `[]` when there is none, else `[`, the first, each later one after `, `,
/// and `]`, whatever the length of the list.
pub proof fn lemma_paths_text_lists_every_item(ps: Seq<PathModel>, o: IntFormat)
    ensures
        ps.len() == 0 ==> paths_text(ps, o) == "[]"@,
        ps.len() > 0 ==> paths_text(ps, o) == "["@ + path_text(ps[0], o) + ps.drop_first().map_values(
            |x: PathModel| ", "@ + path_text(x, o),
        ).flatten() + "]"@,
{
    reveal_strlit("[]");
    reveal_strlit("[");
    reveal_strlit("]");
    let items = ps.map_values(|x: PathModel| path_text(x, o));
    if ps.len() == 0 {
        assert(items =~= Seq::<Seq<char>>::empty());
        assert(paths_text(ps, o) =~= "[]"@);
    } else {
        lemma_join_as_flatten(items);
        assert(items.drop_first().map_values(|x: Seq<char>| ", "@ + x) =~= ps.drop_first().map_values(
            |x: PathModel| ", "@ + path_text(x, o),
        ));
    }
}

/// The compact text of a list of polygons shows every one of them, in order:
/// `[]` when there is none, else `[`, the first, each later one after `, `,
/// and `]`, whatever the length of the list.
pub proof fn lemma_polygons_text_lists_every_item(ps: Seq<PolygonModel>, o: IntFormat)
    ensures
        ps.len() == 0 ==> polygons_text(ps, o) == "[]"@,
        ps.len() > 0 ==> polygons_text(ps, o) == "["@ + polygon_text(ps[0], o) + ps.drop_first().map_values(
            |x: PolygonModel| ", "@ + polygon_text(x, o),
        ).flatten() + "]"@,
{
    reveal_strlit("[]");
    reveal_strlit("[");
    reveal_strlit("]");
    let items = ps.map_values(|x: PolygonModel| polygon_text(x, o));
    if ps.len() == 0 {
        assert(items =~= Seq::<Seq<char>>::empty());
        assert(polygons_text(ps, o) =~= "[]"@);
    } else {
        lemma_join_as_flatten(items);
        assert(items.drop_first().map_values(|x: Seq<char>| ", "@ + x) =~= ps.drop_first().map_values(
            |x: PolygonModel| ", "@ + polygon_text(x, o),
        ));
    }
}

/// The pretty text of a list of vertices shows every one of them, in order:
/// `[]` when there is none, else `[`, each on a new line indented by
/// `indent + 4` in its own pretty form and followed by `,`, then a new line
/// indented by `indent` and `]`, whatever the length of the list.
pub proof fn lemma_vertices_pretty_lists_every_item(vs: Seq<Vertice>, o: IntFormat, indent: nat)
    ensures
        vs.len() == 0 ==> vertices_pretty(vs, o, indent) == "[]"@,
        vs.len() > 0 ==> vertices_pretty(vs, o, indent) == "["@ + vs.map_values(
            |x: Vertice| "\n"@ + spaces(indent + 4) + vertice_pretty(x, o, indent + 4) + ","@,
        ).flatten() + "\n"@ + spaces(indent) + "]"@,
{
    reveal(vertices_pretty);
    let items = vs.map_values(|x: Vertice| vertice_pretty(x, o, indent + 4));
    if vs.len() > 0 {
        lemma_pretty_entries_as_flatten(items, indent);
        assert(items.map_values(|x: Seq<char>| "\n"@ + spaces(indent + 4) + x + ","@) =~= vs.map_values(
            |x: Vertice| "\n"@ + spaces(indent + 4) + vertice_pretty(x, o, indent + 4) + ","@,
        ));
    } else {
        assert(items =~= Seq::<Seq<char>>::empty());
    }
}

/// The pretty text of a list of paths shows every one of them, in order:
/// `[]` when there is none, else `[`, each on a new line indented by
/// `indent + 4` in its own pretty form and followed by `,`, then a new line
/// indented by `indent` and `]`, whatever the length of the list.
pub proof fn lemma_paths_pretty_lists_every_item(ps: Seq<PathModel>, o: IntFormat, indent: nat)
    ensures
        ps.len() == 0 ==> paths_pretty(ps, o, indent) == "[]"@,
        ps.len() > 0 ==> paths_pretty(ps, o, indent) == "["@ + ps.map_values(
            |x: PathModel| "\n"@ + spaces(indent + 4) + path_pretty(x, o, indent + 4) + ","@,
        ).flatten() + "\n"@ + spaces(indent) + "]"@,
{
    reveal(paths_pretty);
    let items = ps.map_values(|x: PathModel| path_pretty(x, o, indent + 4));
    if ps.len() > 0 {
        lemma_pretty_entries_as_flatten(items, indent);
        assert(items.map_values(|x: Seq<char>| "\n"@ + spaces(indent + 4) + x + ","@) =~= ps.map_values(
            |x: PathModel| "\n"@ + spaces(indent + 4) + path_pretty(x, o, indent + 4) + ","@,
        ));
    } else {
        assert(items =~= Seq::<Seq<char>>::empty());
    }
}

/// The pretty text of a list of polygons shows every one of them, in order:
/// `[]` when there is none, else `[`, each on a new line indented by
/// `indent + 4` in its own pretty form and followed by `,`, then a new line
/// indented by `indent` and `]`, whatever the length of the list.
pub proof fn lemma_polygons_pretty_lists_every_item(ps: Seq<PolygonModel>, o: IntFormat, indent: nat)
    ensures
        ps.len() == 0 ==> polygons_pretty(ps, o, indent) == "[]"@,
        ps.len() > 0 ==> polygons_pretty(ps, o, indent) == "["@ + ps.map_values(
            |x: PolygonModel| "\n"@ + spaces(indent + 4) + polygon_pretty(x, o, indent + 4) + ","@,
        ).flatten() + "\n"@ + spaces(indent) + "]"@,
{
    reveal(polygons_pretty);
    let items = ps.map_values(|x: PolygonModel| polygon_pretty(x, o, indent + 4));
    if ps.len() > 0 {
        lemma_pretty_entries_as_flatten(items, indent);
        assert(items.map_values(|x: Seq<char>| "\n"@ + spaces(indent + 4) + x + ","@) =~= ps.map_values(
            |x: PolygonModel| "\n"@ + spaces(indent + 4) + polygon_pretty(x, o, indent + 4) + ","@,
        ));
    } else {
        assert(items =~= Seq::<Seq<char>>::empty());
    }
}

/// A vertex is written as its two coordinates between brackets: `[x, y]`
/// compact, and each coordinate on its own line followed by `,` in the
/// pretty form.
pub proof fn lemma_vertice_shows_both_coordinates(v: Vertice, o: IntFormat, indent: nat)
    ensures
        vertice_text(v, o) == "["@ + int_formatted(v[0] as int, o, 0) + ", "@ + int_formatted(
            v[1] as int,
            o,
            0,
        ) + "]"@,
        vertice_pretty(v, o, indent) == "["@ + "\n"@ + spaces(indent + 4) + int_formatted(
            v[0] as int,
            o,
            indent + 4,
        ) + ","@ + "\n"@ + spaces(indent + 4) + int_formatted(v[1] as int, o, indent + 4) + ","@
            + "\n"@ + spaces(indent) + "]"@,
{
    reveal(vertice_pretty);
    let a = int_formatted(v[0] as int, o, indent + 4);
    let b = int_formatted(v[1] as int, o, indent + 4);
    let items = seq![a, b];
    lemma_pretty_entries_as_flatten(items, indent);
    let m = items.map_values(|x: Seq<char>| "\n"@ + spaces(indent + 4) + x + ","@);
    let e0 = "\n"@ + spaces(indent + 4) + a + ","@;
    let e1 = "\n"@ + spaces(indent + 4) + b + ","@;
    assert(m =~= seq![e0, e1]);
    assert(m.drop_first() =~= seq![e1]);
    assert(m.drop_first().drop_first() =~= Seq::<Seq<char>>::empty());
    assert(m.drop_first().drop_first().flatten() =~= Seq::<char>::empty());
    assert(m.drop_first().flatten() =~= e1);
    assert(m.flatten() =~= e0 + e1);
    assert(vertice_pretty(v, o, indent) =~= "["@ + "\n"@ + spaces(indent + 4) + a + ","@ + "\n"@
        + spaces(indent + 4) + b + ","@ + "\n"@ + spaces(indent) + "]"@);
}

/// A path is written with exactly its stored vertices, rendered as a vertex
/// list, and its closed flag: the closed flag never changes which vertices
/// are shown.
pub proof fn lemma_path_shows_its_vertices(p: PathModel, o: IntFormat, indent: nat)
    ensures
        path_text(p, o) == "Path { vertices: "@ + vertices_text(p.vertices, o) + ", closed: "@
            + int_formatted(p.closed as int, o, 0) + " }"@,
        path_pretty(p, o, indent) == "Path {"@ + "\n"@ + spaces(indent + 4) + "vertices: "@
            + vertices_pretty(p.vertices, o, indent + 4) + ","@ + "\n"@ + spaces(indent + 4)
            + "closed: "@ + int_formatted(p.closed as int, o, indent + 4) + ","@ + "\n"@ + spaces(
            indent,
        ) + "}"@,
{
    reveal(path_pretty);
    assert(path_pretty(p, o, indent) =~= "Path {"@ + "\n"@ + spaces(indent + 4) + "vertices: "@
        + vertices_pretty(p.vertices, o, indent + 4) + ","@ + "\n"@ + spaces(indent + 4)
        + "closed: "@ + int_formatted(p.closed as int, o, indent + 4) + ","@ + "\n"@ + spaces(
        indent,
    ) + "}"@);
}

/// A polygon is written with all of its contours, rendered as a path list,
/// and the name of its role: no contour (outer boundary or hole) is left out.
pub proof fn lemma_polygon_shows_all_its_paths(p: PolygonModel, o: IntFormat, indent: nat)
    ensures
        polygon_text(p, o) == "Polygon { paths: "@ + paths_text(p.paths, o) + ", type: "@
            + poly_type_text(p.type_) + " }"@,
        polygon_pretty(p, o, indent) == "Polygon {"@ + "\n"@ + spaces(indent + 4) + "paths: "@
            + paths_pretty(p.paths, o, indent + 4) + ","@ + "\n"@ + spaces(indent + 4) + "type: "@
            + poly_type_text(p.type_) + ","@ + "\n"@ + spaces(indent) + "}"@,
{
    reveal(polygon_pretty);
    assert(polygon_pretty(p, o, indent) =~= "Polygon {"@ + "\n"@ + spaces(indent + 4) + "paths: "@
        + paths_pretty(p.paths, o, indent + 4) + ","@ + "\n"@ + spaces(indent + 4) + "type: "@
        + poly_type_text(p.type_) + ","@ + "\n"@ + spaces(indent) + "}"@);
}

/// The name of a role ignores every formatting option and the indentation:
/// it is the same text in both forms.
pub proof fn lemma_poly_type_names(t: PolyType)
    ensures
        t == 0 ==> poly_type_text(t) == "ptSubject"@,
        t == 1 ==> poly_type_text(t) == "ptClip"@,
        t != 0 && t != 1 ==> poly_type_text(t) == "invalid type"@,
{
}

} // verus!
