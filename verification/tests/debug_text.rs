use std::fmt;

use clipper_sys::clipper::{PolyType, PolyType_ptClip, PolyType_ptSubject};
use clipper_sys::debug::{
    PathDebug, PathsDebug, PolyTypeDebug, PolygonDebug, PolygonsDebug, VerticeDebug,
    VerticesDebug,
};
use clipper_sys::text::{Align, IntFormat};
use clipper_sys::{Path, Polygon, Polygons, Vertice};

// Reference renderers written with std's own `Debug` builders.
struct RefVertice<'a>(&'a Vertice);
struct RefVertices<'a>(&'a [Vertice]);
struct RefPath<'a>(&'a Path);
struct RefPaths<'a>(&'a [Path]);
struct RefPolyType<'a>(&'a PolyType);
struct RefPolygon<'a>(&'a Polygon);
struct RefPolygons<'a>(&'a Polygons);

impl<'a> fmt::Debug for RefVertice<'a> {
    fn fmt(&self, f: &mut fmt::Formatter) -> fmt::Result {
        f.debug_list().entry(&self.0[0]).entry(&self.0[1]).finish()
    }
}
impl<'a> fmt::Debug for RefVertices<'a> {
    fn fmt(&self, f: &mut fmt::Formatter) -> fmt::Result {
        f.debug_list().entries(self.0.iter().map(RefVertice)).finish()
    }
}
impl<'a> fmt::Debug for RefPath<'a> {
    fn fmt(&self, f: &mut fmt::Formatter) -> fmt::Result {
        f.debug_struct("Path")
            .field("vertices", &RefVertices(self.0.vertices()))
            .field("closed", &self.0.closed)
            .finish()
    }
}
impl<'a> fmt::Debug for RefPaths<'a> {
    fn fmt(&self, f: &mut fmt::Formatter) -> fmt::Result {
        f.debug_list().entries(self.0.iter().map(RefPath)).finish()
    }
}
impl<'a> fmt::Debug for RefPolyType<'a> {
    fn fmt(&self, f: &mut fmt::Formatter) -> fmt::Result {
        f.write_str(match *self.0 {
            PolyType_ptSubject => "ptSubject",
            PolyType_ptClip => "ptClip",
            _ => "invalid type",
        })
    }
}
impl<'a> fmt::Debug for RefPolygon<'a> {
    fn fmt(&self, f: &mut fmt::Formatter) -> fmt::Result {
        f.debug_struct("Polygon")
            .field("paths", &RefPaths(self.0.paths()))
            .field("type", &RefPolyType(&self.0.type_))
            .finish()
    }
}
impl<'a> fmt::Debug for RefPolygons<'a> {
    fn fmt(&self, f: &mut fmt::Formatter) -> fmt::Result {
        f.debug_list().entries(self.0.polygons().iter().map(RefPolygon)).finish()
    }
}

fn options(f: &fmt::Formatter) -> IntFormat {
    IntFormat {
        sign_plus: f.sign_plus(),
        zero_pad: f.sign_aware_zero_pad(),
        width: f.width(),
        fill: f.fill(),
        align: match f.align() {
            Some(fmt::Alignment::Left) => Align::Left,
            Some(fmt::Alignment::Right) => Align::Right,
            Some(fmt::Alignment::Center) => Align::Center,
            None => Align::Unspecified,
        },
    }
}

// The library's renderers behind `Debug`, choosing the form by the `#` flag.
struct Lib<T>(T);

impl<'a> fmt::Debug for Lib<&'a Polygons> {
    fn fmt(&self, f: &mut fmt::Formatter) -> fmt::Result {
        let mut s = String::new();
        if f.alternate() {
            PolygonsDebug(self.0).fmt_pretty(&mut s, &options(f), 0);
        } else {
            PolygonsDebug(self.0).fmt(&mut s, &options(f));
        }
        f.write_str(&s)
    }
}
impl<'a> fmt::Debug for Lib<&'a Polygon> {
    fn fmt(&self, f: &mut fmt::Formatter) -> fmt::Result {
        let mut s = String::new();
        if f.alternate() {
            PolygonDebug(self.0).fmt_pretty(&mut s, &options(f), 0);
        } else {
            PolygonDebug(self.0).fmt(&mut s, &options(f));
        }
        f.write_str(&s)
    }
}
impl<'a> fmt::Debug for Lib<&'a Path> {
    fn fmt(&self, f: &mut fmt::Formatter) -> fmt::Result {
        let mut s = String::new();
        if f.alternate() {
            PathDebug(self.0).fmt_pretty(&mut s, &options(f), 0);
        } else {
            PathDebug(self.0).fmt(&mut s, &options(f));
        }
        f.write_str(&s)
    }
}
impl<'a> fmt::Debug for Lib<&'a [Path]> {
    fn fmt(&self, f: &mut fmt::Formatter) -> fmt::Result {
        let mut s = String::new();
        if f.alternate() {
            PathsDebug(self.0).fmt_pretty(&mut s, &options(f), 0);
        } else {
            PathsDebug(self.0).fmt(&mut s, &options(f));
        }
        f.write_str(&s)
    }
}
impl<'a> fmt::Debug for Lib<&'a [Vertice]> {
    fn fmt(&self, f: &mut fmt::Formatter) -> fmt::Result {
        let mut s = String::new();
        if f.alternate() {
            VerticesDebug(self.0).fmt_pretty(&mut s, &options(f), 0);
        } else {
            VerticesDebug(self.0).fmt(&mut s, &options(f));
        }
        f.write_str(&s)
    }
}
impl<'a> fmt::Debug for Lib<&'a Vertice> {
    fn fmt(&self, f: &mut fmt::Formatter) -> fmt::Result {
        let mut s = String::new();
        if f.alternate() {
            VerticeDebug(self.0).fmt_pretty(&mut s, &options(f), 0);
        } else {
            VerticeDebug(self.0).fmt(&mut s, &options(f));
        }
        f.write_str(&s)
    }
}
impl<'a> fmt::Debug for Lib<&'a PolyType> {
    fn fmt(&self, f: &mut fmt::Formatter) -> fmt::Result {
        let mut s = String::new();
        if f.alternate() {
            PolyTypeDebug(self.0).fmt_pretty(&mut s, &options(f), 0);
        } else {
            PolyTypeDebug(self.0).fmt(&mut s, &options(f));
        }
        f.write_str(&s)
    }
}

/// Renders both values under a range of flag combinations and compares.
fn same_under_all_flags(lib: &dyn fmt::Debug, reference: &dyn fmt::Debug) {
    let pairs = [
        (format!("{:?}", lib), format!("{:?}", reference)),
        (format!("{:#?}", lib), format!("{:#?}", reference)),
        (format!("{:+?}", lib), format!("{:+?}", reference)),
        (format!("{:+#?}", lib), format!("{:+#?}", reference)),
        (format!("{:5?}", lib), format!("{:5?}", reference)),
        (format!("{:<5?}", lib), format!("{:<5?}", reference)),
        (format!("{:^6?}", lib), format!("{:^6?}", reference)),
        (format!("{:*>7?}", lib), format!("{:*>7?}", reference)),
        (format!("{:05?}", lib), format!("{:05?}", reference)),
        (format!("{:+08?}", lib), format!("{:+08?}", reference)),
        (format!("{:#^9?}", lib), format!("{:#^9?}", reference)),
        (format!("{:#06?}", lib), format!("{:#06?}", reference)),
        (format!("{:1?}", lib), format!("{:1?}", reference)),
        (format!("{:.3?}", lib), format!("{:.3?}", reference)),
    ];
    for (a, b) in pairs.iter() {
        assert_eq!(a, b);
    }
}

fn sample_polygons() -> Polygons {
    Polygons::new(vec![
        Polygon::new(
            vec![
                Path::new(vec![[240, 200], [-190, 200], [190, -150]], 1),
                Path::new(vec![[200, 190]], 0),
                Path::new(vec![], -3),
            ],
            PolyType_ptSubject,
        ),
        Polygon::new(vec![], PolyType_ptClip),
        Polygon::new(vec![Path::new(vec![[i64::MIN, i64::MAX]], 1)], 9),
    ])
}

fn plain_text(p: &Polygons) -> String {
    let mut s = String::new();
    PolygonsDebug(p).fmt(&mut s, &IntFormat::plain());
    s
}

#[test]
fn vertice_text() {
    let mut s = String::new();
    VerticeDebug(&[1, -2]).fmt(&mut s, &IntFormat::plain());
    assert_eq!(s, "[1, -2]");
    let extremes = [i64::MIN, i64::MAX];
    let mut t = String::new();
    VerticeDebug(&extremes).fmt(&mut t, &IntFormat::plain());
    assert_eq!(t, format!("{:?}", extremes));
    same_under_all_flags(&Lib(&[1i64, -2]), &RefVertice(&[1, -2]));
    same_under_all_flags(&Lib(&extremes), &RefVertice(&extremes));
}

#[test]
fn vertice_pretty_text() {
    let mut s = String::new();
    VerticeDebug(&[1, 2]).fmt_pretty(&mut s, &IntFormat::plain(), 0);
    assert_eq!(s, "[\n    1,\n    2,\n]");
    let mut t = String::new();
    VerticeDebug(&[1, 2]).fmt_pretty(&mut t, &IntFormat::plain(), 2);
    assert_eq!(t, "[\n      1,\n      2,\n  ]");
}

#[test]
fn vertices_text_matches_std() {
    let vs: Vec<Vertice> = vec![[205, 98], [-205, 202], [0, -1000000]];
    let mut s = String::new();
    VerticesDebug(&vs).fmt(&mut s, &IntFormat::plain());
    assert_eq!(s, format!("{:?}", vs));
    let mut p = String::new();
    VerticesDebug(&vs).fmt_pretty(&mut p, &IntFormat::plain(), 0);
    assert_eq!(p, format!("{:#?}", vs));
    same_under_all_flags(&Lib(vs.as_slice()), &RefVertices(&vs));
}

#[test]
fn empty_lists_are_brackets_in_both_forms() {
    let none: Vec<Vertice> = vec![];
    let mut s = String::new();
    VerticesDebug(&none).fmt(&mut s, &IntFormat::plain());
    assert_eq!(s, "[]");
    let mut p = String::new();
    VerticesDebug(&none).fmt_pretty(&mut p, &IntFormat::plain(), 0);
    assert_eq!(p, "[]");
    let empty = Polygons::new(vec![]);
    assert_eq!(format!("{:?}", Lib(&empty)), "[]");
    assert_eq!(format!("{:#?}", Lib(&empty)), "[]");
    same_under_all_flags(&Lib(&empty), &RefPolygons(&empty));
}

#[test]
fn text_is_appended_after_existing_content() {
    let mut s = String::from("vertex: ");
    VerticeDebug(&[3, 4]).fmt(&mut s, &IntFormat::plain());
    assert_eq!(s, "vertex: [3, 4]");
}

#[test]
fn path_text() {
    let p = Path::new(vec![[180, 200], [260, 200]], 1);
    assert_eq!(
        format!("{:?}", Lib(&p)),
        "Path { vertices: [[180, 200], [260, 200]], closed: 1 }"
    );
    assert_eq!(
        format!("{:#?}", Lib(&p)),
        "Path {\n    vertices: [\n        [\n            180,\n            200,\n        ],\n        [\n            260,\n            200,\n        ],\n    ],\n    closed: 1,\n}"
    );
    same_under_all_flags(&Lib(&p), &RefPath(&p));
    let open = Path::new(vec![], -3);
    assert_eq!(format!("{:?}", Lib(&open)), "Path { vertices: [], closed: -3 }");
    same_under_all_flags(&Lib(&open), &RefPath(&open));
    let both = [open.clone(), p.clone()];
    assert_eq!(
        format!("{:?}", Lib(&both[..])),
        "[Path { vertices: [], closed: -3 }, Path { vertices: [[180, 200], [260, 200]], closed: 1 }]"
    );
    same_under_all_flags(&Lib(&both[..]), &RefPaths(&both));
}

#[test]
fn poly_type_text() {
    for t in [PolyType_ptSubject, PolyType_ptClip, 2, 77].iter() {
        same_under_all_flags(&Lib(t), &RefPolyType(t));
    }
    assert_eq!(format!("{:#?}", Lib(&PolyType_ptClip)), "ptClip");
    assert_eq!(format!("{:>12?}", Lib(&PolyType_ptSubject)), "ptSubject");
    assert_eq!(format!("{:?}", Lib(&77u32)), "invalid type");
}

#[test]
fn polygon_text() {
    let poly = Polygon::new(vec![Path::new(vec![[1, 2]], 1)], PolyType_ptClip);
    assert_eq!(
        format!("{:?}", Lib(&poly)),
        "Polygon { paths: [Path { vertices: [[1, 2]], closed: 1 }], type: ptClip }"
    );
    same_under_all_flags(&Lib(&poly), &RefPolygon(&poly));
    let bare = Polygon::new(vec![], PolyType_ptClip);
    assert_eq!(format!("{:#?}", Lib(&bare)), "Polygon {\n    paths: [],\n    type: ptClip,\n}");
    assert_eq!(format!("{:?}", Lib(&bare)), "Polygon { paths: [], type: ptClip }");
}

#[test]
fn polygons_text() {
    let all = sample_polygons();
    assert_eq!(
        plain_text(&all),
        "[Polygon { paths: [Path { vertices: [[240, 200], [-190, 200], [190, -150]], closed: 1 }, \
         Path { vertices: [[200, 190]], closed: 0 }, Path { vertices: [], closed: -3 }], type: ptSubject }, \
         Polygon { paths: [], type: ptClip }, \
         Polygon { paths: [Path { vertices: [[-9223372036854775808, 9223372036854775807]], closed: 1 }], type: invalid type }]"
    );
    same_under_all_flags(&Lib(&all), &RefPolygons(&all));
}

#[test]
fn pretty_text_nests_inside_outer_pretty_output() {
    let all = sample_polygons();
    let lib = vec![Lib(&all), Lib(&all)];
    let reference = vec![RefPolygons(&all), RefPolygons(&all)];
    assert_eq!(format!("{:#?}", lib), format!("{:#?}", reference));
    assert_eq!(format!("{:+#07?}", lib), format!("{:+#07?}", reference));
}

#[test]
fn integer_options() {
    let v: Vertice = [42, -7];
    let with = |o: IntFormat| {
        let mut s = String::new();
        VerticeDebug(&v).fmt(&mut s, &o);
        s
    };
    let plain = IntFormat::plain();
    assert_eq!(with(IntFormat { sign_plus: true, ..plain }), "[+42, -7]");
    assert_eq!(with(IntFormat { width: Some(4), ..plain }), "[  42,   -7]");
    assert_eq!(with(IntFormat { width: Some(4), align: Align::Left, ..plain }), "[42  , -7  ]");
    assert_eq!(
        with(IntFormat { width: Some(5), align: Align::Center, fill: '*', ..plain }),
        "[*42**, *-7**]"
    );
    assert_eq!(with(IntFormat { width: Some(4), zero_pad: true, ..plain }), "[0042, -007]");
    assert_eq!(with(IntFormat { width: Some(1), ..plain }), "[42, -7]");
}

#[test]
fn newline_fill_is_indented_in_pretty_form() {
    let v: Vertice = [3, 4];
    let o = IntFormat { width: Some(3), fill: '\n', align: Align::Left, ..IntFormat::plain() };
    let mut s = String::new();
    VerticeDebug(&v).fmt_pretty(&mut s, &o, 0);
    assert_eq!(s, "[\n    3\n    \n    ,\n    4\n    \n    ,\n]");
    let mut c = String::new();
    VerticeDebug(&v).fmt(&mut c, &o);
    assert_eq!(c, "[3\n\n, 4\n\n]");
}

#[test]
fn equal_values_render_alike() {
    let a = Path::new(vec![[5, -6], [7, 8]], 1);
    let b = Path::new(vec![[5, -6], [7, 8]], 1);
    assert!(a == b);
    assert_eq!(format!("{:?}", Lib(&a)), format!("{:?}", Lib(&b)));
    assert_eq!(format!("{:#?}", Lib(&a)), format!("{:#?}", Lib(&b)));
    let c = Polygons::new(vec![Polygon::new(vec![a.clone()], PolyType_ptSubject)]);
    let d = Polygons::new(vec![Polygon::new(vec![b.clone()], PolyType_ptSubject)]);
    assert!(c == d);
    assert_eq!(plain_text(&c), plain_text(&d));
    assert_eq!(format!("{:#?}", Lib(&c)), format!("{:#?}", Lib(&d)));
}

#[test]
fn newline_fill_matches_std() {
    let all = sample_polygons();
    assert_eq!(format!("{:\n<3?}", Lib(&all)), format!("{:\n<3?}", RefPolygons(&all)));
    assert_eq!(format!("{:\n^#4?}", Lib(&all)), format!("{:\n^#4?}", RefPolygons(&all)));
    let v: Vertice = [3, 4];
    assert_eq!(format!("{:\n<#3?}", Lib(&v)), format!("{:\n<#3?}", RefVertice(&v)));
}
