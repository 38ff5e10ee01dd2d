use fj_kernel::builder::{SurfaceVertexBuilder, VertexBuilder};
use fj_kernel::geometry::{Curve as CurveGeometry, SurfaceGeometry, SurfacePath};
use fj_kernel::objects::{Curve, GlobalCurve, GlobalVertex, Surface, SurfaceVertex, Vertex};
use fj_kernel::partial::{
    HasPartial, MaybePartial, MissingField, PartialCurve, PartialGlobalVertex,
    PartialSurfaceVertex, PartialVertex,
};
use fj_kernel::stores::{Handle, Stores};
use fj_math::{Point, Vector};

fn surface(stores: &mut Stores) -> Handle<Surface> {
    let geometry = SurfaceGeometry { u: CurveGeometry::x_axis(), v: Vector::from([0., 1., 0.]) };
    stores.surfaces.insert(Surface::new(geometry))
}

fn path() -> SurfacePath {
    SurfacePath::Line { origin: Point::from([0., 0.]), direction: Vector::from([1., 0.]) }
}

fn curve(stores: &mut Stores) -> Curve {
    let surface = surface(stores);
    let global_form = stores.global_curves.insert(GlobalCurve);
    Curve::new(path(), surface, global_form)
}

#[test]
fn inferring_the_forms_of_a_fresh_vertex_leaves_the_position_missing() {
    let mut vertex = PartialVertex::default();
    vertex.infer_surface_form();

    let mut surface_form = match vertex.surface_form {
        MaybePartial::Partial(partial) => partial,
        MaybePartial::Full(_) => panic!("the surface form was inferred, not given"),
    };
    assert_eq!(surface_form, PartialSurfaceVertex::default());
    assert_eq!(surface_form.position, None);
    assert_eq!(surface_form.surface, None);
    assert_eq!(
        surface_form.global_form,
        MaybePartial::Partial(PartialGlobalVertex { position: None })
    );

    surface_form.infer_global_form();
    let global_form = surface_form.global_form.into_partial();
    assert_eq!(global_form.position, None);

    let missing = global_form.build().unwrap_err();
    assert_eq!(missing, MissingField::GlobalVertexPosition);
    assert!(missing.message().contains("position"));
    assert!(missing.message().contains("GlobalVertex"));
}

#[test]
fn infer_surface_form_replaces_a_given_surface_form() {
    let mut stores = Stores::new();
    let surface = surface(&mut stores);
    let given = PartialSurfaceVertex::default()
        .with_position(Some(Point::from([1., 2.])))
        .with_surface(Some(surface));
    let mut vertex = PartialVertex::default()
        .with_position(Some(Point::from([3.])))
        .with_surface_form(Some(MaybePartial::Partial(given)));
    let before = vertex;

    vertex.infer_surface_form();
    assert_eq!(vertex.surface_form, MaybePartial::Partial(PartialSurfaceVertex::default()));
    assert_eq!(vertex.position, before.position);
    assert_eq!(vertex.curve, before.curve);
}

#[test]
fn infer_surface_form_hands_back_the_builder() {
    let mut vertex = PartialVertex::default();
    vertex.infer_surface_form().position = Some(Point::from([4.]));
    assert_eq!(vertex.position, Some(Point::from([4.])));
}

#[test]
fn infer_global_form_replaces_a_given_global_form() {
    let given = GlobalVertex::from_position(Point::from([1., 2., 3.]));
    let mut vertex = PartialSurfaceVertex::default()
        .with_position(Some(Point::from([1., 2.])))
        .with_global_form(Some(MaybePartial::Full(given)));
    vertex.infer_global_form();
    assert_eq!(vertex.global_form, MaybePartial::Partial(PartialGlobalVertex::default()));
    assert_eq!(vertex.position, Some(Point::from([1., 2.])));
    vertex.infer_global_form().surface = None;
    assert_eq!(vertex.surface, None);
}

#[test]
fn a_global_vertex_is_built_from_its_position() {
    let partial = PartialGlobalVertex::default().with_position(Some(Point::from([1., 2., 3.])));
    let vertex = partial.build().unwrap();
    assert_eq!(vertex.position(), Point::from([1., 2., 3.]));
    assert_eq!(vertex, GlobalVertex::from_position(Point::from([1., 2., 3.])));
}

#[test]
fn with_position_keeps_the_position_when_none_is_given() {
    let partial = PartialGlobalVertex::default().with_position(Some(Point::from([1., 2., 3.])));
    assert_eq!(partial.with_position(None), partial);
    let replaced = partial.with_position(Some(Point::from([4., 5., 6.])));
    assert_eq!(replaced.position, Some(Point::from([4., 5., 6.])));
}

#[test]
fn a_curve_misses_its_path_first_then_its_surface_then_its_global_form() {
    let mut stores = Stores::new();
    let surface = surface(&mut stores);
    let global_form = stores.global_curves.insert(GlobalCurve);

    let partial = PartialCurve::default();
    assert_eq!(partial.build(), Err(MissingField::CurvePath));
    let partial = partial.with_surface(Some(surface)).with_global_form(Some(global_form));
    assert_eq!(partial.build(), Err(MissingField::CurvePath));
    let partial = PartialCurve::default().with_path(Some(path()));
    assert_eq!(partial.build(), Err(MissingField::CurveSurface));
    let partial = partial.with_surface(Some(surface));
    assert_eq!(partial.build(), Err(MissingField::CurveGlobalForm));
    let partial = partial.with_global_form(Some(global_form));
    assert_eq!(partial.build(), Ok(Curve::new(path(), surface, global_form)));
}

#[test]
fn a_surface_vertex_misses_its_position_first_then_its_surface_then_its_global_form() {
    let mut stores = Stores::new();
    let surface = surface(&mut stores);
    let global_form = GlobalVertex::from_position(Point::from([1., 0., 0.]));

    let partial = PartialSurfaceVertex::default();
    assert_eq!(partial.build(), Err(MissingField::SurfaceVertexPosition));
    let partial = partial.with_position(Some(Point::from([1., 0.])));
    assert_eq!(partial.build(), Err(MissingField::SurfaceVertexSurface));
    let partial = partial.with_surface(Some(surface));
    assert_eq!(partial.build(), Err(MissingField::GlobalVertexPosition));
    let partial = partial.with_global_form(Some(MaybePartial::Full(global_form)));
    let vertex = partial.build().unwrap();
    assert_eq!(vertex, SurfaceVertex::new(Point::from([1., 0.]), surface, global_form));
    assert_eq!(vertex.position(), Point::from([1., 0.]));
    assert_eq!(vertex.surface(), surface);
    assert_eq!(vertex.global_form(), global_form);
}

#[test]
fn a_surface_vertex_builds_its_partial_global_form() {
    let mut stores = Stores::new();
    let surface = surface(&mut stores);
    let global_form = PartialGlobalVertex::default().with_position(Some(Point::from([1., 0., 0.])));
    let vertex = PartialSurfaceVertex::default()
        .with_position(Some(Point::from([1., 0.])))
        .with_surface(Some(surface))
        .with_global_form(Some(MaybePartial::Partial(global_form)))
        .build()
        .unwrap();
    assert_eq!(vertex.global_form(), GlobalVertex::from_position(Point::from([1., 0., 0.])));
}

#[test]
fn a_vertex_misses_its_position_first_then_its_curve_then_its_surface_form() {
    let mut stores = Stores::new();
    let curve = curve(&mut stores);
    let global_form = GlobalVertex::from_position(Point::from([2., 0., 0.]));

    let partial = PartialVertex::default();
    assert_eq!(partial.build(), Err(MissingField::VertexPosition));
    let partial = partial.with_position(Some(Point::from([2.])));
    assert_eq!(partial.build(), Err(MissingField::CurvePath));
    let partial = partial.with_curve(Some(MaybePartial::Full(curve)));
    assert_eq!(partial.build(), Err(MissingField::SurfaceVertexPosition));

    let surface_form = PartialSurfaceVertex::default().with_position(Some(Point::from([2., 0.])));
    let partial = partial.with_surface_form(Some(MaybePartial::Partial(surface_form)));
    assert_eq!(partial.build(), Err(MissingField::GlobalVertexPosition));

    let surface_form = surface_form.with_global_form(Some(MaybePartial::Full(global_form)));
    let partial = partial.with_surface_form(Some(MaybePartial::Partial(surface_form)));
    let vertex = partial.build().unwrap();
    assert_eq!(vertex.position(), Point::from([2.]));
    assert_eq!(vertex.curve(), curve);
    assert_eq!(
        vertex.surface_form(),
        SurfaceVertex::new(Point::from([2., 0.]), curve.surface(), global_form)
    );
}

#[test]
fn a_vertex_puts_its_partial_surface_form_in_the_surface_of_its_curve() {
    let mut stores = Stores::new();
    let elsewhere = surface(&mut stores);
    let curve = curve(&mut stores);
    assert_ne!(elsewhere, curve.surface());
    let global_form = GlobalVertex::from_position(Point::from([2., 0., 0.]));
    let surface_form = PartialSurfaceVertex::default()
        .with_position(Some(Point::from([2., 0.])))
        .with_surface(Some(elsewhere))
        .with_global_form(Some(MaybePartial::Full(global_form)));
    let vertex = PartialVertex::default()
        .with_position(Some(Point::from([2.])))
        .with_curve(Some(MaybePartial::Full(curve)))
        .with_surface_form(Some(MaybePartial::Partial(surface_form)))
        .build()
        .unwrap();
    assert_eq!(vertex.surface_form().surface(), curve.surface());
}

#[test]
fn a_vertex_keeps_a_finished_surface_form_as_it_is() {
    let mut stores = Stores::new();
    let elsewhere = surface(&mut stores);
    let curve = curve(&mut stores);
    let global_form = GlobalVertex::from_position(Point::from([2., 0., 0.]));
    let surface_form = SurfaceVertex::new(Point::from([2., 0.]), elsewhere, global_form);
    let vertex = PartialVertex::default()
        .with_position(Some(Point::from([2.])))
        .with_curve(Some(MaybePartial::Full(curve)))
        .with_surface_form(Some(MaybePartial::Full(surface_form)))
        .build()
        .unwrap();
    assert_eq!(vertex, Vertex::new(Point::from([2.]), curve, surface_form));
    assert_eq!(vertex.surface_form().surface(), elsewhere);
}

#[test]
fn a_finished_object_becomes_the_partial_object_with_all_its_fields() {
    let mut stores = Stores::new();
    let curve = curve(&mut stores);
    let global_form = GlobalVertex::from_position(Point::from([2., 0., 0.]));
    let surface_form = SurfaceVertex::new(Point::from([2., 0.]), curve.surface(), global_form);
    let vertex = Vertex::new(Point::from([2.]), curve, surface_form);

    let partial = MaybePartial::Full(vertex).into_partial();
    assert_eq!(partial.position, Some(Point::from([2.])));
    assert_eq!(partial.curve, MaybePartial::Full(curve));
    assert_eq!(partial.surface_form, MaybePartial::Full(surface_form));
    assert_eq!(partial.build(), Ok(vertex));

    let partial = MaybePartial::Full(curve).into_partial();
    assert_eq!(partial.path, Some(path()));
    assert_eq!(partial.surface, Some(curve.surface()));
    assert_eq!(partial.global_form, Some(curve.global_form()));
    assert_eq!(partial.build(), Ok(curve));

    let partial = MaybePartial::Full(surface_form).into_partial();
    assert_eq!(partial.global_form, MaybePartial::Full(global_form));
    assert_eq!(partial.build(), Ok(surface_form));

    let partial = MaybePartial::Full(global_form).into_partial();
    assert_eq!(partial, PartialGlobalVertex { position: Some(Point::from([2., 0., 0.])) });
    assert_eq!(partial.build(), Ok(global_form));
}

#[test]
fn a_partial_object_is_handed_on_as_it_is() {
    let partial = PartialGlobalVertex { position: Some(Point::from([1., 1., 1.])) };
    let either: MaybePartial<GlobalVertex> = MaybePartial::Partial(partial);
    assert!(either.is_partial());
    assert!(!either.is_full());
    assert_eq!(either.into_partial(), partial);
    assert_eq!(either.into_full(), Ok(GlobalVertex::from_position(Point::from([1., 1., 1.]))));
}

#[test]
fn a_finished_object_is_finished_as_it_is() {
    let vertex = GlobalVertex::from_position(Point::from([1., 1., 1.]));
    let either = MaybePartial::Full(vertex);
    assert!(either.is_full());
    assert!(!either.is_partial());
    assert_eq!(either.into_full(), Ok(vertex));
}

#[test]
fn finishing_an_empty_partial_object_fails() {
    let either: MaybePartial<GlobalVertex> = MaybePartial::default();
    assert_eq!(either, MaybePartial::Partial(PartialGlobalVertex::default()));
    assert_eq!(either.into_full(), Err(MissingField::GlobalVertexPosition));
}

#[test]
fn empty_partial_objects_have_every_field_unset() {
    assert_eq!(GlobalVertex::partial(), PartialGlobalVertex { position: None });
    assert_eq!(
        Curve::partial(),
        PartialCurve { path: None, surface: None, global_form: None }
    );
    assert_eq!(SurfaceVertex::partial(), PartialSurfaceVertex::default());
    assert_eq!(Vertex::partial(), PartialVertex::default());
    let vertex = PartialVertex::default();
    assert_eq!(vertex.position, None);
    assert_eq!(vertex.curve, MaybePartial::Partial(PartialCurve::default()));
    assert_eq!(vertex.surface_form, MaybePartial::Partial(PartialSurfaceVertex::default()));
}

#[test]
fn to_partial_fills_every_field() {
    let vertex = GlobalVertex::from_position(Point::from([7., 8., 9.]));
    assert_eq!(vertex.to_partial().position, Some(Point::from([7., 8., 9.])));
    assert_eq!(GlobalVertex::build(vertex.to_partial()), Ok(vertex));
}

#[test]
fn each_missing_field_has_its_message() {
    assert_eq!(
        MissingField::GlobalVertexPosition.message(),
        "Can't build `GlobalVertex` without position"
    );
    assert_eq!(
        MissingField::SurfaceVertexPosition.message(),
        "Can't build `SurfaceVertex` without position"
    );
    assert_eq!(
        MissingField::SurfaceVertexSurface.message(),
        "Can't build `SurfaceVertex` without surface"
    );
    assert_eq!(MissingField::VertexPosition.message(), "Can't build `Vertex` without position");
    assert_eq!(MissingField::CurvePath.message(), "Can't build `Curve` without path");
    assert_eq!(MissingField::CurveSurface.message(), "Can't build `Curve` without surface");
    assert_eq!(MissingField::CurveGlobalForm.message(), "Can't build `Curve` without global form");
    assert_eq!(
        MissingField::PlacementPath.message(),
        "Need path to create `GlobalVertex` from curve and position"
    );
    assert_eq!(
        MissingField::PlacementSurface.message(),
        "Need surface to create `GlobalVertex` from curve and position"
    );
}

#[test]
fn finished_and_partial_objects_convert_into_either() {
    let vertex = GlobalVertex::from_position(Point::from([1., 2., 3.]));
    let either: MaybePartial<GlobalVertex> = vertex.into();
    assert_eq!(either, MaybePartial::Full(vertex));
    let either: MaybePartial<GlobalVertex> = PartialGlobalVertex::default().into();
    assert_eq!(either, MaybePartial::Partial(PartialGlobalVertex { position: None }));

    let either: MaybePartial<SurfaceVertex> = PartialSurfaceVertex::default().into();
    assert!(either.is_partial());
    let either: MaybePartial<Vertex> = PartialVertex::default().into();
    assert!(either.is_partial());
    let either: MaybePartial<Curve> = PartialCurve::default().into();
    assert_eq!(either.into_full(), Err(MissingField::CurvePath));

    let mut stores = Stores::new();
    let curve = curve(&mut stores);
    let either = MaybePartial::from(curve);
    assert_eq!(either.into_full(), Ok(curve));
}
