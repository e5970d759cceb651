//! Surfaces a ray can hit, the record of a hit, and the scene that finds the
//! closest one.

use crate::materials::Material;
use crate::scalar::Scalar;
use crate::scalar::INFINITY_BITS;
use crate::vec::Point;
use crate::vec::Ray;
use crate::vec::Vec3;
use std::ops::Neg;
use std::sync::Arc;
use vstd::prelude::*;

verus! {

/// `tmin < t < tmax`, as numbers: the open interval a query searches.
pub open spec fn strictly_inside(t: Scalar, tmin: Scalar, tmax: Scalar) -> bool {
    tmin.lt_spec(t) && t.lt_spec(tmax)
}

/// Where a ray met a surface, without the surface's material: what a material
/// reads when it scatters the ray.
#[derive(Clone, Copy, Debug)]
pub struct Intersection {
    pub point: Point,
    pub t: Scalar,
    /// Turned against the incoming ray.
    pub normal: Vec3,
    /// Whether the ray came from outside the surface.
    pub is_outside: bool,
}

/// The result of one intersection query.
pub struct HitRecord {
    pub point: Point,
    pub t: Scalar,
    pub normal: Vec3,
    pub is_outside: bool,
    pub material: Shared<dyn Material>,
}

/// A counted handle to a value that many surfaces and hit records share and
/// none of them changes.
pub struct Shared<T: ?Sized> {
    pub handle: Arc<T>,
}

/// `Arc::clone`: one more handle to the same value.
#[verifier::external_body]
fn arc_clone<T: ?Sized>(handle: &Arc<T>) -> (shared: Arc<T>)
    ensures
        shared == *handle,
{
    Arc::clone(handle)
}

impl<T: ?Sized> Shared<T> {
    pub fn new(handle: Arc<T>) -> (shared: Self)
        ensures
            shared.handle == handle,
    {
        Shared { handle }
    }

    /// One more handle to the same value.
    pub fn share(&self) -> (shared: Self)
        ensures
            shared == *self,
    {
        Shared { handle: arc_clone(&self.handle) }
    }

    pub fn get<'a>(&'a self) -> (value: &'a T)
        ensures
            value == self.handle,
    {
        &*self.handle
    }
}

impl HitRecord {
    pub open spec fn intersection_spec(&self) -> Intersection {
        Intersection {
            point: self.point,
            t: self.t,
            normal: self.normal,
            is_outside: self.is_outside,
        }
    }

    pub fn point<'a>(&'a self) -> (point: &'a Point)
        ensures
            *point == self.point,
    {
        &self.point
    }

    pub fn normal<'a>(&'a self) -> (normal: &'a Vec3)
        ensures
            *normal == self.normal,
    {
        &self.normal
    }

    pub fn material<'a>(&'a self) -> (material: &'a Shared<dyn Material>)
        ensures
            *material == self.material,
    {
        &self.material
    }

    /// The record without its material.
    pub fn intersection(&self) -> (i: Intersection)
        ensures
            i == self.intersection_spec(),
    {
        Intersection {
            point: self.point,
            t: self.t,
            normal: self.normal,
            is_outside: self.is_outside,
        }
    }
}

/// A surface that answers intersection queries.
///
/// The arithmetic of an intersection is floating point, so surfaces are
/// implemented outside this crate, where nothing holds them to the contract
/// of `hit`: an implementation there gives `hit_spec` the body of `hit`, and
/// must itself see to it that a hit lies strictly inside the interval.
/// `Sphere::hit_from`, `Triangle::hit_from` and `Square::hit_from` decide so.
pub trait Hittable: Send + Sync {
    /// The answer of `hit`. A surface does not change and draws no random
    /// numbers, so its answer is a function of the surface and the query.
    spec fn hit_spec(&self, ray: Ray, tmin: Scalar, tmax: Scalar) -> Option<HitRecord>;

    /// The point where `ray` meets the surface at a parameter strictly inside
    /// `(tmin, tmax)`, if there is one.
    fn hit(&self, ray: &Ray, tmin: Scalar, tmax: Scalar) -> (hit: Option<HitRecord>)
        ensures
            hit == self.hit_spec(*ray, tmin, tmax),
            hit matches Some(h) ==> strictly_inside(h.t, tmin, tmax),
    ;
}

/// The upper end of the interval that is left to search once `found` is known.
pub open spec fn bound_after(found: Option<HitRecord>, tmax: Scalar) -> Scalar {
    match found {
        Some(h) => h.t,
        None => tmax,
    }
}

/// The hit a scan of `items` ends with: each surface in turn is asked for a hit
/// below the closest one found before it, and a hit it reports replaces that
/// one.
pub open spec fn closest_hit(
    items: Seq<Box<dyn Hittable>>,
    ray: Ray,
    tmin: Scalar,
    tmax: Scalar,
) -> Option<HitRecord>
    decreases items.len(),
{
    if items.len() == 0 {
        None
    } else {
        let before = closest_hit(items.drop_last(), ray, tmin, tmax);
        match items.last().hit_spec(ray, tmin, bound_after(before, tmax)) {
            Some(h) => Some(h),
            None => before,
        }
    }
}

/// The first hit of `ray` on a surface beyond `tmin`, however far.
pub open spec fn first_hit<H: Hittable + ?Sized>(item: &H, ray: Ray, tmin: Scalar) -> Option<
    HitRecord,
> {
    item.hit_spec(ray, tmin, Scalar::of(INFINITY_BITS))
}

/// `found`, if it lies below `bound`.
pub open spec fn below(found: Option<HitRecord>, bound: Scalar) -> Option<HitRecord> {
    match found {
        Some(h) => if h.t.lt_spec(bound) {
            Some(h)
        } else {
            None
        },
        None => None,
    }
}

/// A surface that answers a query with an upper bound by its first hit, if
/// that lies below the bound, and whose first hit lies beyond `tmin`.
pub open spec fn answers_with_first_hit<H: Hittable + ?Sized>(item: &H, ray: Ray, tmin: Scalar) -> bool {
    &&& forall|tmax: Scalar|
        #![trigger item.hit_spec(ray, tmin, tmax)]
        item.hit_spec(ray, tmin, tmax) == below(first_hit(item, ray, tmin), tmax)
    &&& first_hit(item, ray, tmin) matches Some(h) ==> tmin.lt_spec(h.t)
}

/// The scan finds the closest hit of all. Where every surface answers with its
/// first hit, the hit that the scan ends with lies strictly inside the
/// interval, is the first hit of one of the surfaces, and no surface has a
/// first hit that is closer; and where the scan ends with no hit, no surface
/// has a first hit below `tmax`.
pub proof fn lemma_scan_finds_closest(
    items: Seq<Box<dyn Hittable>>,
    ray: Ray,
    tmin: Scalar,
    tmax: Scalar,
)
    requires
        forall|i: int| 0 <= i < items.len() ==> #[trigger] answers_with_first_hit(&*items[i], ray, tmin),
    ensures
        match closest_hit(items, ray, tmin, tmax) {
            Some(h) => {
                &&& strictly_inside(h.t, tmin, tmax)
                &&& exists|k: int|
                    0 <= k < items.len() && #[trigger] first_hit(&*items[k], ray, tmin) == Some(h)
                &&& forall|j: int|
                    0 <= j < items.len() ==> (#[trigger] first_hit(&*items[j], ray, tmin) matches Some(g)
                        ==> !g.t.lt_spec(h.t))
            },
            None => forall|j: int|
                0 <= j < items.len() ==> (#[trigger] first_hit(&*items[j], ray, tmin) matches Some(g)
                    ==> !g.t.lt_spec(tmax)),
        },
    decreases items.len(),
{
    if items.len() > 0 {
        let earlier = items.drop_last();
        let last = items.last();
        assert(last == items[items.len() - 1]);
        assert(answers_with_first_hit(&*items[items.len() - 1], ray, tmin));
        assert forall|i: int| 0 <= i < earlier.len() implies #[trigger] answers_with_first_hit(
            &*earlier[i],
            ray,
            tmin,
        ) by {
            assert(earlier[i] == items[i]);
            assert(answers_with_first_hit(&*items[i], ray, tmin));
        }
        lemma_scan_finds_closest(earlier, ray, tmin, tmax);
        let before = closest_hit(earlier, ray, tmin, tmax);
        let bound = bound_after(before, tmax);
        let answer = last.hit_spec(ray, tmin, bound);
        assert(answer == below(first_hit(&*last, ray, tmin), bound));
        match closest_hit(items, ray, tmin, tmax) {
            Some(h) => {
                if answer is Some {
                    assert(first_hit(&*items[items.len() - 1], ray, tmin) == Some(h));
                } else {
                    assert(before == Some(h));
                    let k = choose|k: int|
                        0 <= k < earlier.len() && #[trigger] first_hit(&*earlier[k], ray, tmin) == Some(h);
                    assert(earlier[k] == items[k]);
                    assert(first_hit(&*items[k], ray, tmin) == Some(h));
                }
                assert forall|j: int| 0 <= j < items.len() implies (#[trigger] first_hit(
                    &*items[j],
                    ray,
                    tmin,
                ) matches Some(g) ==> !g.t.lt_spec(h.t)) by {
                    if j < earlier.len() {
                        assert(earlier[j] == items[j]);
                        assert(first_hit(&*earlier[j], ray, tmin) == first_hit(&*items[j], ray, tmin));
                    }
                }
            },
            None => {
                assert forall|j: int| 0 <= j < items.len() implies (#[trigger] first_hit(
                    &*items[j],
                    ray,
                    tmin,
                ) matches Some(g) ==> !g.t.lt_spec(tmax)) by {
                    if j < earlier.len() {
                        assert(earlier[j] == items[j]);
                        assert(first_hit(&*earlier[j], ray, tmin) == first_hit(&*items[j], ray, tmin));
                    }
                }
            },
        }
    }
}

/// A scene: surfaces in the order in which they were added.
pub struct Hittables {
    items: Vec<Box<dyn Hittable>>,
}

impl Hittables {
    pub closed spec fn view(&self) -> Seq<Box<dyn Hittable>> {
        self.items@
    }

    pub fn new() -> (scene: Self)
        ensures
            scene@ == Seq::<Box<dyn Hittable>>::empty(),
    {
        Self { items: Vec::new() }
    }

    pub fn push(&mut self, item: Box<dyn Hittable>)
        ensures
            final(self)@ == old(self)@.push(item),
    {
        self.items.push(item);
    }

    /// The closest hit of `ray` strictly inside `(tmin, tmax)`, by a scan of
    /// all surfaces. An empty scene is never hit.
    pub fn hit(&self, ray: &Ray, tmin: Scalar, tmax: Scalar) -> (hit: Option<HitRecord>)
        ensures
            hit == closest_hit(self@, *ray, tmin, tmax),
            hit matches Some(h) ==> strictly_inside(h.t, tmin, tmax),
            self@.len() == 0 ==> hit is None,
    {
        let mut record: Option<HitRecord> = None;
        let mut closest = tmax;
        let mut i: usize = 0;
        while i < self.items.len()
            invariant
                i <= self.items.len(),
                record == closest_hit(self@.take(i as int), *ray, tmin, tmax),
                closest == bound_after(record, tmax),
                record matches Some(h) ==> strictly_inside(h.t, tmin, tmax),
            decreases self.items.len() - i,
        {
            proof {
                let upto = self@.take(i as int + 1);
                assert(upto.drop_last() == self@.take(i as int));
                assert(upto.last() == self@[i as int]);
            }
            match self.items[i].hit(ray, tmin, closest) {
                Some(h) => {
                    closest = h.t;
                    record = Some(h);
                },
                None => {},
            }
            i += 1;
        }
        proof {
            assert(self@.take(i as int) == self@);
        }
        record
    }

    pub fn pop(&mut self) -> (item: Option<Box<dyn Hittable>>)
        ensures
            old(self)@.len() == 0 ==> item is None && final(self)@ == old(self)@,
            old(self)@.len() > 0 ==> item == Some(old(self)@.last()) && final(self)@ == old(
                self,
            )@.drop_last(),
    {
        self.items.pop()
    }
}

/// A scene is a surface too: its hit is the closest hit of its surfaces.
impl Hittable for Hittables {
    open spec fn hit_spec(&self, ray: Ray, tmin: Scalar, tmax: Scalar) -> Option<HitRecord> {
        closest_hit(self@, ray, tmin, tmax)
    }

    fn hit(&self, ray: &Ray, tmin: Scalar, tmax: Scalar) -> (hit: Option<HitRecord>) {
        Hittables::hit(self, ray, tmin, tmax)
    }
}

/// One of the two places where the line of a ray meets a sphere.
#[derive(Clone, Copy, Debug)]
pub struct Crossing {
    pub t: Scalar,
    pub point: Point,
    /// From the centre to `point`, divided by the radius.
    pub outward_normal: Vec3,
    /// The ray's direction times `outward_normal`: negative when the ray
    /// arrives from outside.
    pub cosine: Scalar,
}

/// A sphere. The radius is meant to be positive.
pub struct Sphere {
    pub center: Vec3,
    pub radius: Scalar,
    pub material: Shared<dyn Material>,
}

impl Sphere {
    pub fn new(center: Vec3, radius: Scalar, material: Shared<dyn Material>) -> (sphere: Self)
        ensures
            sphere.center == center,
            sphere.radius == radius,
            sphere.material == material,
    {
        Self { center, radius, material }
    }

    /// The record of a crossing: the normal is the outward one when the ray
    /// comes from outside, and its negation when the ray started inside.
    pub open spec fn record_of(&self, crossing: Crossing) -> HitRecord {
        let is_outside = crossing.cosine.lt_spec(Scalar::of(0));
        HitRecord {
            point: crossing.point,
            t: crossing.t,
            normal: if is_outside {
                crossing.outward_normal
            } else {
                crossing.outward_normal.negated()
            },
            is_outside,
            material: self.material,
        }
    }

    /// Which crossing is the hit: none when the interval is empty or the
    /// discriminant is negative; else the near one if its parameter lies
    /// strictly inside the interval; else the far one under the same test.
    pub open spec fn hit_from_spec(
        &self,
        tmin: Scalar,
        tmax: Scalar,
        discriminant: Scalar,
        near: Crossing,
        far: Crossing,
    ) -> Option<HitRecord> {
        if tmax.lt_spec(tmin) || discriminant.lt_spec(Scalar::of(0)) {
            None
        } else if strictly_inside(near.t, tmin, tmax) {
            Some(self.record_of(near))
        } else if strictly_inside(far.t, tmin, tmax) {
            Some(self.record_of(far))
        } else {
            None
        }
    }

    /// A sphere answers with its first hit: with the near crossing at the
    /// smaller root, its hit below an upper bound is its hit on the whole
    /// half-line, if that lies below the bound; and that hit lies beyond
    /// `tmin`.
    pub proof fn lemma_answers_with_first_hit(
        &self,
        tmin: Scalar,
        tmax: Scalar,
        discriminant: Scalar,
        near: Crossing,
        far: Crossing,
    )
        requires
            !far.t.lt_spec(near.t),
        ensures
            self.hit_from_spec(tmin, tmax, discriminant, near, far) == below(
                self.hit_from_spec(tmin, Scalar::of(INFINITY_BITS), discriminant, near, far),
                tmax,
            ),
            self.hit_from_spec(tmin, Scalar::of(INFINITY_BITS), discriminant, near, far) matches Some(h)
                ==> tmin.lt_spec(h.t),
    {
    }

    fn record(&self, crossing: &Crossing) -> (record: HitRecord)
        ensures
            record == self.record_of(*crossing),
    {
        let is_outside = crossing.cosine < Scalar::zero();
        HitRecord {
            point: crossing.point,
            t: crossing.t,
            normal: if is_outside {
                crossing.outward_normal
            } else {
                crossing.outward_normal.neg()
            },
            is_outside,
            material: self.material.share(),
        }
    }

    /// The hit of a ray on this sphere, from the discriminant of the quadratic
    /// and the crossings at its two roots, `near` at the smaller one.
    pub fn hit_from(
        &self,
        tmin: Scalar,
        tmax: Scalar,
        discriminant: Scalar,
        near: &Crossing,
        far: &Crossing,
    ) -> (hit: Option<HitRecord>)
        ensures
            hit == self.hit_from_spec(tmin, tmax, discriminant, *near, *far),
            hit matches Some(h) ==> strictly_inside(h.t, tmin, tmax),
    {
        if tmax < tmin {
            return None;
        }
        if discriminant < Scalar::zero() {
            None
        } else if tmin < near.t && near.t < tmax {
            Some(self.record(near))
        } else if tmin < far.t && far.t < tmax {
            Some(self.record(far))
        } else {
            None
        }
    }
}

/// The pattern of `0.0000001`: a ray whose direction times a triangle's normal
/// is no larger than this runs along the triangle's plane.
pub const PARALLEL_LIMIT_BITS: u64 = 0x3e7a_d7f2_9abc_af48;

/// The pattern of `0.00000001`: how far the sides and corners of a square may
/// be from equal and right.
pub const SQUARE_TOLERANCE_BITS: u64 = 0x3e45_798e_e230_8c3a;

/// Where the line of a ray meets the plane of a triangle.
#[derive(Clone, Copy, Debug)]
pub struct PlaneCrossing {
    /// The triangle's normal times the ray's direction.
    pub slope: Scalar,
    pub t: Scalar,
    pub point: Point,
    /// For the edges from the first, second and third corner, in this order:
    /// the edge crossed with the way from its start to `point`, times the
    /// normal. None is negative where `point` lies inside the triangle.
    pub edge_sides: (Scalar, Scalar, Scalar),
}

/// A triangle: three corners of which no two are equal, wound from the first
/// to the third, a normal that is not the zero vector, and a material.
pub struct Triangle {
    a: Point,
    b: Point,
    c: Point,
    normal: Vec3,
    material: Shared<dyn Material>,
}

impl Triangle {
    /// What a triangle asks of its corners and its normal.
    pub open spec fn admits(a: Point, b: Point, c: Point, normal: Vec3) -> bool {
        &&& !a.same_vector(b)
        &&& !b.same_vector(c)
        &&& !c.same_vector(a)
        &&& !normal.is_zero_spec()
    }

    #[verifier::type_invariant]
    spec fn well_formed(self) -> bool {
        Self::admits(self.a, self.b, self.c, self.normal)
    }

    pub closed spec fn corners(&self) -> (Point, Point, Point) {
        (self.a, self.b, self.c)
    }

    pub closed spec fn normal_spec(&self) -> Vec3 {
        self.normal
    }

    pub closed spec fn material_spec(&self) -> Shared<dyn Material> {
        self.material
    }

    /// Whether `new` accepts these corners and this normal.
    pub fn accepts(a: &Point, b: &Point, c: &Point, normal: &Vec3) -> (ok: bool)
        ensures
            ok == Self::admits(*a, *b, *c, *normal),
    {
        *a != *b && *b != *c && *c != *a && !normal.is_zero()
    }

    /// The triangle with these corners, the normal derived from them, and this
    /// material.
    pub fn new(a: Point, b: Point, c: Point, normal: Vec3, material: Shared<dyn Material>) -> (triangle:
        Self)
        requires
            Self::admits(a, b, c, normal),
        ensures
            triangle.corners() == (a, b, c),
            triangle.normal_spec() == normal,
            triangle.material_spec() == material,
    {
        Self { a, b, c, normal, material }
    }

    /// The corners, of which no two are equal.
    pub fn points(&self) -> (points: (Point, Point, Point))
        ensures
            points == self.corners(),
            !points.0.same_vector(points.1),
            !points.1.same_vector(points.2),
            !points.2.same_vector(points.0),
    {
        proof {
            use_type_invariant(self);
        }
        (self.a, self.b, self.c)
    }

    /// The normal, which is not the zero vector.
    pub fn normal(&self) -> (normal: Vec3)
        ensures
            normal == self.normal_spec(),
            !normal.is_zero_spec(),
    {
        proof {
            use_type_invariant(self);
        }
        self.normal
    }

    pub fn material(&self) -> (material: &Shared<dyn Material>)
        ensures
            *material == self.material_spec(),
    {
        &self.material
    }

    /// Whether the crossing is a hit: the ray must not run along the plane,
    /// the parameter must lie strictly inside the interval, and the point must
    /// lie on the inner side of all three edges. The record carries the
    /// triangle's own normal; the ray came from outside when the slope is
    /// negative.
    pub open spec fn hit_from_spec(&self, tmin: Scalar, tmax: Scalar, crossing: PlaneCrossing) -> Option<
        HitRecord,
    > {
        let zero = Scalar::of(0);
        if crossing.slope.abs_spec().gt_spec(Scalar::of(PARALLEL_LIMIT_BITS))
            && strictly_inside(crossing.t, tmin, tmax)
            && crossing.edge_sides.0.ge_spec(zero)
            && crossing.edge_sides.1.ge_spec(zero)
            && crossing.edge_sides.2.ge_spec(zero) {
            Some(
                HitRecord {
                    point: crossing.point,
                    t: crossing.t,
                    normal: self.normal_spec(),
                    is_outside: crossing.slope.lt_spec(zero),
                    material: self.material_spec(),
                },
            )
        } else {
            None
        }
    }

    /// A triangle answers with its first hit: its hit below an upper bound is
    /// its hit on the whole half-line, if that lies below the bound; and that
    /// hit lies beyond `tmin`.
    pub proof fn lemma_answers_with_first_hit(&self, tmin: Scalar, tmax: Scalar, crossing: PlaneCrossing)
        ensures
            self.hit_from_spec(tmin, tmax, crossing) == below(
                self.hit_from_spec(tmin, Scalar::of(INFINITY_BITS), crossing),
                tmax,
            ),
            self.hit_from_spec(tmin, Scalar::of(INFINITY_BITS), crossing) matches Some(h)
                ==> tmin.lt_spec(h.t),
    {
    }

    /// The hit of a ray on this triangle, from where its line meets the plane.
    pub fn hit_from(&self, tmin: Scalar, tmax: Scalar, crossing: &PlaneCrossing) -> (hit: Option<
        HitRecord,
    >)
        ensures
            hit == self.hit_from_spec(tmin, tmax, *crossing),
            hit matches Some(h) ==> strictly_inside(h.t, tmin, tmax),
    {
        let zero = Scalar::zero();
        if crossing.slope.abs() > Scalar::from_bits(PARALLEL_LIMIT_BITS) {
            if tmin < crossing.t && crossing.t < tmax {
                if crossing.edge_sides.0 >= zero && crossing.edge_sides.1 >= zero
                    && crossing.edge_sides.2 >= zero {
                    return Some(
                        HitRecord {
                            point: crossing.point,
                            t: crossing.t,
                            normal: self.normal,
                            is_outside: crossing.slope < zero,
                            material: self.material.share(),
                        },
                    );
                }
            }
        }
        None
    }
}

/// How far four corners are from those of a square.
#[derive(Clone, Copy, Debug)]
pub struct Squareness {
    /// For each corner, the length of the side that ends there less the
    /// length of the side that starts there.
    pub side_gaps: (Scalar, Scalar, Scalar, Scalar),
    /// For each corner, the side that ends there times the side that starts
    /// there.
    pub corner_products: (Scalar, Scalar, Scalar, Scalar),
}

impl Squareness {
    /// Closer to zero than the tolerance.
    pub open spec fn negligible(x: Scalar) -> bool {
        x.abs_spec().lt_spec(Scalar::of(SQUARE_TOLERANCE_BITS))
    }

    /// All four sides are equal, within the tolerance.
    pub open spec fn sides_are_equal_spec(&self) -> bool {
        &&& Self::negligible(self.side_gaps.0)
        &&& Self::negligible(self.side_gaps.1)
        &&& Self::negligible(self.side_gaps.2)
        &&& Self::negligible(self.side_gaps.3)
    }

    /// All four corners are right, within the tolerance.
    pub open spec fn corners_are_right_spec(&self) -> bool {
        &&& Self::negligible(self.corner_products.0)
        &&& Self::negligible(self.corner_products.1)
        &&& Self::negligible(self.corner_products.2)
        &&& Self::negligible(self.corner_products.3)
    }

    /// The corners are those of a square.
    pub open spec fn is_square_spec(&self) -> bool {
        self.sides_are_equal_spec() && self.corners_are_right_spec()
    }

    fn is_negligible(x: Scalar) -> (r: bool)
        ensures
            r == Self::negligible(x),
    {
        x.abs() < Scalar::from_bits(SQUARE_TOLERANCE_BITS)
    }

    pub fn sides_are_equal(&self) -> (r: bool)
        ensures
            r == self.sides_are_equal_spec(),
    {
        Self::is_negligible(self.side_gaps.0) && Self::is_negligible(self.side_gaps.1)
            && Self::is_negligible(self.side_gaps.2) && Self::is_negligible(self.side_gaps.3)
    }

    pub fn corners_are_right(&self) -> (r: bool)
        ensures
            r == self.corners_are_right_spec(),
    {
        Self::is_negligible(self.corner_products.0) && Self::is_negligible(self.corner_products.1)
            && Self::is_negligible(self.corner_products.2) && Self::is_negligible(
            self.corner_products.3,
        )
    }

    pub fn is_square(&self) -> (r: bool)
        ensures
            r == self.is_square_spec(),
    {
        self.sides_are_equal() && self.corners_are_right()
    }
}

/// A square: two triangles on either side of the diagonal from the first
/// corner to the third.
pub struct Square {
    t1: Triangle,
    t2: Triangle,
}

impl Square {
    pub closed spec fn first_spec(&self) -> Triangle {
        self.t1
    }

    pub closed spec fn second_spec(&self) -> Triangle {
        self.t2
    }

    /// The square with these corners. It takes the measures of the corners and
    /// the normals of its two triangles, and accepts no corners that fail to
    /// make a square.
    pub fn new(
        a: Point,
        b: Point,
        c: Point,
        d: Point,
        squareness: &Squareness,
        normal1: Vec3,
        normal2: Vec3,
        material: Shared<dyn Material>,
    ) -> (square: Self)
        requires
            squareness.is_square_spec(),
            Triangle::admits(a, b, c, normal1),
            Triangle::admits(a, c, d, normal2),
        ensures
            square.first_spec().corners() == (a, b, c),
            square.first_spec().normal_spec() == normal1,
            square.first_spec().material_spec() == material,
            square.second_spec().corners() == (a, c, d),
            square.second_spec().normal_spec() == normal2,
            square.second_spec().material_spec() == material,
    {
        let t1 = Triangle::new(a, b, c, normal1, material.share());
        let t2 = Triangle::new(a, c, d, normal2, material);
        Self { t1, t2 }
    }

    pub fn first(&self) -> (t: &Triangle)
        ensures
            *t == self.first_spec(),
    {
        &self.t1
    }

    pub fn second(&self) -> (t: &Triangle)
        ensures
            *t == self.second_spec(),
    {
        &self.t2
    }

    /// The hit of a ray on this square: its hit on the first triangle, else its
    /// hit on the second.
    pub fn hit_from(&self, tmin: Scalar, tmax: Scalar, first: &PlaneCrossing, second: &PlaneCrossing) -> (hit:
        Option<HitRecord>)
        ensures
            hit == match self.first_spec().hit_from_spec(tmin, tmax, *first) {
                Some(h) => Some(h),
                None => self.second_spec().hit_from_spec(tmin, tmax, *second),
            },
            hit matches Some(h) ==> strictly_inside(h.t, tmin, tmax),
    {
        match self.t1.hit_from(tmin, tmax, first) {
            Some(h) => Some(h),
            None => self.t2.hit_from(tmin, tmax, second),
        }
    }
}

} // verus!
