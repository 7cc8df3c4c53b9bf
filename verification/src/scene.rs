//! The scene: lights and objects, ray-scene intersection, shadowing, the
//! nested-refraction bookkeeping, and the recursive shading that produces a
//! pixel color.

use vstd::prelude::*;
use vstd::multiset::Multiset;
use crate::color::{Color, scadd, scclamp, scscale, spec_black};
use crate::fx::{Fx, FX_SCALE, fx_pow, sadd, ssub, smul, sdiv, ssqrt};
use crate::geometry::{Geometry, spec_geometry_intersect, spec_geometry_normal_at};
use crate::intersection::Intersection;
use crate::intersections::spec_len;
use crate::light::Light;
use crate::material::{Material, spec_lighting};
use crate::matrix::{spec_mat4_mul_tuple, spec_transpose4};
use crate::object::{Object, ObjectId};
use crate::ray::{Ray, ray, spec_position};
use crate::texture::texture_result;
use crate::transform::Transform;
use crate::tuple::{Tuple4, sdot, spec_dot, spec_magnitude, spec_normalize, spec_reflect, stadd, stneg, stscale, stsub};

verus! {

/// How far shadow and refraction rays start from the surface they leave,
/// in raw scalar units, so that they do not immediately hit it again.
pub const SURFACE_OFFSET_RAW: i64 = 10_000;

/// The object and light collection a render queries.
pub struct Scene {
    pub lights: Vec<Light>,
    pub transforms: Vec<Transform>,
    pub materials: Vec<Material>,
    pub geometrys: Vec<Geometry>,
    pub max_depth: usize,
}

impl Scene {
    /// Each object has exactly one transform, material and geometry.
    pub open spec fn wf(&self) -> bool {
        &&& self.materials@.len() == self.transforms@.len()
        &&& self.geometrys@.len() == self.transforms@.len()
    }
}

/// The hits of one object: the ray is carried into the object's local
/// space, intersected there, and each distance is tagged with the object.
pub open spec fn spec_object_entries(s: Scene, world_ray: Ray, i: int) -> Seq<Intersection> {
    let wtl = s.transforms@[i].world_to_local;
    let local = Ray {
        origin: spec_mat4_mul_tuple(wtl, world_ray.origin),
        direction: spec_mat4_mul_tuple(wtl, world_ray.direction),
    };
    let xs = spec_geometry_intersect(s.geometrys@[i], local);
    if spec_len(xs) == 2 {
        seq![
            Intersection { t: xs.t0, object_id: i as usize },
            Intersection { t: xs.t1, object_id: i as usize },
        ]
    } else if spec_len(xs) == 1 {
        seq![Intersection { t: xs.t0, object_id: i as usize }]
    } else {
        Seq::empty()
    }
}

/// The hits of the first `k` objects, in object order.
pub open spec fn spec_scene_ints_upto(s: Scene, world_ray: Ray, k: int) -> Seq<Intersection>
    decreases k,
{
    if k <= 0 {
        Seq::empty()
    } else {
        spec_scene_ints_upto(s, world_ray, k - 1) + spec_object_entries(s, world_ray, k - 1)
    }
}

/// Every hit of every object, in object order; every object is tested.
pub open spec fn spec_scene_intersections(s: Scene, world_ray: Ray) -> Seq<Intersection> {
    spec_scene_ints_upto(s, world_ray, s.transforms@.len() as int)
}

/// The running best hit after examining entries from `k` on: the first
/// entry with the smallest non-negative distance wins.
pub open spec fn nearest_from(s: Seq<Intersection>, k: int, best: Option<Intersection>) -> Option<
    Intersection,
>
    decreases s.len() - k,
{
    if k < 0 || k >= s.len() {
        best
    } else {
        let better = if s[k].t.raw >= 0 && (best is None || s[k].t.raw < best.unwrap().t.raw) {
            Some(s[k])
        } else {
            best
        };
        nearest_from(s, k + 1, better)
    }
}

/// The hit: the first entry with the smallest non-negative distance, if
/// any entry has one.
pub open spec fn spec_nearest(s: Seq<Intersection>) -> Option<Intersection> {
    nearest_from(s, 0, None)
}

/// The index of the first minimal distance among entries from `k` on,
/// given the best index so far.
pub open spec fn min_from(s: Seq<Intersection>, k: int, mi: int) -> int
    decreases s.len() - k,
{
    if k < 0 || k >= s.len() {
        mi
    } else {
        let mi2 = if s[k].t.raw < s[mi].t.raw {
            k
        } else {
            mi
        };
        min_from(s, k + 1, mi2)
    }
}

/// The entries in ascending distance order: the first minimal entry, then
/// the rest sorted. Entries at equal distances keep their order.
pub open spec fn spec_sort_by_t(s: Seq<Intersection>) -> Seq<Intersection>
    decreases s.len(),
{
    if s.len() == 0 {
        Seq::empty()
    } else {
        let mi = min_from(s, 1, 0);
        if 0 <= mi < s.len() {
            seq![s[mi]] + spec_sort_by_t(s.remove(mi))
        } else {
            s
        }
    }
}

/// A container stack with every occurrence of one object taken out,
/// walking from position `k`.
pub open spec fn remove_id_from(s: Seq<ObjectId>, k: int, id: ObjectId) -> Seq<ObjectId>
    decreases s.len() - k,
{
    if k < 0 || k >= s.len() {
        Seq::empty()
    } else if s[k] == id {
        remove_id_from(s, k + 1, id)
    } else {
        seq![s[k]] + remove_id_from(s, k + 1, id)
    }
}

/// The refractive index on top of a container stack: vacuum when empty.
pub open spec fn stack_index(containers: Seq<ObjectId>, mats: Seq<Material>) -> Fx {
    if containers.len() == 0 {
        Fx { raw: FX_SCALE }
    } else {
        mats[containers.last() as int].refractive_index
    }
}

/// The walk along the sorted hits that finds the refractive indices on the
/// two sides of the target hit. A stack holds the objects the ray is
/// currently inside: reaching a hit of an object already on the stack pops
/// it (the ray leaves the object), any other hit pushes its object. At the
/// target, the index before the toggle is the medium being left and the
/// index after it is the medium being entered; past the end both default
/// to vacuum.
pub open spec fn spec_refract_walk(
    s: Seq<Intersection>,
    k: int,
    containers: Seq<ObjectId>,
    target: Intersection,
    mats: Seq<Material>,
) -> (Fx, Fx)
    decreases s.len() - k,
{
    if k < 0 || k >= s.len() {
        (Fx { raw: FX_SCALE }, Fx { raw: FX_SCALE })
    } else {
        let i = s[k];
        let toggled = if containers.contains(i.object_id) {
            remove_id_from(containers, 0, i.object_id)
        } else {
            containers.push(i.object_id)
        };
        if i == target {
            (stack_index(containers, mats), stack_index(toggled, mats))
        } else {
            spec_refract_walk(s, k + 1, toggled, target, mats)
        }
    }
}

/// The world-space surface normal: the local normal carried back to world
/// space by the transposed inverse transform, renormalized, and flipped
/// where it faces away from the eye.
#[verifier::opaque]
pub open spec fn spec_world_normal_at(
    transform: Transform,
    geometry: Geometry,
    world_point: Tuple4,
    eye_vector: Tuple4,
) -> Tuple4 {
    let local_point = spec_mat4_mul_tuple(transform.world_to_local, world_point);
    let local_normal = spec_geometry_normal_at(geometry, local_point);
    let back = spec_mat4_mul_tuple(spec_transpose4(transform.world_to_local), local_normal);
    let flat = Tuple4 { w: Fx { raw: 0 }, ..back };
    let world_normal = spec_normalize(flat);
    if spec_dot(world_normal, eye_vector) < 0 {
        stneg(world_normal)
    } else {
        world_normal
    }
}

/// The Schlick approximation of the Fresnel reflectance: under total
/// internal reflection everything reflects; otherwise the base reflectance
/// grows with the fifth power of one minus the grazing cosine.
#[verifier::opaque]
pub open spec fn spec_schlick(eyev: Tuple4, normalv: Tuple4, n1: Fx, n2: Fx) -> Fx {
    let cos0 = sdot(eyev, normalv);
    let one = Fx { raw: FX_SCALE };
    if n1.raw > n2.raw && {
        let n = sdiv(n1, n2);
        smul(smul(n, n), ssub(one, smul(cos0, cos0))).raw > FX_SCALE
    } {
        one
    } else {
        let cos = if n1.raw > n2.raw {
            let n = sdiv(n1, n2);
            let sin2_t = smul(smul(n, n), ssub(one, smul(cos0, cos0)));
            ssqrt(ssub(one, sin2_t))
        } else {
            cos0
        };
        let r = sdiv(ssub(n1, n2), sadd(n1, n2));
        let r0 = smul(r, r);
        sadd(r0, smul(ssub(one, r0), Fx { raw: fx_pow(ssub(one, cos).raw as int, 5) as i64 }))
    }
}

/// Whether a point is occluded from a light: the nearest hit along the ray
/// toward the light, if any, lies closer than the light itself.
pub open spec fn spec_is_shadowed(s: Scene, point: Tuple4, light: Light) -> bool {
    let v = stsub(light.position, point);
    let distance = spec_magnitude(v);
    let direction = spec_normalize(v);
    match spec_nearest(spec_scene_intersections(s, Ray { origin: point, direction })) {
        Some(i) => i.t.raw < distance,
        None => false,
    }
}

/// What the recursive shading may return. At depth zero, and where the ray
/// misses everything, the color is black. At a hit, the color combines the
/// Phong surface term (for some base color the texture may produce), a
/// reflected contribution one level deeper scaled by the reflectivity, and
/// a refracted contribution one level deeper scaled by the transparency
/// (black under total internal reflection); a surface both reflective and
/// transparent blends the two by the Schlick reflectance.
pub open spec fn color_at_rec(s: Scene, world_ray: Ray, remaining: nat, c: Color) -> bool
    decreases remaining,
{
    if remaining == 0 {
        c == spec_black()
    } else if spec_nearest(spec_scene_intersections(s, world_ray)) is None {
        c == spec_black()
    } else {
        let isec = spec_nearest(spec_scene_intersections(s, world_ray)).unwrap();
        exists|base: Color, reflect_sub: Color, refract_sub: Color|
            {
                &&& #[trigger] shade_parts(s, world_ray, isec, base, reflect_sub, refract_sub, c)
                &&& (reflect_needed(s, isec) ==> color_at_rec(
                    s,
                    reflect_ray_of(s, world_ray, isec),
                    (remaining - 1) as nat,
                    reflect_sub,
                ))
                &&& (refract_needed(s, world_ray, isec) ==> color_at_rec(
                    s,
                    refract_ray_of(s, world_ray, isec),
                    (remaining - 1) as nat,
                    refract_sub,
                ))
            }
    }
}

/// Whether a hit's material reflects at all.
pub open spec fn reflect_needed(s: Scene, intersection: Intersection) -> bool {
    s.materials@[intersection.object_id as int].reflective.raw > 0
}

/// The refractive indices on the two sides of a hit: computed by the
/// container-stack walk for a transparent material, vacuum on both sides
/// otherwise (where the values are never used).
pub open spec fn hit_indices(s: Scene, world_ray: Ray, intersection: Intersection) -> (Fx, Fx) {
    if s.materials@[intersection.object_id as int].transparency.raw > 0 {
        spec_refract_walk(
            spec_sort_by_t(spec_scene_intersections(s, world_ray)),
            0,
            Seq::empty(),
            intersection,
            s.materials@,
        )
    } else {
        (Fx { raw: FX_SCALE }, Fx { raw: FX_SCALE })
    }
}

/// The world normal at a hit, facing the eye.
pub open spec fn hit_normal(s: Scene, world_ray: Ray, intersection: Intersection) -> Tuple4 {
    spec_world_normal_at(
        s.transforms@[intersection.object_id as int],
        s.geometrys@[intersection.object_id as int],
        spec_position(world_ray, intersection.t),
        stneg(world_ray.direction),
    )
}

/// The squared sine of the refracted angle at a hit, by Snell's law.
pub open spec fn hit_sin2_t(s: Scene, world_ray: Ray, intersection: Intersection) -> Fx {
    let nn = hit_indices(s, world_ray, intersection);
    let n_ratio = sdiv(nn.0, nn.1);
    let cos_i = sdot(stneg(world_ray.direction), hit_normal(s, world_ray, intersection));
    smul(smul(n_ratio, n_ratio), ssub(Fx { raw: FX_SCALE }, smul(cos_i, cos_i)))
}

/// Whether a hit's material refracts: it is transparent and the hit is not
/// under total internal reflection.
pub open spec fn refract_needed(s: Scene, world_ray: Ray, intersection: Intersection) -> bool {
    s.materials@[intersection.object_id as int].transparency.raw > 0 && hit_sin2_t(
        s,
        world_ray,
        intersection,
    ).raw <= FX_SCALE
}

/// The reflection ray cast at a hit: from just above the surface, along
/// the incoming direction mirrored around the normal.
pub open spec fn reflect_ray_of(s: Scene, world_ray: Ray, intersection: Intersection) -> Ray {
    let world_point = spec_position(world_ray, intersection.t);
    let world_normal = hit_normal(s, world_ray, intersection);
    let over_point = stadd(world_point, stscale(world_normal, Fx { raw: SURFACE_OFFSET_RAW }));
    Ray { origin: over_point, direction: spec_reflect(world_ray.direction, world_normal) }
}

/// The refraction ray cast at a hit: from just below the surface, bent by
/// Snell's law.
pub open spec fn refract_ray_of(s: Scene, world_ray: Ray, intersection: Intersection) -> Ray {
    let world_point = spec_position(world_ray, intersection.t);
    let world_normal = hit_normal(s, world_ray, intersection);
    let under_point = stsub(world_point, stscale(world_normal, Fx { raw: SURFACE_OFFSET_RAW }));
    let nn = hit_indices(s, world_ray, intersection);
    let one = Fx { raw: FX_SCALE };
    let n_ratio = sdiv(nn.0, nn.1);
    let eye_vector = stneg(world_ray.direction);
    let cos_i = sdot(eye_vector, world_normal);
    let sin2_t = hit_sin2_t(s, world_ray, intersection);
    Ray {
        origin: under_point,
        direction: stsub(
            stscale(world_normal, ssub(smul(n_ratio, cos_i), ssqrt(ssub(one, sin2_t)))),
            stscale(eye_vector, n_ratio),
        ),
    }
}

/// How the final color of a hit combines the surface term with the two
/// deeper contributions: `base` is a color the texture may produce, and
/// `reflect_sub` and `refract_sub` are the colors of the reflection and
/// refraction rays one level deeper.
#[verifier::opaque]
pub open spec fn shade_parts(
    s: Scene,
    world_ray: Ray,
    intersection: Intersection,
    base: Color,
    reflect_sub: Color,
    refract_sub: Color,
    c: Color,
) -> bool {
    let transform = s.transforms@[intersection.object_id as int];
    let material = s.materials@[intersection.object_id as int];
    let world_point = spec_position(world_ray, intersection.t);
    let eye_vector = stneg(world_ray.direction);
    let world_normal = hit_normal(s, world_ray, intersection);
    let over_point = stadd(world_point, stscale(world_normal, Fx { raw: SURFACE_OFFSET_RAW }));
    let light = s.lights@[0];
    let in_shadow = spec_is_shadowed(s, over_point, light);
    let nn = hit_indices(s, world_ray, intersection);
    let one = Fx { raw: FX_SCALE };
    let sin2_t = hit_sin2_t(s, world_ray, intersection);
    let surface_color = spec_lighting(
        material,
        light,
        world_point,
        eye_vector,
        world_normal,
        in_shadow,
        base,
    );
    let reflect_color = if material.reflective.raw > 0 {
        scscale(reflect_sub, material.reflective)
    } else {
        spec_black()
    };
    let refract_color = if material.transparency.raw > 0 {
        if sin2_t.raw > FX_SCALE {
            spec_black()
        } else {
            scscale(refract_sub, material.transparency)
        }
    } else {
        spec_black()
    };
    &&& texture_result(material.texture, transform, world_point, base)
    &&& c == if material.reflective.raw > 0 && material.transparency.raw > 0 {
        let reflectance = spec_schlick(eye_vector, world_normal, nn.0, nn.1);
        scadd(
            scadd(surface_color, scscale(reflect_color, reflectance)),
            scscale(refract_color, ssub(one, reflectance)),
        )
    } else {
        scadd(scadd(surface_color, reflect_color), refract_color)
    }
}

impl Scene {
    /// An empty scene with the default recursion allowance.
    pub fn new() -> (r: Scene)
        ensures
            r.lights@.len() == 0,
            r.transforms@.len() == 0,
            r.materials@.len() == 0,
            r.geometrys@.len() == 0,
            r.max_depth == 5,
            r.wf(),
    {
        Scene {
            lights: Vec::new(),
            transforms: Vec::new(),
            materials: Vec::new(),
            geometrys: Vec::new(),
            max_depth: 5,
        }
    }

    /// Adds the light to the scene.
    pub fn add_light(&mut self, light: Light)
        ensures
            final(self).lights@ == old(self).lights@.push(light),
            final(self).transforms@ == old(self).transforms@,
            final(self).materials@ == old(self).materials@,
            final(self).geometrys@ == old(self).geometrys@,
            final(self).max_depth == old(self).max_depth,
    {
        self.lights.push(light);
    }

    /// Adds the object to the scene, returning its ID.
    pub fn add_object(&mut self, object: Object) -> (object_id: ObjectId)
        requires
            old(self).wf(),
            old(self).transforms@.len() < usize::MAX,
        ensures
            object_id == old(self).transforms@.len(),
            final(self).transforms@ == old(self).transforms@.push(object.transform),
            final(self).materials@ == old(self).materials@.push(object.material),
            final(self).geometrys@ == old(self).geometrys@.push(object.geometry),
            final(self).lights@ == old(self).lights@,
            final(self).max_depth == old(self).max_depth,
            final(self).wf(),
    {
        let object_id = self.transforms.len();

        self.transforms.push(object.transform);
        self.materials.push(object.material);
        self.geometrys.push(object.geometry);

        object_id
    }

    /// Returns all intersections between the ray and the scene, in object
    /// order; every object is tested, with no early exit.
    #[verifier::rlimit(80)]
    pub fn intersections(&self, world_ray: Ray) -> (r: Vec<Intersection>)
        requires
            self.wf(),
        ensures
            r@ == spec_scene_intersections(*self, world_ray),
            forall|k: int|
                0 <= k < r@.len() ==> (#[trigger] r@[k]).object_id < self.transforms@.len(),
    {
        let mut result: Vec<Intersection> = Vec::new();
        let n = self.transforms.len();
        let mut object_id: usize = 0;
        while object_id < n
            invariant
                self.wf(),
                n == self.transforms@.len(),
                object_id <= n,
                result@ == spec_scene_ints_upto(*self, world_ray, object_id as int),
                forall|k: int| 0 <= k < result@.len() ==> (#[trigger] result@[k]).object_id < n,
            decreases n - object_id,
        {
            let transform = self.transforms[object_id];
            let geometry = self.geometrys[object_id];
            let local_ray = world_ray.transform(transform.world_to_local);
            let xs = geometry.intersect(local_ray);
            let len = xs.len();
            if len >= 1 {
                result.push(Intersection { t: xs.t0, object_id });
            }
            if len == 2 {
                result.push(Intersection { t: xs.t1, object_id });
            }
            object_id += 1;
            proof {
                assert(result@ =~= spec_scene_ints_upto(*self, world_ray, object_id as int));
            }
        }
        result
    }

    /// Returns the nearest intersection (if any): the hit with the
    /// smallest non-negative distance.
    pub fn nearest_intersection(&self, world_ray: Ray) -> (r: Option<Intersection>)
        requires
            self.wf(),
        ensures
            r == spec_nearest(spec_scene_intersections(*self, world_ray)),
            r is Some ==> r.unwrap().object_id < self.transforms@.len(),
    {
        let xs = self.intersections(world_ray);
        let ghost s = xs@;
        let mut best: Option<Intersection> = None;
        let mut k: usize = 0;
        while k < xs.len()
            invariant
                xs@ == s,
                k <= s.len(),
                spec_nearest(s) == nearest_from(s, k as int, best),
                best is Some ==> best.unwrap().object_id < self.transforms@.len(),
                forall|j: int| 0 <= j < s.len() ==> (#[trigger] s[j]).object_id
                    < self.transforms@.len(),
            decreases s.len() - k,
        {
            let i = xs[k];
            let take = i.t.raw >= 0 && match best {
                Some(b) => i.t.raw < b.t.raw,
                None => true,
            };
            if take {
                best = Some(i);
            }
            k += 1;
        }
        best
    }

    /// Whether the given point is considered to be in shadow.
    pub fn is_shadowed(&self, point: Tuple4, light: Light) -> (r: bool)
        requires
            self.wf(),
        ensures
            r == spec_is_shadowed(*self, point, light),
    {
        let v = light.position.sub(point);
        let distance = v.magnitude();
        let direction = v.normalize();

        match self.nearest_intersection(ray(point, direction)) {
            Some(intersection) => intersection.t.raw < distance.raw,
            None => false,
        }
    }

    /// Returns the indexes of refraction of the materials on either side of
    /// a ray-object intersection, with the first belonging to the material
    /// being exited, and the second belonging to the material being
    /// entered.
    pub fn refractive_indexes(&self, world_ray: Ray, intersection: Intersection) -> (r: (Fx, Fx))
        requires
            self.wf(),
        ensures
            r == spec_refract_walk(
                spec_sort_by_t(spec_scene_intersections(*self, world_ray)),
                0,
                Seq::empty(),
                intersection,
                self.materials@,
            ),
    {
        let all = self.intersections(world_ray);
        proof {
            lemma_sort_keeps_ids(all@, self.transforms@.len() as int);
        }
        let all_sorted = sort_intersections(all);
        let ghost sorted = all_sorted@;

        let mut containers: Vec<ObjectId> = Vec::new();
        let mut k: usize = 0;
        while k < all_sorted.len()
            invariant
                all_sorted@ == sorted,
                sorted == spec_sort_by_t(spec_scene_intersections(*self, world_ray)),
                k <= sorted.len(),
                self.wf(),
                forall|j: int| 0 <= j < sorted.len() ==> (#[trigger] sorted[j]).object_id
                    < self.materials@.len(),
                forall|j: int| 0 <= j < containers@.len() ==> (#[trigger] containers@[j])
                    < self.materials@.len(),
                spec_refract_walk(sorted, 0, Seq::empty(), intersection, self.materials@)
                    == spec_refract_walk(sorted, k as int, containers@, intersection, self.materials@),
            decreases sorted.len() - k,
        {
            let i = all_sorted[k];
            let ghost before = containers@;

            let n1 = if i == intersection {
                self.stack_top_index(&containers)
            } else {
                Fx::one()
            };

            if contains_id(&containers, i.object_id) {
                containers = remove_id(containers, i.object_id);
                proof {
                    assert forall|j: int|
                        0 <= j < containers@.len() implies (#[trigger] containers@[j])
                        < self.materials@.len() by {
                        assert(before.contains(containers@[j]));
                        let idx = choose|t: int| 0 <= t < before.len() && before[t]
                            == containers@[j];
                        assert(before[idx] < self.materials@.len());
                    };
                }
            } else {
                containers.push(i.object_id);
            }

            if i == intersection {
                let n2 = self.stack_top_index(&containers);
                proof {
                    assert(sorted[k as int] == i);
                    assert(spec_refract_walk(sorted, k as int, before, intersection, self.materials@)
                        == (n1, n2));
                }
                return (n1, n2);
            }
            k += 1;
        }

        (Fx::one(), Fx::one())
    }

    /// The refractive index of the material on top of the container stack:
    /// vacuum when the stack is empty.
    fn stack_top_index(&self, containers: &Vec<ObjectId>) -> (r: Fx)
        requires
            forall|j: int| 0 <= j < containers@.len() ==> (#[trigger] containers@[j])
                < self.materials@.len(),
        ensures
            r == stack_index(containers@, self.materials@),
    {
        if containers.len() == 0 {
            Fx::one()
        } else {
            let id = containers[containers.len() - 1];
            self.materials[id].refractive_index
        }
    }

    /// Intersects the ray with the scene and returns the color at the
    /// resulting intersection, clamped into displayable range.
    pub fn color_at(&self, rng: &mut rand::rngs::SmallRng, world_ray: Ray) -> (r: Color)
        requires
            self.wf(),
            self.lights@.len() >= 1,
        ensures
            exists|c: Color|
                color_at_rec(*self, world_ray, self.max_depth as nat, c) && r == scclamp(c),
    {
        let c = self.color_at_remaining(rng, world_ray, self.max_depth);
        let r = c.clamp();
        proof {
            assert(color_at_rec(*self, world_ray, self.max_depth as nat, c) && r == scclamp(c));
        }
        r
    }

    /// Intersects the ray with the scene and returns the color at the
    /// resulting intersection, with the given remaining recursion
    /// allowance. A zero allowance is black: the recursion floor that keeps
    /// mutually reflective or transparent surfaces from looping forever.
    #[verifier::rlimit(100)]
    pub fn color_at_remaining(
        &self,
        rng: &mut rand::rngs::SmallRng,
        world_ray: Ray,
        remaining: usize,
    ) -> (r: Color)
        requires
            self.wf(),
            self.lights@.len() >= 1,
        ensures
            color_at_rec(*self, world_ray, remaining as nat, r),
            remaining == 0 ==> r == spec_black(),
        decreases remaining,
    {
        if remaining == 0 {
            return Color::black();
        }

        if let Some(intersection) = self.nearest_intersection(world_ray) {
            let transform = self.transforms[intersection.object_id];
            let material = self.materials[intersection.object_id];
            let geometry = self.geometrys[intersection.object_id];

            // Compute the surface normal.
            let world_point = world_ray.position(intersection.t);
            let eye_vector = world_ray.direction.neg();
            let world_normal = world_normal_at(transform, geometry, world_point, eye_vector);

            // Compute surface color.
            let offset = world_normal.scale(Fx { raw: SURFACE_OFFSET_RAW });
            let over_point = world_point.add(offset);
            let under_point = world_point.sub(offset);
            let light = self.lights[0];
            let in_shadow = self.is_shadowed(over_point, light);
            let surface_color = material.lighting(
                rng,
                transform,
                light,
                world_point,
                eye_vector,
                world_normal,
                in_shadow,
            );
            let ghost base = choose|b: Color|
                texture_result(material.texture, transform, world_point, b) && surface_color
                    == spec_lighting(
                    material,
                    light,
                    world_point,
                    eye_vector,
                    world_normal,
                    in_shadow,
                    b,
                );

            // Compute reflect color.
            let (reflect_color, ghost_reflect_sub): (Color, Ghost<Color>) = if material.reflective.raw > 0 {
                let reflect_vector = world_ray.direction.reflect(world_normal);
                let reflect_ray = ray(over_point, reflect_vector);
                let sub = self.color_at_remaining(rng, reflect_ray, remaining - 1);
                (sub.scale(material.reflective), Ghost(sub))
            } else {
                (Color::black(), Ghost(spec_black()))
            };

            // Compute refract color.
            let nn = if material.transparency.raw > 0 {
                self.refractive_indexes(world_ray, intersection)
            } else {
                // Skip the computation if the values are not needed.
                (Fx::one(), Fx::one())
            };
            let (n1, n2) = nn;
            let n_ratio = n1.div(n2);
            let cos_i = eye_vector.dot(world_normal);
            let sin2_t = n_ratio.mul(n_ratio).mul(Fx::one().sub(cos_i.mul(cos_i)));
            let (refract_color, ghost_refract_sub): (Color, Ghost<Color>) = if material.transparency.raw
                > 0 {
                if sin2_t.raw > FX_SCALE {
                    // Total internal reflection.
                    (Color::black(), Ghost(spec_black()))
                } else {
                    let cos_t = Fx::one().sub(sin2_t).sqrt();
                    let direction = world_normal.scale(n_ratio.mul(cos_i).sub(cos_t)).sub(
                        eye_vector.scale(n_ratio),
                    );
                    let refract_ray = ray(under_point, direction);
                    let sub = self.color_at_remaining(rng, refract_ray, remaining - 1);
                    (sub.scale(material.transparency), Ghost(sub))
                }
            } else {
                (Color::black(), Ghost(spec_black()))
            };

            let result = if material.reflective.raw > 0 && material.transparency.raw > 0 {
                // Apply the Fresnel effect.
                let reflectance = schlick(eye_vector, world_normal, n1, n2);
                surface_color.add(reflect_color.scale(reflectance)).add(
                    refract_color.scale(Fx::one().sub(reflectance)),
                )
            } else {
                surface_color.add(reflect_color).add(refract_color)
            };
            proof {
                reveal(shade_parts);
                assert(shade_parts(
                    *self,
                    world_ray,
                    intersection,
                    base,
                    ghost_reflect_sub@,
                    ghost_refract_sub@,
                    result,
                ));
                lemma_color_at_intro(
                    *self,
                    world_ray,
                    remaining as nat,
                    intersection,
                    base,
                    ghost_reflect_sub@,
                    ghost_refract_sub@,
                    result,
                );
            }
            result
        } else {
            Color::black()
        }
    }
}

/// A witnessed shading outcome at the nearest hit, whose deeper
/// contributions are themselves outcomes one level down, is one of the
/// colors the recursive shading may return.
proof fn lemma_color_at_intro(
    s: Scene,
    world_ray: Ray,
    remaining: nat,
    intersection: Intersection,
    base: Color,
    rs: Color,
    fs: Color,
    c: Color,
)
    requires
        remaining != 0,
        spec_nearest(spec_scene_intersections(s, world_ray)) == Some(intersection),
        shade_parts(s, world_ray, intersection, base, rs, fs, c),
        reflect_needed(s, intersection) ==> color_at_rec(
            s,
            reflect_ray_of(s, world_ray, intersection),
            (remaining - 1) as nat,
            rs,
        ),
        refract_needed(s, world_ray, intersection) ==> color_at_rec(
            s,
            refract_ray_of(s, world_ray, intersection),
            (remaining - 1) as nat,
            fs,
        ),
    ensures
        color_at_rec(s, world_ray, remaining, c),
{
    let isec = spec_nearest(spec_scene_intersections(s, world_ray)).unwrap();
    assert(isec == intersection);
}

/// Computes the Schlick approximation of the Fresnel reflectance for the
/// given viewing geometry and refractive indices. Under total internal
/// reflection the result is exactly one.
pub fn schlick(eyev: Tuple4, normalv: Tuple4, n1: Fx, n2: Fx) -> (r: Fx)
    ensures
        r == spec_schlick(eyev, normalv, n1, n2),
{
    proof {
        reveal(spec_schlick);
    }
    let mut cos = eyev.dot(normalv);

    if n1.raw > n2.raw {
        let n = n1.div(n2);
        let sin2_t = n.mul(n).mul(Fx::one().sub(cos.mul(cos)));

        if sin2_t.raw > FX_SCALE {
            // Total internal reflection.
            return Fx::one();
        }

        let cos_t = Fx::one().sub(sin2_t).sqrt();
        cos = cos_t;
    }

    let r = n1.sub(n2).div(n1.add(n2));
    let r0 = r.mul(r);

    r0.add(Fx::one().sub(r0).mul(Fx::one().sub(cos).powi(5)))
}

/// Computes the world normal vector at the given point.
pub fn world_normal_at(
    transform: Transform,
    geometry: Geometry,
    world_point: Tuple4,
    eye_vector: Tuple4,
) -> (r: Tuple4)
    ensures
        r == spec_world_normal_at(transform, geometry, world_point, eye_vector),
{
    proof {
        reveal(spec_world_normal_at);
    }
    let local_point = transform.world_to_local.mul_tuple(world_point);
    let local_normal = geometry.normal_at(local_point);
    let mut world_normal = transform.world_to_local.transpose().mul_tuple(local_normal);
    world_normal.w = Fx::zero();
    world_normal = world_normal.normalize();

    if world_normal.dot(eye_vector).raw < 0 {
        // The ray originates inside the object.
        world_normal = world_normal.neg();
    }

    world_normal
}

/// Sorts intersections into ascending distance order, keeping the original
/// order of entries at equal distances.
pub fn sort_intersections(xs: Vec<Intersection>) -> (r: Vec<Intersection>)
    ensures
        r@ == spec_sort_by_t(xs@),
{
    let ghost orig = xs@;
    let mut rest = xs;
    let mut result: Vec<Intersection> = Vec::new();
    while rest.len() > 0
        invariant
            result@ + spec_sort_by_t(rest@) == spec_sort_by_t(orig),
        decreases rest@.len(),
    {
        let ghost before = rest@;
        let mut mi: usize = 0;
        let mut k: usize = 1;
        while k < rest.len()
            invariant
                rest@ == before,
                rest@.len() > 0,
                mi < rest@.len(),
                k >= 1,
                min_from(rest@, k as int, mi as int) == min_from(rest@, 1, 0),
            decreases rest@.len() - k,
        {
            if rest[k].t.raw < rest[mi].t.raw {
                mi = k;
            }
            k += 1;
        }
        let x = rest.remove(mi);
        result.push(x);
        proof {
            assert(result@ + spec_sort_by_t(rest@) =~= spec_sort_by_t(orig));
        }
    }
    proof {
        assert(result@ =~= spec_sort_by_t(orig));
    }
    result
}

/// Whether the stack holds the given object.
fn contains_id(s: &Vec<ObjectId>, id: ObjectId) -> (r: bool)
    ensures
        r == s@.contains(id),
{
    let mut k: usize = 0;
    while k < s.len()
        invariant
            k <= s@.len(),
            forall|j: int| 0 <= j < k ==> s@[j] != id,
        decreases s@.len() - k,
    {
        if s[k] == id {
            return true;
        }
        k += 1;
    }
    false
}

/// The stack with every occurrence of the given object taken out.
fn remove_id(s: Vec<ObjectId>, id: ObjectId) -> (r: Vec<ObjectId>)
    ensures
        r@ == remove_id_from(s@, 0, id),
        forall|j: int| 0 <= j < r@.len() ==> s@.contains(#[trigger] r@[j]),
{
    let mut result: Vec<ObjectId> = Vec::new();
    let mut k: usize = 0;
    while k < s.len()
        invariant
            k <= s@.len(),
            result@ + remove_id_from(s@, k as int, id) == remove_id_from(s@, 0, id),
            forall|j: int| 0 <= j < result@.len() ==> s@.contains(#[trigger] result@[j]),
        decreases s@.len() - k,
    {
        if s[k] != id {
            result.push(s[k]);
            proof {
                assert(s@.contains(s@[k as int]));
            }
        }
        k += 1;
        proof {
            assert(result@ + remove_id_from(s@, k as int, id) =~= remove_id_from(s@, 0, id));
        }
    }
    result
}

/// The entries really are sorted: the distances never decrease along the
/// sorted order.
pub open spec fn sorted_by_t(s: Seq<Intersection>) -> bool {
    forall|i: int, j: int| 0 <= i < j < s.len() ==> s[i].t.raw <= s[j].t.raw
}

/// Sorting keeps exactly the entries it was given: the sorted order is a
/// permutation of the input.
pub proof fn lemma_sort_by_t_multiset(s: Seq<Intersection>)
    ensures
        spec_sort_by_t(s).to_multiset() =~= s.to_multiset(),
        spec_sort_by_t(s).len() == s.len(),
    decreases s.len(),
{
    broadcast use vstd::seq_lib::group_seq_properties;

    s.to_multiset_ensures();
    if s.len() > 0 {
        lemma_min_from_in_range(s, 1, 0);
        let mi = min_from(s, 1, 0);
        let rest = s.remove(mi);
        lemma_sort_by_t_multiset(rest);
        rest.to_multiset_ensures();
        spec_sort_by_t(rest).to_multiset_ensures();
        vstd::seq_lib::lemma_multiset_commutative(seq![s[mi]], spec_sort_by_t(rest));
        assert(seq![s[mi]] =~= Seq::empty().push(s[mi]));
        Seq::<Intersection>::empty().to_multiset_ensures();
        assert(seq![s[mi]].to_multiset() =~= Multiset::empty().insert(s[mi]));
        assert(rest.to_multiset() =~= s.to_multiset().remove(s[mi]));
        assert(s.to_multiset().count(s[mi]) >= 1) by {
            s.to_multiset_ensures();
            assert(s.contains(s[mi]));
        }
        assert(spec_sort_by_t(s).to_multiset() =~= s.to_multiset());
    }
}

/// Sorting orders the entries by ascending distance.
pub proof fn lemma_sort_by_t_sorted(s: Seq<Intersection>)
    ensures
        sorted_by_t(spec_sort_by_t(s)),
    decreases s.len(),
{
    if s.len() > 0 {
        lemma_min_from_in_range(s, 1, 0);
        let mi = min_from(s, 1, 0);
        let rest = s.remove(mi);
        let tail = spec_sort_by_t(rest);
        lemma_sort_by_t_sorted(rest);
        lemma_sort_by_t_multiset(rest);
        rest.to_multiset_ensures();
        tail.to_multiset_ensures();
        let whole = spec_sort_by_t(s);
        assert forall|i: int, j: int|
            0 <= i < j < whole.len() implies whole[i].t.raw <= whole[j].t.raw by {
            if i == 0 {
                let x = whole[j];
                assert(x == tail[j - 1]);
                assert(tail.contains(x));
                assert(rest.to_multiset().count(x) > 0);
                assert(rest.contains(x));
                let idx = choose|idx: int| 0 <= idx < rest.len() && rest[idx] == x;
                assert(rest[idx] == if idx < mi {
                    s[idx]
                } else {
                    s[idx + 1]
                });
                assert(s[mi].t.raw <= x.t.raw);
            } else {
                assert(whole[i] == tail[i - 1] && whole[j] == tail[j - 1]);
            }
        }
    }
}

/// The hit returned by the nearest-intersection walk is a true minimum:
/// where it exists it is one of the entries, its distance is non-negative,
/// and no entry with a non-negative distance is closer; where it does not,
/// every entry has a negative distance.
pub proof fn lemma_nearest_is_min(s: Seq<Intersection>)
    ensures
        spec_nearest(s) is None ==> forall|k: int| 0 <= k < s.len() ==> (#[trigger] s[k]).t.raw < 0,
        spec_nearest(s) is Some ==> {
            let i = spec_nearest(s).unwrap();
            &&& s.contains(i)
            &&& i.t.raw >= 0
            &&& forall|k: int|
                0 <= k < s.len() && (#[trigger] s[k]).t.raw >= 0 ==> i.t.raw <= s[k].t.raw
        },
{
    lemma_nearest_from_is_min(s, 0, None);
}

proof fn lemma_nearest_from_is_min(s: Seq<Intersection>, k: int, best: Option<Intersection>)
    requires
        0 <= k <= s.len(),
        best is None ==> forall|j: int| 0 <= j < k ==> (#[trigger] s[j]).t.raw < 0,
        best is Some ==> {
            let b = best.unwrap();
            &&& exists|j: int| 0 <= j < k && s[j] == b
            &&& b.t.raw >= 0
            &&& forall|j: int| 0 <= j < k && (#[trigger] s[j]).t.raw >= 0 ==> b.t.raw <= s[j].t.raw
        },
    ensures
        nearest_from(s, k, best) is None ==> forall|j: int|
            0 <= j < s.len() ==> (#[trigger] s[j]).t.raw < 0,
        nearest_from(s, k, best) is Some ==> {
            let i = nearest_from(s, k, best).unwrap();
            &&& s.contains(i)
            &&& i.t.raw >= 0
            &&& forall|j: int|
                0 <= j < s.len() && (#[trigger] s[j]).t.raw >= 0 ==> i.t.raw <= s[j].t.raw
        },
    decreases s.len() - k,
{
    if k >= s.len() {
        if best is Some {
            let b = best.unwrap();
            let j = choose|j: int| 0 <= j < k && s[j] == b;
            assert(s[j] == b);
            assert(s.contains(b));
        }
    } else {
        let better = if s[k].t.raw >= 0 && (best is None || s[k].t.raw < best.unwrap().t.raw) {
            Some(s[k])
        } else {
            best
        };
        if better is Some && (best is None || better != best) {
            assert(s[k] == better.unwrap());
        }
        lemma_nearest_from_is_min(s, k + 1, better);
    }
}

/// Sorting keeps every entry's object within range: it only rearranges the
/// entries it was given.
proof fn lemma_sort_keeps_ids(s: Seq<Intersection>, n: int)
    requires
        forall|k: int| 0 <= k < s.len() ==> (#[trigger] s[k]).object_id < n,
    ensures
        forall|k: int|
            0 <= k < spec_sort_by_t(s).len() ==> (#[trigger] spec_sort_by_t(s)[k]).object_id < n,
        spec_sort_by_t(s).len() == s.len(),
    decreases s.len(),
{
    if s.len() > 0 {
        lemma_min_from_in_range(s, 1, 0);
        let mi = min_from(s, 1, 0);
        lemma_sort_keeps_ids(s.remove(mi), n);
    }
}

/// Head-on through matched or rising media there is no total internal
/// reflection, and the Schlick reflectance collapses exactly to the base
/// reflectance: the squared ratio of the index difference to the index sum.
pub proof fn lemma_schlick_head_on(eyev: Tuple4, normalv: Tuple4, n1: Fx, n2: Fx)
    requires
        spec_dot(eyev, normalv) == FX_SCALE as int,
    ensures
        ({
            let r = sdiv(ssub(n1, n2), sadd(n1, n2));
            spec_schlick(eyev, normalv, n1, n2) == smul(r, r)
        }),
{
    reveal(spec_schlick);
    let one = Fx { raw: FX_SCALE };
    let cos0 = sdot(eyev, normalv);
    assert(10_000_000int * 10_000_000 == 100_000_000_000_000int) by (nonlinear_arith);
    assert(100_000_000_000_000int / 10_000_000 == 10_000_000int) by (nonlinear_arith);
    assert(smul(cos0, cos0) == one);
    if n1.raw > n2.raw {
        let n = sdiv(n1, n2);
        crate::fx::lemma_fx_mul_zero(smul(n, n).raw as int);
        assert(smul(smul(n, n), ssub(one, one)).raw == 0);
        lemma_sqrt_one();
        assert(ssqrt(ssub(one, smul(smul(n, n), ssub(one, one)))) == one);
    }
    assert(fx_pow(0, 5) == 0) by {
        crate::fx::lemma_fx_mul_zero(fx_pow(0, 0));
        crate::fx::lemma_fx_mul_zero(fx_pow(0, 1));
        crate::fx::lemma_fx_mul_zero(fx_pow(0, 2));
        crate::fx::lemma_fx_mul_zero(fx_pow(0, 3));
        crate::fx::lemma_fx_mul_zero(fx_pow(0, 4));
    }
    let r = sdiv(ssub(n1, n2), sadd(n1, n2));
    let r0 = smul(r, r);
    crate::fx::lemma_fx_mul_zero(ssub(one, r0).raw as int);
}

/// Under total internal reflection the Schlick reflectance is exactly one.
pub proof fn lemma_schlick_total_reflection(eyev: Tuple4, normalv: Tuple4, n1: Fx, n2: Fx)
    requires
        n1.raw > n2.raw,
        ({
            let one = Fx { raw: FX_SCALE };
            let n = sdiv(n1, n2);
            let cos0 = sdot(eyev, normalv);
            smul(smul(n, n), ssub(one, smul(cos0, cos0))).raw > FX_SCALE
        }),
    ensures
        spec_schlick(eyev, normalv, n1, n2) == (Fx { raw: FX_SCALE }),
{
    reveal(spec_schlick);
}

/// The square root of one is one.
proof fn lemma_sqrt_one()
    ensures
        crate::fx::fx_sqrt(FX_SCALE as int) == FX_SCALE as int,
{
    let x = FX_SCALE as int * FX_SCALE as int;
    assert(crate::fx::is_isqrt(x, FX_SCALE as int)) by {
        assert(10_000_000int * 10_000_000 == 100_000_000_000_000int) by (nonlinear_arith);
        assert(10_000_001int * 10_000_001 == 100_000_020_000_001int) by (nonlinear_arith);
    }
    assert(exists|r: int| crate::fx::is_isqrt(x, r)) by {
        assert(crate::fx::is_isqrt(x, FX_SCALE as int));
    }
    crate::fx::lemma_isqrt_unique(x, crate::fx::sqrt_int(x), FX_SCALE as int);
}

/// The first-minimum scan lands on a valid index whose distance is at or
/// below every scanned distance.
pub proof fn lemma_min_from_in_range(s: Seq<Intersection>, k: int, mi: int)
    requires
        0 <= mi < s.len(),
        0 <= k,
    ensures
        0 <= min_from(s, k, mi) < s.len(),
        s[min_from(s, k, mi)].t.raw <= s[mi].t.raw,
        forall|j: int| k <= j < s.len() ==> s[min_from(s, k, mi)].t.raw <= (#[trigger] s[j]).t.raw,
    decreases s.len() - k,
{
    if k < s.len() {
        let mi2 = if s[k].t.raw < s[mi].t.raw {
            k
        } else {
            mi
        };
        lemma_min_from_in_range(s, k + 1, mi2);
    }
}

} // verus!
