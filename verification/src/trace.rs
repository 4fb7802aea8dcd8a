//! The ray tracer (the march) and the sweep driver.
//!
//! A march steps outward from the light in fixed increments. Each step
//! probes the scene for occlusion at the current pixel, attenuates the
//! carried color, and emits a (pixel, color) pair; the march terminates
//! exactly when the probe first leaves the drawable bounds.

use vstd::prelude::*;

use crate::color::Color;
use crate::color::attenuate;
use crate::color::attenuate_spec;
use crate::geometry::COORD_BOUND;
use crate::geometry::Vec2;
use crate::geometry::in_coord_bound;
use crate::scene::Wall;
use crate::scene::World;
use crate::scene::get_color_modifier_of_pixel;
use crate::scene::modifier_spec;

verus! {

/// X coordinate of the probe point after `k` steps of `step` from `origin`.
pub open spec fn px_at(origin: Vec2, step: Vec2, k: int) -> int {
    origin.x + k * step.x
}

/// Y coordinate of the probe point after `k` steps of `step` from `origin`.
pub open spec fn py_at(origin: Vec2, step: Vec2, k: int) -> int {
    origin.y + k * step.y
}

/// The probe point after `k` steps lies within the drawable bounds
/// `[0, window.x] x [0, window.y]`.
pub open spec fn in_window_at(origin: Vec2, step: Vec2, window: Vec2, k: int) -> bool {
    &&& 0 <= px_at(origin, step, k) <= window.x
    &&& 0 <= py_at(origin, step, k) <= window.y
}

/// The color carried by the ray after the step at index `k` has been
/// applied: starting from `base`, every step subtracts the occlusion
/// modifier of its own probe point and forces alpha opaque.
pub open spec fn color_at(walls: Seq<Wall>, origin: Vec2, step: Vec2, base: Color, k: nat) -> Color
    decreases k,
{
    let prev = if k == 0 {
        base
    } else {
        color_at(walls, origin, step, base, (k - 1) as nat)
    };
    attenuate_spec(
        prev,
        modifier_spec(walls, px_at(origin, step, k as int), py_at(origin, step, k as int)),
    )
}

/// What one full march emits: `out` is exactly the per-step sequence of
/// (probe pixel, attenuated color) pairs, in step order, cut off at the
/// first step whose probe leaves the window.
pub open spec fn is_trace(
    walls: Seq<Wall>,
    origin: Vec2,
    step: Vec2,
    window: Vec2,
    base: Color,
    out: Seq<(Vec2, Color)>,
) -> bool {
    &&& forall|k: int| 0 <= k < out.len() ==> in_window_at(origin, step, window, k)
    &&& !in_window_at(origin, step, window, out.len() as int)
    &&& forall|k: int|
        0 <= k < out.len() ==> {
            &&& (#[trigger] out[k]).0.x == px_at(origin, step, k)
            &&& out[k].0.y == py_at(origin, step, k)
            &&& out[k].1 == color_at(walls, origin, step, base, k as nat)
        }
}

/// One step of the march, at the probe point `pixel`: bounds-check,
/// occlusion lookup, attenuation. Returns the attenuated color to carry
/// forward, or `None` when the probe has left the window — the march's
/// termination signal, not an error.
pub fn plot(pixel: Vec2, window_vec: &Vec2, ray_color: &Color, world: &World) -> (out: Option<
    Color,
>)
    requires
        world.wf(),
        in_coord_bound(*window_vec),
    ensures
        out.is_some() == (0 <= pixel.x <= window_vec.x && 0 <= pixel.y <= window_vec.y),
        out.is_some() ==> out.unwrap() == attenuate_spec(
            *ray_color,
            modifier_spec(world.walls@, pixel.x as int, pixel.y as int),
        ),
{
    if pixel.x < 0 || pixel.x > window_vec.x || pixel.y < 0 || pixel.y > window_vec.y {
        return None;
    }
    let modifier = get_color_modifier_of_pixel(pixel, world);
    Some(attenuate(ray_color, &modifier))
}

proof fn lemma_mul_succ(k: int, s: int)
    ensures
        (k + 1) * s == k * s + s,
{
    assert((k + 1) * s == k * s + s) by (nonlinear_arith);
}

/// Termination measure of the march: the distance left, along whichever
/// axis the step advances, before the probe must leave the window.
pub open spec fn march_measure(px: int, py: int, step: Vec2, window: Vec2) -> int {
    if step.x > 0 {
        window.x - px
    } else if step.x < 0 {
        px
    } else if step.y > 0 {
        window.y - py
    } else {
        py
    }
}

/// March one ray from `position`, advancing by `step_vec` (the unit
/// direction scaled by the step size) each step, and return the emitted
/// (pixel, color) sequence: one pair per step, each color obtained from the
/// previous by subtracting the occlusion modifier of the step's probe
/// point, ending exactly when the probe first leaves the window.
///
/// A zero advance vector would march in place forever, so callers must
/// hand a non-zero one.
pub fn trace_and_plot(
    position: &Vec2,
    step_vec: Vec2,
    window_vec: &Vec2,
    ray_color: Color,
    world: &World,
) -> (out: Vec<(Vec2, Color)>)
    requires
        world.wf(),
        in_coord_bound(*position),
        in_coord_bound(*window_vec),
        in_coord_bound(step_vec),
        !(step_vec.x == 0 && step_vec.y == 0),
    ensures
        is_trace(world.walls@, *position, step_vec, *window_vec, ray_color, out@),
{
    let mut out: Vec<(Vec2, Color)> = Vec::new();
    let mut px: i64 = position.x;
    let mut py: i64 = position.y;
    let mut color = ray_color;
    proof {
        assert(0 * (step_vec.x as int) == 0) by (nonlinear_arith);
        assert(0 * (step_vec.y as int) == 0) by (nonlinear_arith);
    }
    loop
        invariant
            world.wf(),
            in_coord_bound(*position),
            in_coord_bound(*window_vec),
            in_coord_bound(step_vec),
            !(step_vec.x == 0 && step_vec.y == 0),
            px as int == px_at(*position, step_vec, out@.len() as int),
            py as int == py_at(*position, step_vec, out@.len() as int),
            forall|k: int|
                0 <= k < out@.len() ==> in_window_at(*position, step_vec, *window_vec, k),
            forall|k: int|
                0 <= k < out@.len() ==> {
                    &&& (#[trigger] out@[k]).0.x == px_at(*position, step_vec, k)
                    &&& out@[k].0.y == py_at(*position, step_vec, k)
                    &&& out@[k].1 == color_at(world.walls@, *position, step_vec, ray_color, k as nat)
                },
            color == (if out@.len() == 0 {
                ray_color
            } else {
                color_at(world.walls@, *position, step_vec, ray_color, (out@.len() - 1) as nat)
            }),
        ensures
            is_trace(world.walls@, *position, step_vec, *window_vec, ray_color, out@),
        decreases march_measure(px as int, py as int, step_vec, *window_vec) + COORD_BOUND,
    {
        let ghost k: int = out@.len() as int;
        let pixel = Vec2 { x: px, y: py };
        let stepped = plot(pixel, window_vec, &color, world);
        match stepped {
            None => {
                break;
            },
            Some(c) => {
                color = c;
                out.push((pixel, c));
                px = px + step_vec.x;
                py = py + step_vec.y;
                proof {
                    lemma_mul_succ(k, step_vec.x as int);
                    lemma_mul_succ(k, step_vec.y as int);
                }
            },
        }
    }
    out
}

/// The sweep driver: trace one ray per advance vector, in the given order
/// (callers hand directions in ascending angular order so that
/// last-writer-wins overlaps on the sink stay deterministic), each ray
/// starting from the light's position with the light's base color. The
/// emissions of direction `i` are `out[i]`, in step order.
pub fn sweep(world: &World, window_vec: &Vec2, step_vecs: &Vec<Vec2>) -> (out: Vec<
    Vec<(Vec2, Color)>,
>)
    requires
        world.wf(),
        in_coord_bound(world.light.position),
        in_coord_bound(*window_vec),
        forall|i: int| 0 <= i < step_vecs@.len() ==> in_coord_bound(#[trigger] step_vecs@[i]),
        forall|i: int|
            0 <= i < step_vecs@.len() ==> !((#[trigger] step_vecs@[i]).x == 0 && step_vecs@[i].y
                == 0),
    ensures
        out@.len() == step_vecs@.len(),
        forall|i: int|
            0 <= i < out@.len() ==> is_trace(
                world.walls@,
                world.light.position,
                step_vecs@[i],
                *window_vec,
                world.light.color,
                (#[trigger] out@[i])@,
            ),
{
    let mut out: Vec<Vec<(Vec2, Color)>> = Vec::new();
    let n = step_vecs.len();
    let mut i: usize = 0;
    while i < n
        invariant
            n == step_vecs@.len(),
            0 <= i <= n,
            out@.len() == i as int,
            world.wf(),
            in_coord_bound(world.light.position),
            in_coord_bound(*window_vec),
            forall|j: int| 0 <= j < step_vecs@.len() ==> in_coord_bound(#[trigger] step_vecs@[j]),
            forall|j: int|
                0 <= j < step_vecs@.len() ==> !((#[trigger] step_vecs@[j]).x == 0 && step_vecs@[j].y
                    == 0),
            forall|j: int|
                0 <= j < i as int ==> is_trace(
                    world.walls@,
                    world.light.position,
                    step_vecs@[j],
                    *window_vec,
                    world.light.color,
                    (#[trigger] out@[j])@,
                ),
        decreases n - i,
    {
        let traced = trace_and_plot(
            &world.light.position,
            step_vecs[i],
            window_vec,
            world.light.color,
            world,
        );
        out.push(traced);
        i += 1;
    }
    out
}

/// Law: in a world with zero walls, every step's modifier is the sentinel
/// black, so every emitted color keeps the base color's red, green and blue
/// channels unchanged, with alpha forced opaque.
pub proof fn lemma_no_walls_color_unchanged(
    walls: Seq<Wall>,
    origin: Vec2,
    step: Vec2,
    base: Color,
    k: nat,
)
    requires
        walls.len() == 0,
    ensures
        color_at(walls, origin, step, base, k).r == base.r,
        color_at(walls, origin, step, base, k).g == base.g,
        color_at(walls, origin, step, base, k).b == base.b,
        color_at(walls, origin, step, base, k).a == 255,
    decreases k,
{
    if k > 0 {
        lemma_no_walls_color_unchanged(walls, origin, step, base, (k - 1) as nat);
    }
}

/// Law: as long as no probe point up to step `k` has fallen within any
/// wall's occlusion threshold, the carried color keeps the base color's
/// red, green and blue channels: a per-channel decrease can start only at
/// the first step whose probe a wall covers.
pub proof fn lemma_unoccluded_prefix_unchanged(
    walls: Seq<Wall>,
    origin: Vec2,
    step: Vec2,
    base: Color,
    k: nat,
)
    requires
        forall|j: int|
            0 <= j <= k as int ==> modifier_spec(walls, px_at(origin, step, j), py_at(origin, step, j))
                == Color::black_spec(),
    ensures
        color_at(walls, origin, step, base, k).r == base.r,
        color_at(walls, origin, step, base, k).g == base.g,
        color_at(walls, origin, step, base, k).b == base.b,
        color_at(walls, origin, step, base, k).a == 255,
    decreases k,
{
    if k > 0 {
        lemma_unoccluded_prefix_unchanged(walls, origin, step, base, (k - 1) as nat);
    }
}

/// Law: along any traced ray, in any world, every channel of the carried
/// color is non-increasing from one emitted step to the next — attenuation
/// only ever subtracts, clamped at zero.
pub proof fn lemma_channels_monotonic(
    walls: Seq<Wall>,
    origin: Vec2,
    step: Vec2,
    base: Color,
    k: nat,
)
    ensures
        color_at(walls, origin, step, base, (k + 1) as nat).r <= color_at(
            walls,
            origin,
            step,
            base,
            k,
        ).r,
        color_at(walls, origin, step, base, (k + 1) as nat).g <= color_at(
            walls,
            origin,
            step,
            base,
            k,
        ).g,
        color_at(walls, origin, step, base, (k + 1) as nat).b <= color_at(
            walls,
            origin,
            step,
            base,
            k,
        ).b,
{
}

/// Law: every emitted color is fully opaque — attenuation resets alpha to
/// 255 at every step, whatever the scene holds.
pub proof fn lemma_alpha_opaque(walls: Seq<Wall>, origin: Vec2, step: Vec2, base: Color, k: nat)
    ensures
        color_at(walls, origin, step, base, k).a == 255,
{
}

} // verus!
