use glasscast::color::Color;
use glasscast::color::attenuate;
use glasscast::geometry::Vec2;
use glasscast::geometry::intersect_lines;
use glasscast::scene::Light;
use glasscast::scene::Wall;
use glasscast::scene::World;
use glasscast::scene::find_intersect;
use glasscast::scene::get_color_modifier_of_pixel;
use glasscast::trace::sweep;
use glasscast::trace::trace_and_plot;

fn white() -> Color {
    Color { r: 255, g: 255, b: 255, a: 255 }
}

fn wall(raw: (u8, u8, u8, u8), sx: i64, sy: i64, ex: i64, ey: i64) -> Wall {
    Wall {
        raw_color: raw,
        color: Color { r: raw.0, g: raw.1, b: raw.2, a: raw.3 },
        start: Vec2 { x: sx, y: sy },
        end: Vec2 { x: ex, y: ey },
    }
}

fn light_at(x: i64, y: i64, raw: (u8, u8, u8, u8)) -> Light {
    Light {
        fixed: true,
        raw_color: raw,
        color: Color { r: raw.0, g: raw.1, b: raw.2, a: raw.3 },
        position: Vec2 { x, y },
    }
}

#[test]
fn intersect_crossing_segments() {
    // The diagonals of a 10x10 square cross at (5, 5).
    let s1 = Vec2 { x: 0, y: 0 };
    let e1 = Vec2 { x: 10, y: 10 };
    let s2 = Vec2 { x: 0, y: 10 };
    let e2 = Vec2 { x: 10, y: 0 };
    let p = intersect_lines(s1, e1, s2, e2).unwrap();
    assert!(p.den != 0);
    assert_eq!(p.num_x, 5 * p.den);
    assert_eq!(p.num_y, 5 * p.den);
}

#[test]
fn intersect_point_satisfies_both_line_equations() {
    let s1 = Vec2 { x: -3, y: 7 };
    let e1 = Vec2 { x: 11, y: 2 };
    let s2 = Vec2 { x: 4, y: -9 };
    let e2 = Vec2 { x: 5, y: 13 };
    let p = intersect_lines(s1, e1, s2, e2).unwrap();
    let a1 = (e1.y - s1.y) as i128;
    let b1 = (s1.x - e1.x) as i128;
    let c1 = a1 * s1.x as i128 + b1 * s1.y as i128;
    let a2 = (e2.y - s2.y) as i128;
    let b2 = (s2.x - e2.x) as i128;
    let c2 = a2 * s2.x as i128 + b2 * s2.y as i128;
    assert_eq!(a1 * p.num_x + b1 * p.num_y, c1 * p.den);
    assert_eq!(a2 * p.num_x + b2 * p.num_y, c2 * p.den);
}

#[test]
fn intersect_parallel_returns_none() {
    let s1 = Vec2 { x: 0, y: 0 };
    let e1 = Vec2 { x: 10, y: 0 };
    let s2 = Vec2 { x: 0, y: 5 };
    let e2 = Vec2 { x: 10, y: 5 };
    assert!(intersect_lines(s1, e1, s2, e2).is_none());
}

#[test]
fn intersect_identical_segments_return_none() {
    let s = Vec2 { x: 2, y: 3 };
    let e = Vec2 { x: 9, y: 8 };
    assert!(intersect_lines(s, e, s, e).is_none());
}

#[test]
fn probe_within_threshold_hits() {
    // A vertical wall at x = 5 pixels; a point half a pixel away is a hit,
    // a point exactly one pixel away is not (the threshold is strict).
    let w = wall((100, 0, 0, 255), 5000, -5000, 5000, 5000);
    assert!(find_intersect(&w, Vec2 { x: 4500, y: 0 }));
    assert!(!find_intersect(&w, Vec2 { x: 4000, y: 0 }));
    assert!(!find_intersect(&w, Vec2 { x: 6000, y: 0 }));
}

#[test]
fn probe_beyond_endpoint_uses_endpoint_distance() {
    let w = wall((0, 0, 0, 255), 0, 0, 1000, 0);
    // Past the far endpoint: distance is measured to the endpoint itself.
    assert!(find_intersect(&w, Vec2 { x: 1900, y: 0 }));
    assert!(!find_intersect(&w, Vec2 { x: 2000, y: 0 }));
}

#[test]
fn probe_degenerate_wall_is_a_point() {
    let w = wall((0, 0, 0, 255), 3000, 3000, 3000, 3000);
    assert!(find_intersect(&w, Vec2 { x: 3000, y: 3500 }));
    assert!(!find_intersect(&w, Vec2 { x: 3000, y: 4000 }));
}

#[test]
fn modifier_first_wall_in_order_wins() {
    let w1 = wall((10, 20, 30, 255), 5000, -5000, 5000, 5000);
    let w2 = wall((200, 200, 200, 255), 5000, -5000, 5000, 5000);
    let world = World { walls: vec![w1, w2], light: light_at(0, 0, (255, 255, 255, 255)) };
    let c = get_color_modifier_of_pixel(Vec2 { x: 5000, y: 0 }, &world);
    assert_eq!(c, Color { r: 10, g: 20, b: 30, a: 255 });
}

#[test]
fn modifier_without_occlusion_is_black() {
    let world = World { walls: vec![], light: light_at(0, 0, (255, 255, 255, 255)) };
    let c = get_color_modifier_of_pixel(Vec2 { x: 1234, y: 4321 }, &world);
    assert_eq!(c, Color { r: 0, g: 0, b: 0, a: 255 });
}

#[test]
fn attenuate_clamps_and_forces_alpha() {
    let ray = Color { r: 10, g: 20, b: 30, a: 0 };
    let modifier = Color { r: 100, g: 5, b: 30, a: 9 };
    let out = attenuate(&ray, &modifier);
    assert_eq!(out, Color { r: 0, g: 15, b: 0, a: 255 });
}

#[test]
fn white_ray_without_walls_stays_white() {
    // Light at (0,0), no walls, 10x10 canvas, direction (1,0), step one
    // pixel: 11 white samples at x = 0..=10 pixels, then termination.
    let world = World { walls: vec![], light: light_at(0, 0, (255, 255, 255, 255)) };
    let out = trace_and_plot(
        &Vec2 { x: 0, y: 0 },
        Vec2 { x: 1000, y: 0 },
        &Vec2 { x: 10000, y: 10000 },
        white(),
        &world,
    );
    assert_eq!(out.len(), 11);
    for (k, (pixel, color)) in out.iter().enumerate() {
        assert_eq!(*pixel, Vec2 { x: k as i64 * 1000, y: 0 });
        assert_eq!(*color, white());
    }
}

#[test]
fn single_wall_attenuates_once() {
    // One wall crossing the ray at x = 5 pixels with color (100,0,0,255):
    // white through x = 4, then (155,255,255,255) from x = 5 onward. With a
    // one-pixel step and a one-pixel probe threshold only the sample at
    // x = 5 falls within the wall's threshold, so the attenuation applies
    // exactly once.
    let world = World {
        walls: vec![wall((100, 0, 0, 255), 5000, -5000, 5000, 5000)],
        light: light_at(0, 0, (255, 255, 255, 255)),
    };
    let out = trace_and_plot(
        &Vec2 { x: 0, y: 0 },
        Vec2 { x: 1000, y: 0 },
        &Vec2 { x: 10000, y: 10000 },
        white(),
        &world,
    );
    assert_eq!(out.len(), 11);
    for (k, (pixel, color)) in out.iter().enumerate() {
        assert_eq!(*pixel, Vec2 { x: k as i64 * 1000, y: 0 });
        if k <= 4 {
            assert_eq!(*color, white());
        } else {
            assert_eq!(*color, Color { r: 155, g: 255, b: 255, a: 255 });
        }
    }
}

#[test]
fn channels_never_increase_along_a_ray() {
    let world = World {
        walls: vec![
            wall((90, 40, 10, 255), 3000, -5000, 3000, 5000),
            wall((90, 40, 10, 255), 7000, -5000, 7000, 5000),
        ],
        light: light_at(0, 0, (200, 100, 50, 255)),
    };
    let out = trace_and_plot(
        &Vec2 { x: 0, y: 0 },
        Vec2 { x: 1000, y: 0 },
        &Vec2 { x: 10000, y: 10000 },
        Color { r: 200, g: 100, b: 50, a: 255 },
        &world,
    );
    assert_eq!(out.len(), 11);
    // The decrease starts exactly at the first sample within a wall's
    // threshold (x = 3 pixels) and applies again at the second wall.
    assert_eq!(out[2].1, Color { r: 200, g: 100, b: 50, a: 255 });
    assert_eq!(out[3].1, Color { r: 110, g: 60, b: 40, a: 255 });
    assert_eq!(out[7].1, Color { r: 20, g: 20, b: 30, a: 255 });
    for k in 1..out.len() {
        assert!(out[k].1.r <= out[k - 1].1.r);
        assert!(out[k].1.g <= out[k - 1].1.g);
        assert!(out[k].1.b <= out[k - 1].1.b);
    }
}

#[test]
fn emitted_alpha_is_always_opaque() {
    // Even from a transparent base color, every emitted color has alpha 255.
    let world = World {
        walls: vec![wall((5, 5, 5, 0), 2000, -5000, 2000, 5000)],
        light: light_at(0, 0, (40, 40, 40, 0)),
    };
    let out = trace_and_plot(
        &Vec2 { x: 0, y: 0 },
        Vec2 { x: 1000, y: 0 },
        &Vec2 { x: 10000, y: 10000 },
        Color { r: 40, g: 40, b: 40, a: 0 },
        &world,
    );
    assert!(!out.is_empty());
    for (_, color) in out.iter() {
        assert_eq!(color.a, 255);
    }
}

#[test]
fn diagonal_ray_exits_at_the_corner() {
    let world = World { walls: vec![], light: light_at(9000, 9000, (255, 255, 255, 255)) };
    let out = trace_and_plot(
        &Vec2 { x: 9000, y: 9000 },
        Vec2 { x: 1000, y: 1000 },
        &Vec2 { x: 10000, y: 10000 },
        white(),
        &world,
    );
    assert_eq!(out.len(), 2);
    assert_eq!(out[0].0, Vec2 { x: 9000, y: 9000 });
    assert_eq!(out[1].0, Vec2 { x: 10000, y: 10000 });
}

#[test]
fn ray_starting_outside_emits_nothing() {
    let world = World { walls: vec![], light: light_at(-1000, 0, (255, 255, 255, 255)) };
    let out = trace_and_plot(
        &Vec2 { x: -1000, y: 0 },
        Vec2 { x: 1000, y: 0 },
        &Vec2 { x: 10000, y: 10000 },
        white(),
        &world,
    );
    assert!(out.is_empty());
}

#[test]
fn load_colors_resolves_raw_tuples() {
    let mut world = World {
        walls: vec![Wall {
            raw_color: (1, 2, 3, 4),
            color: Color { r: 0, g: 0, b: 0, a: 0 },
            start: Vec2 { x: 10, y: 20 },
            end: Vec2 { x: 30, y: 40 },
        }],
        light: Light {
            fixed: false,
            raw_color: (9, 8, 7, 6),
            color: Color { r: 0, g: 0, b: 0, a: 0 },
            position: Vec2 { x: 50, y: 60 },
        },
    };
    world.load_colors();
    assert_eq!(world.walls[0].color, Color { r: 1, g: 2, b: 3, a: 4 });
    assert_eq!(world.walls[0].start, Vec2 { x: 10, y: 20 });
    assert_eq!(world.walls[0].end, Vec2 { x: 30, y: 40 });
    assert_eq!(world.light.color, Color { r: 9, g: 8, b: 7, a: 6 });
    assert_eq!(world.light.position, Vec2 { x: 50, y: 60 });
    assert!(!world.light.fixed);
}

#[test]
fn sweep_traces_each_direction_in_order() {
    let world = World {
        walls: vec![wall((100, 0, 0, 255), 5000, -5000, 5000, 5000)],
        light: light_at(0, 0, (255, 255, 255, 255)),
    };
    let window = Vec2 { x: 10000, y: 10000 };
    let dirs = vec![Vec2 { x: 1000, y: 0 }, Vec2 { x: 0, y: 1000 }];
    let out = sweep(&world, &window, &dirs);
    assert_eq!(out.len(), 2);
    for (i, dir) in dirs.iter().enumerate() {
        let single = trace_and_plot(&world.light.position, *dir, &window, world.light.color, &world);
        assert_eq!(out[i], single);
    }
    // The ray along +x crosses the wall; the ray along +y never does.
    assert_eq!(out[0][10].1, Color { r: 155, g: 255, b: 255, a: 255 });
    assert_eq!(out[1][10].1, white());
}
