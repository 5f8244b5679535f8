use ascii_cube::face::{face_table, CoordRule};
use ascii_cube::framebuffer::{FrameBuffer, Sample};
use ascii_cube::{CUBE_HALF_WIDTH, OFFSET_X, OFFSET_Y, SCREEN_HEIGHT, SCREEN_WIDTH};

const CAM_DISTANCE: f32 = 50.0;
const K1: f32 = 20.0;
const SAMPLE_STEP: f32 = 0.2;

fn rotated_x(a: f32, b: f32, c: f32, i: f32, j: f32, k: f32) -> f32 {
    j * a.sin() * b.sin() * c.cos() + k * a.cos() * b.sin() * c.cos()
        - j * a.cos() * c.sin()
        + k * a.sin() * c.sin()
        + i * b.cos() * c.cos()
}

fn rotated_y(a: f32, b: f32, c: f32, i: f32, j: f32, k: f32) -> f32 {
    j * a.cos() * c.cos() - k * a.sin() * c.cos() + j * a.sin() * b.sin() * c.sin()
        + k * a.cos() * b.sin() * c.sin()
        + i * b.cos() * c.sin()
}

fn rotated_z(a: f32, b: f32, _c: f32, i: f32, j: f32, k: f32) -> f32 {
    k * a.cos() * b.cos() + j * a.sin() * b.cos() - i * b.sin()
}

fn rule_value(r: CoordRule, u: f32, v: f32, half: f32) -> f32 {
    match r {
        CoordRule::PlusU => u,
        CoordRule::MinusU => -u,
        CoordRule::PlusV => v,
        CoordRule::MinusV => -v,
        CoordRule::PlusHalf => half,
        CoordRule::MinusHalf => -half,
    }
}

fn project(a: f32, b: f32, c: f32, i: f32, j: f32, k: f32) -> Option<(u32, u32, f32)> {
    let x = rotated_x(a, b, c, i, j, k);
    let y = rotated_y(a, b, c, i, j, k);
    let z = rotated_z(a, b, c, i, j, k) + CAM_DISTANCE;
    let z_recip = 1.0 / z;
    if !z_recip.is_finite() || z_recip <= 0.0 {
        return None;
    }
    let xp = (SCREEN_WIDTH as f32 / 2.0 + OFFSET_X as f32 + K1 * z_recip * x) as u32;
    let yp = (SCREEN_HEIGHT as f32 / 2.0 + OFFSET_Y as f32 + K1 * z_recip * y) as u32;
    Some((xp, yp, z_recip))
}

fn render_frame(a: f32, b: f32, c: f32) -> FrameBuffer {
    let mut fb = FrameBuffer::new(SCREEN_WIDTH, SCREEN_HEIGHT);
    let faces = face_table();
    let half = CUBE_HALF_WIDTH as f32;
    let mut samples: Vec<Sample> = Vec::new();
    let mut u = -half;
    while u < half {
        let mut v = -half;
        while v < half {
            for f in faces.iter() {
                let i = rule_value(f.i_rule, u, v, half);
                let j = rule_value(f.j_rule, u, v, half);
                let k = rule_value(f.k_rule, u, v, half);
                if let Some((xp, yp, z_recip)) = project(a, b, c, i, j, k) {
                    samples.push(Sample { xp, yp, depth: z_recip.to_bits(), glyph: f.glyph });
                }
            }
            v += SAMPLE_STEP;
        }
        u += SAMPLE_STEP;
    }
    fb.rasterize(&samples);
    fb
}

fn silhouette(fb: &FrameBuffer) -> Vec<bool> {
    fb.glyphs.iter().map(|g| *g != ' ').collect()
}

#[test]
fn zero_angles_rotation_is_identity() {
    for &(i, j, k) in [(1.0f32, 2.0f32, 3.0f32), (-15.0, 7.5, 0.25), (0.0, 0.0, 0.0)].iter() {
        assert_eq!(rotated_x(0.0, 0.0, 0.0, i, j, k), i);
        assert_eq!(rotated_y(0.0, 0.0, 0.0, i, j, k), j);
        assert_eq!(rotated_z(0.0, 0.0, 0.0, i, j, k), k);
    }
}

#[test]
fn rotation_preserves_norm() {
    let angles = [(0.3f32, 1.1f32, 2.7f32), (5.0, 0.05, 4.4), (-1.0, 3.9, 0.0)];
    let points = [(3.0f32, -4.0f32, 12.0f32), (15.0, 15.0, 15.0), (0.1, 0.0, -0.2)];
    for &(a, b, c) in angles.iter() {
        for &(i, j, k) in points.iter() {
            let x = rotated_x(a, b, c, i, j, k);
            let y = rotated_y(a, b, c, i, j, k);
            let z = rotated_z(a, b, c, i, j, k);
            let before = (i * i + j * j + k * k).sqrt();
            let after = (x * x + y * y + z * z).sqrt();
            assert!((before - after).abs() <= 1e-3 * (1.0 + before));
        }
    }
}

#[test]
fn projector_is_deterministic() {
    let first = project(0.4, 1.3, 2.2, 7.0, -3.0, 11.0);
    let second = project(0.4, 1.3, 2.2, 7.0, -3.0, 11.0);
    assert_eq!(first, second);
    let fb1 = render_frame(0.7, 0.7, 0.3);
    let fb2 = render_frame(0.7, 0.7, 0.3);
    assert_eq!(fb1.depth, fb2.depth);
    assert_eq!(fb1.glyphs, fb2.glyphs);
}

#[test]
fn front_face_fills_block() {
    let fb = render_frame(0.0, 0.0, 0.0);
    let w = SCREEN_WIDTH as usize;
    let front_depth = (1.0f32 / 35.0).to_bits();
    // The front face (pinned at -half, facing the camera) projects to a
    // contiguous block at reciprocal depth 1/(50-15); faces that share its
    // nearest edge tie on depth and claim one boundary row and column first.
    for row in 36..=52usize {
        for col in 51..=67usize {
            let idx = row * w + col;
            assert_eq!(fb.glyphs[idx], '*');
            assert_eq!(fb.depth[idx], front_depth);
        }
    }
    for row in 36..=52usize {
        assert_eq!(fb.glyphs[row * w + 68], '&');
        assert_eq!(fb.depth[row * w + 68], front_depth);
    }
    for col in 51..=67usize {
        assert_eq!(fb.glyphs[53 * w + col], '+');
        assert_eq!(fb.depth[53 * w + col], front_depth);
    }
    // Away from the cube nothing is drawn.
    assert_eq!(fb.glyphs[10 * w + 10], ' ');
    assert_eq!(fb.glyphs[30 * w + 45], ' ');
}

#[test]
fn wrap_scenario_repeats_silhouette() {
    let fb0 = render_frame(0.0, 0.0, 0.0);
    let mut angle = 0.0f32;
    for _ in 0..126 {
        angle += 0.05;
    }
    let fb1 = render_frame(angle, angle, angle);
    let s0 = silhouette(&fb0);
    let s1 = silhouette(&fb1);
    let mut inter = 0usize;
    let mut union = 0usize;
    for (p, q) in s0.iter().zip(s1.iter()) {
        if *p && *q {
            inter += 1;
        }
        if *p || *q {
            union += 1;
        }
    }
    assert!(union > 0);
    // One hundred twenty-six steps of 0.05 come back to just past a full
    // turn, so the silhouette nearly repeats.
    assert!(10 * inter >= 8 * union);
}
