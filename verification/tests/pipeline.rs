use first::color::Rgb8;
use first::raster::render;
use first::shader::shade;

// A caller's shader, as the command-line program builds it: a pinhole camera,
// one sphere, and a sky that fades from light blue to white. Its arithmetic is
// `f32`; the library supplies the rule of `shade` and the loop of `render`.

const WIDTH: u32 = 400;
const HEIGHT: u32 = 225;

fn dot(a: [f32; 3], b: [f32; 3]) -> f32 {
    a[0] * b[0] + a[1] * b[1] + a[2] * b[2]
}

/// Direction of the ray through pixel `(i, j)` of a 16:9 viewport two units
/// high, one unit in front of a camera at the origin.
fn direction(i: u32, j: u32) -> [f32; 3] {
    let viewport_height: f32 = 2.0;
    let viewport_width: f32 = 16.0 / 9.0 * viewport_height;
    let u = i as f32 / (WIDTH as f32 - 1.0);
    let v = j as f32 / (HEIGHT as f32 - 1.0);
    [
        -viewport_width * (1.0 / 2.0) + u * viewport_width,
        -viewport_height * (1.0 / 2.0) + v * viewport_height,
        -1.0,
    ]
}

/// Whether a ray from the origin meets the sphere of radius one half around
/// `(0, 0, -1)`.
fn hits(direction: [f32; 3]) -> bool {
    let oc = [0.0, 0.0, 1.0];
    let a = dot(direction, direction);
    let b = 2.0 * dot(direction, oc);
    let c = dot(oc, oc) - 0.5 * 0.5;
    b * b - 4.0 * a * c > 0.0
}

fn blend(direction: [f32; 3]) -> f32 {
    let unit_y = direction[1] * (1.0 / dot(direction, direction).sqrt());
    0.5 * (unit_y + 1.0)
}

fn sky(direction: [f32; 3]) -> Rgb8 {
    let t = blend(direction);
    Rgb8 {
        r: (((1.0 - t) * 0.5 + t) * 255.0) as u8,
        g: (((1.0 - t) * 0.7 + t) * 255.0) as u8,
        b: (((1.0 - t) + t) * 255.0) as u8,
    }
}

fn color(i: u32, j: u32) -> Rgb8 {
    let d = direction(i, j);
    shade(hits(d), || sky(d))
}

fn pixel(bytes: &[u8], i: u32, j: u32) -> [u8; 3] {
    let at = 3 * (j as usize * WIDTH as usize + i as usize);
    [bytes[at], bytes[at + 1], bytes[at + 2]]
}

#[test]
fn center_of_the_default_view_is_red() {
    let bytes = render(WIDTH, HEIGHT, color);
    assert_eq!(bytes.len(), 3 * 400 * 225);
    assert_eq!(pixel(&bytes, WIDTH / 2, HEIGHT / 2), [255, 0, 0]);
}

#[test]
fn corner_of_the_default_view_is_sky() {
    let bytes = render(WIDTH, HEIGHT, color);
    let corner = pixel(&bytes, 0, 0);
    assert_ne!(corner, [255, 0, 0]);
    let t = blend(direction(0, 0));
    assert!((t - 0.2798978).abs() < 1e-6);
    assert_eq!(corner, [163, 199, 255]);
}

#[test]
fn default_view_renders_the_same_twice() {
    assert_eq!(render(WIDTH, HEIGHT, color), render(WIDTH, HEIGHT, color));
}
