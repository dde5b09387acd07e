use rand::{Rng, SeedableRng, XorShiftRng};
use starbox::address::address;
use starbox::buffer::{render, CubeBuffer, StarSample};
use starbox::cube::{project, Direction, Face, Uv};
use starbox::pixel::{accumulate, PixelRecord, IRRADIANCE_MAX};
use starbox::settings::{is_valid_resolution, stars_from_thousands, uncompressed_mib};
use starbox::star::luminosity_segment;

fn dir(x: i32, y: i32, z: i32) -> Direction {
    Direction { x, y, z }
}

fn coords(uv: Uv) -> (f32, f32) {
    (uv.u_num as f32 / uv.den as f32, uv.v_num as f32 / uv.den as f32)
}

fn projected(res: u32, n: Direction) -> (Face, (f32, f32)) {
    let (face, uv) = project(res, n);
    (face, coords(uv))
}

#[test]
fn project_sanity() {
    assert_eq!(projected(128, dir(1, 0, 0)), (Face::PX, (63.5, 63.5)));
    assert_eq!(projected(128, dir(0, 1, 0)), (Face::PY, (63.5, 63.5)));
    assert_eq!(projected(128, dir(0, 0, 1)), (Face::PZ, (63.5, 63.5)));
    assert_eq!(projected(128, dir(-1, 0, 0)), (Face::NX, (63.5, 63.5)));
    assert_eq!(projected(128, dir(0, -1, 0)), (Face::NY, (63.5, 63.5)));
    assert_eq!(projected(128, dir(0, 0, -1)), (Face::NZ, (63.5, 63.5)));
}

#[test]
fn axis_scale_does_not_matter() {
    assert_eq!(projected(128, dir(1 << 30, 0, 0)), (Face::PX, (63.5, 63.5)));
    assert_eq!(projected(128, dir(0, 0, i32::MIN)), (Face::NZ, (63.5, 63.5)));
}

#[test]
fn tie_between_x_and_y_goes_to_x() {
    assert_eq!(project(64, dir(3, 3, 1)).0, Face::PX);
    assert_eq!(project(64, dir(-3, 3, 1)).0, Face::NX);
    assert_eq!(project(64, dir(-3, -3, 2)).0, Face::NX);
}

#[test]
fn tie_between_y_and_z_goes_to_y() {
    assert_eq!(project(64, dir(1, 4, -4)).0, Face::PY);
    assert_eq!(project(64, dir(1, -4, 4)).0, Face::NY);
}

#[test]
fn zero_direction_goes_to_positive_x_origin() {
    let (face, uv) = project(128, dir(0, 0, 0));
    assert_eq!(face, Face::PX);
    assert_eq!(coords(uv), (0.0, 0.0));
}

#[test]
fn off_axis_coordinates() {
    // y / x = 1/2 and z / x = -1 on the +X face.
    let (face, uv) = project(129, dir(2, 1, -2));
    assert_eq!(face, Face::PX);
    assert_eq!(coords(uv), (96.0, 0.0));
    // y / x = -1/2 and z / x = 1 on the -X face: divided by the signed x.
    let (face, uv) = project(129, dir(-2, 1, -2));
    assert_eq!(face, Face::NX);
    assert_eq!(coords(uv), (32.0, 128.0));
    // z dominant and negative: x / z = -1/4, y / z = 1/2.
    let (face, uv) = project(129, dir(1, -2, -4));
    assert_eq!(face, Face::NZ);
    assert_eq!(coords(uv), (48.0, 96.0));
}

#[test]
fn face_corners_follow_the_cross_layout() {
    let res: u32 = 128;
    let lo = Uv { u_num: 0, v_num: 0, den: 1 };
    let hi = Uv { u_num: 127, v_num: 127, den: 1 };
    let at = |x: usize, y: usize| x + y * 128;
    // (face, low corner, high corner)
    let expected = [
        (Face::PX, at(0, 127), at(127, 0)),
        (Face::NX, at(127, 255), at(0, 128)),
        (Face::PY, at(0, 383), at(127, 256)),
        (Face::NY, at(0, 384), at(127, 511)),
        (Face::PZ, at(127, 639), at(0, 512)),
        (Face::NZ, at(0, 767), at(127, 640)),
    ];
    for (face, low, high) in expected {
        assert_eq!(address(res, face, lo), low);
        assert_eq!(address(res, face, hi), high);
    }
}

#[test]
fn address_truncates_after_the_transform() {
    // u = 63.5 on +X: row 127 - 63.5 = 63.5 truncates to 63; column v = 63.5 to 63.
    let uv = Uv { u_num: 127, v_num: 127, den: 2 };
    assert_eq!(address(128, Face::PX, uv), 63 + 63 * 128);
    // -Y: row y_min + 63.5 truncates to 384 + 63.
    assert_eq!(address(128, Face::NY, uv), 63 + (384 + 63) * 128);
}

#[test]
fn two_stars_add_up_in_either_order() {
    let a = PixelRecord::empty().combine(30, 4000).combine(10, 8000);
    let b = PixelRecord::empty().combine(10, 8000).combine(30, 4000);
    assert_eq!(a, PixelRecord { irradiance: 40, temperature: 5000 });
    assert_eq!(a, b);
}

#[test]
fn weighted_temperature_truncates() {
    let p = PixelRecord::empty().combine(2, 100).combine(1, 201);
    assert_eq!(p, PixelRecord { irradiance: 3, temperature: 133 });
}

#[test]
fn zero_irradiance_leaves_record() {
    let p = PixelRecord::empty().combine(0, 9000);
    assert_eq!(p, PixelRecord::empty());
    let q = PixelRecord { irradiance: 0, temperature: 1234 }.combine(0, 5);
    assert_eq!(q.temperature, 1234);
}

#[test]
fn irradiance_clamps_at_storage_maximum() {
    let p = PixelRecord::empty().combine(IRRADIANCE_MAX, 1000).combine(IRRADIANCE_MAX, 3000);
    assert_eq!(p.irradiance, IRRADIANCE_MAX);
    assert_eq!(p.temperature, 2000);
    assert_eq!(IRRADIANCE_MAX, 65504 * 65536);
}

#[test]
fn accumulate_touches_one_pixel() {
    let mut buffer = vec![PixelRecord::empty(); 4];
    accumulate(&mut buffer, 2, 5, 3000);
    assert_eq!(buffer[2], PixelRecord { irradiance: 5, temperature: 3000 });
    assert_eq!(buffer[0], PixelRecord::empty());
    assert_eq!(buffer[3], PixelRecord::empty());
}

fn sample_stars() -> Vec<StarSample> {
    let mut stars = Vec::new();
    let mut seed: u64 = 0x2545_f491_4f6c_dd1d;
    for _ in 0..200 {
        seed ^= seed << 13;
        seed ^= seed >> 7;
        seed ^= seed << 17;
        let x = (seed & 0xffff) as i32 - 0x8000;
        let y = ((seed >> 16) & 0xffff) as i32 - 0x8000;
        let z = ((seed >> 32) & 0xffff) as i32 - 0x8000;
        let irradiance = (seed >> 48) & 0xfff;
        let temperature = 2000 + ((seed >> 20) & 0x3fff) as u32;
        stars.push(StarSample { direction: dir(x, y, z), irradiance, temperature });
    }
    stars
}

#[test]
fn render_is_reproducible() {
    let stars = sample_stars();
    let first = render(16, &stars);
    let second = render(16, &stars);
    assert_eq!(first.pixels, second.pixels);
    assert_eq!(first.pixels.len(), 6 * 16 * 16);
    let total: u64 = first.pixels.iter().map(|p| p.irradiance).sum();
    let expected: u64 = stars.iter().map(|s| s.irradiance).sum();
    assert_eq!(total, expected);
}

fn seeded_stars(seed: [u32; 4]) -> Vec<StarSample> {
    let mut rng = XorShiftRng::from_seed(seed);
    (0..500)
        .map(|_| StarSample {
            direction: dir(rng.gen(), rng.gen(), rng.gen()),
            irradiance: rng.gen_range(0, 1u64 << 20),
            temperature: rng.gen_range(2000, 40000),
        })
        .collect()
}

#[test]
fn seeded_render_is_bit_reproducible() {
    let seed = [0x1234_5678, 0x9abc_def0, 0x0fed_cba9, 0x8765_4321];
    let first = render(32, &seeded_stars(seed));
    let second = render(32, &seeded_stars(seed));
    assert_eq!(first.pixels, second.pixels);
    let other = render(32, &seeded_stars([1, 2, 3, 4]));
    assert_ne!(first.pixels, other.pixels);
}

#[test]
fn add_star_lands_on_projected_pixel() {
    let mut buffer = CubeBuffer::new(128);
    let star = StarSample { direction: dir(0, 5, 0), irradiance: 7, temperature: 6000 };
    buffer.add_star(star);
    let index = buffer.index_of(star.direction);
    // +Y centre: column 63, row 256 + 127 - 63.5 truncated.
    assert_eq!(index, 63 + 319 * 128);
    assert_eq!(buffer.pixel(index), PixelRecord { irradiance: 7, temperature: 6000 });
}

#[test]
fn luminosity_segments_by_mass() {
    assert_eq!(luminosity_segment(0), 0);
    assert_eq!(luminosity_segment(1050), 0);
    assert_eq!(luminosity_segment(1051), 1);
    assert_eq!(luminosity_segment(2400), 1);
    assert_eq!(luminosity_segment(2401), 2);
    assert_eq!(luminosity_segment(7000), 2);
    assert_eq!(luminosity_segment(7001), 3);
}

#[test]
fn run_parameters() {
    assert!(!is_valid_resolution(0));
    assert!(is_valid_resolution(2048));
    assert_eq!(uncompressed_mib(2048), 96);
    assert_eq!(uncompressed_mib(1024), 24);
    assert_eq!(stars_from_thousands(500), Some(500_000));
    assert_eq!(stars_from_thousands(usize::MAX), None);
}
