use embedded_graphics::pixelcolor::{IntoStorage, Rgb565, RgbColor, WebColors};
use esp3d::color::Color565;
use esp3d::cube::make_cube;
use esp3d::display::NoPin;
use esp3d::framebuffer::{new_framebuffer, OwnedBuffer, DISPLAY_HEIGHT, DISPLAY_WIDTH, FRAMEBUFFER_SIZE};
use esp3d::scene::{clear_zbuffer, frame_period_millis, new_zbuffer, ZBUFFER_LEN};
use esp3d::swapchain::SwapChain;
use esp3d::triangle::{BouncingTriangle, Point};

#[test]
fn color_new_matches_embedded_graphics() {
    for &(r, g, b) in &[(0u8, 0u8, 0u8), (31, 63, 31), (31, 0, 0), (0, 63, 0), (0, 0, 31), (12, 40, 7)] {
        let c = Color565::new(r, g, b);
        assert_eq!(c.storage(), Rgb565::new(r, g, b).into_storage());
        assert_eq!((c.r(), c.g(), c.b()), (r, g, b));
    }
    assert_eq!(Color565::new(31, 63, 31).storage(), 0xffff);
    assert_eq!(Color565::new(0, 63, 0).storage(), Rgb565::GREEN.into_storage());
    assert_eq!(Color565::new(31, 0, 0).storage(), Rgb565::RED.into_storage());
}

#[test]
fn color_new_masks_wide_channels() {
    let c = Color565::new(255, 255, 255);
    assert_eq!((c.r(), c.g(), c.b()), (31, 63, 31));
    let c = Color565::new(32, 64, 33);
    assert_eq!((c.r(), c.g(), c.b()), (0, 0, 1));
}

#[test]
fn color_black_and_storage_round_trip() {
    assert_eq!(Color565::black().storage(), 0);
    assert_eq!(Color565::black().storage(), Rgb565::BLACK.into_storage());
    let cyan = Rgb565::CSS_CYAN.into_storage();
    let c = Color565::from_storage(cyan);
    assert_eq!(c.storage(), cyan);
    assert_eq!(Color565::new(c.r(), c.g(), c.b()), c);
}

#[test]
fn display_size_matches_panel() {
    assert_eq!(DISPLAY_WIDTH, sky_ili9341::options::FRAMEBUFFER_HEIGHT);
    assert_eq!(DISPLAY_HEIGHT, sky_ili9341::options::FRAMEBUFFER_WIDTH);
    assert_eq!(FRAMEBUFFER_SIZE, DISPLAY_WIDTH as usize * DISPLAY_HEIGHT as usize);
    assert_eq!(FRAMEBUFFER_SIZE, 76800);
}

#[test]
fn new_framebuffer_is_black() {
    let buf = new_framebuffer();
    assert_eq!(buf.nr_elements(), FRAMEBUFFER_SIZE);
    assert_eq!(buf.get(0), Color565::black());
    assert_eq!(buf.get(FRAMEBUFFER_SIZE - 1), Color565::black());
    assert!(buf.as_bytes().iter().all(|&b| b == 0));
}

#[test]
fn set_then_get_returns_color() {
    let mut buf = OwnedBuffer::black(10);
    let red = Color565::new(31, 0, 0);
    let odd = Color565::from_storage(0x1234);
    buf.set(3, red);
    buf.set(9, odd);
    assert_eq!(buf.get(3), red);
    assert_eq!(buf.get(9), odd);
    assert_eq!(buf.get(2), Color565::black());
    assert_eq!(buf.get(4), Color565::black());
    buf.set(3, odd);
    assert_eq!(buf.get(3), odd);
    assert_eq!(buf.nr_elements(), 10);
}

#[test]
fn bytes_are_high_byte_first() {
    let mut buf = OwnedBuffer::black(3);
    buf.set(0, Color565::from_storage(0x1234));
    buf.set(1, Color565::new(31, 0, 0));
    buf.set(2, Color565::new(0, 0, 31));
    assert_eq!(buf.as_bytes(), vec![0x12, 0x34, 0xF8, 0x00, 0x00, 0x1F]);
}

#[test]
fn bytes_match_swapped_storage_in_memory() {
    // The panel reads each stored (byte-swapped) pixel in memory order on a
    // little-endian machine.
    let colors = [0x1234u16, 0xabcd, 0x00ff, 0xff00];
    let mut buf = OwnedBuffer::black(colors.len());
    let mut expected = Vec::new();
    for (i, &c) in colors.iter().enumerate() {
        buf.set(i, Color565::from_storage(c));
        expected.extend_from_slice(&c.swap_bytes().to_le_bytes());
    }
    assert_eq!(buf.as_bytes(), expected);
}

#[test]
fn triangle_starts_at_origin() {
    let t = BouncingTriangle::new();
    assert_eq!(t.offset(), 0);
    assert_eq!(
        t.vertices_now(),
        (Point { x: 0, y: 0 }, Point { x: 50, y: 0 }, Point { x: 25, y: 50 })
    );
}

#[test]
fn triangle_turns_at_the_bottom() {
    let mut t = BouncingTriangle::new();
    for _ in 0..47 {
        assert_eq!(t.advance(), 5);
    }
    assert_eq!(t.offset(), 235);
    assert_eq!(t.advance(), 5);
    assert_eq!(t.offset(), 240);
    assert_eq!(t.advance(), -5);
    assert_eq!(t.offset(), 235);
    assert_eq!(
        t.vertices_now(),
        (Point { x: 0, y: 235 }, Point { x: 50, y: 235 }, Point { x: 25, y: 285 })
    );
}

#[test]
fn triangle_turns_at_the_top() {
    let mut t = BouncingTriangle::new();
    for _ in 0..96 {
        t.advance();
    }
    assert_eq!(t.offset(), 0);
    assert_eq!(t.advance(), -5);
    assert_eq!(t.offset(), -5);
    assert_eq!(t.advance(), 5);
    assert_eq!(t.offset(), 0);
}

#[test]
fn triangle_motion_is_periodic_and_bounded() {
    let mut t = BouncingTriangle::new();
    let mut offsets = Vec::new();
    for _ in 0..300 {
        offsets.push(t.offset());
        t.advance();
    }
    for i in 0..(300 - 98) {
        assert_eq!(offsets[i], offsets[i + 98]);
    }
    assert!(offsets.iter().all(|&o| (-5..=240).contains(&o) && o % 5 == 0));
    assert_eq!(*offsets.iter().max().unwrap(), 240);
    assert_eq!(*offsets.iter().min().unwrap(), -5);
}

#[test]
fn cube_mesh_shape() {
    let (vertices, faces) = make_cube();
    assert_eq!(vertices.len(), 8);
    assert_eq!(faces.len(), 12);
    assert_eq!(vertices[0], [-1, -1, 1]);
    assert_eq!(vertices[6], [1, 1, -1]);
    assert_eq!(faces[0], [0, 1, 2]);
    assert_eq!(faces[11], [4, 3, 7]);
    for f in &faces {
        for &i in f {
            assert!(i < vertices.len());
        }
    }
}

#[test]
fn cube_faces_point_outwards() {
    let (v, faces) = make_cube();
    for f in &faces {
        let p: Vec<[i32; 3]> = f.iter().map(|&i| [v[i][0] as i32, v[i][1] as i32, v[i][2] as i32]).collect();
        let e1 = [p[1][0] - p[0][0], p[1][1] - p[0][1], p[1][2] - p[0][2]];
        let e2 = [p[2][0] - p[0][0], p[2][1] - p[0][1], p[2][2] - p[0][2]];
        let n = [
            e1[1] * e2[2] - e1[2] * e2[1],
            e1[2] * e2[0] - e1[0] * e2[2],
            e1[0] * e2[1] - e1[1] * e2[0],
        ];
        assert_eq!(n[0] * p[0][0] + n[1] * p[0][1] + n[2] * p[0][2], 4);
    }
}

#[test]
fn cube_sides_have_two_triangles_each() {
    let (v, faces) = make_cube();
    let mut count = std::collections::HashMap::new();
    for f in &faces {
        let mut side = None;
        for axis in 0..3 {
            let s = v[f[0]][axis];
            if f.iter().all(|&i| v[i][axis] == s) {
                side = Some((axis, s));
            }
        }
        *count.entry(side.unwrap()).or_insert(0) += 1;
    }
    assert_eq!(count.len(), 6);
    assert!(count.values().all(|&c| c == 2));
}

#[test]
fn swapchain_hands_buffers_back_and_forth() {
    let mut sc = SwapChain::new(1u32);
    assert!(sc.has_back_buffer());
    *sc.back_buffer() += 10;
    assert_eq!(*sc.back_buffer(), 11);
    let presented = sc.take_back_buffer();
    assert_eq!(presented, 11);
    assert!(!sc.has_back_buffer());
    sc.put_back_buffer(2);
    assert!(sc.has_back_buffer());
    assert_eq!(*sc.back_buffer(), 2);
}

#[test]
fn zbuffer_is_far_and_clears() {
    let mut z = new_zbuffer();
    assert_eq!(z.len(), ZBUFFER_LEN);
    assert_eq!(z.len(), DISPLAY_WIDTH as usize * DISPLAY_HEIGHT as usize);
    assert!(z.iter().all(|&d| d == embedded_3dgfx::Z_MAX_VALUE));
    z[5] = 17;
    z[76799] = 0;
    clear_zbuffer(&mut z);
    assert_eq!(z.len(), ZBUFFER_LEN);
    assert!(z.iter().all(|&d| d == u32::MAX));
}

#[test]
fn frame_period_of_fps() {
    assert_eq!(frame_period_millis(30), 33);
    assert_eq!(frame_period_millis(1), 1000);
    assert_eq!(frame_period_millis(60), 16);
    assert_eq!(frame_period_millis(255), 3);
}

#[test]
fn no_pin_never_fails() {
    let mut pin = NoPin;
    assert!(pin.set_low().is_ok());
    assert!(pin.set_high().is_ok());
}
