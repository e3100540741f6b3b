use rav1d::emu_edge::emu_edge_rust;

fn pixels(n: usize, seed: usize, max: usize) -> Vec<u16> {
    (0..n).map(|i| ((i * 37 + seed * 11 + 5) % (max + 1)) as u16).collect()
}

fn tmpvals(n: usize, seed: i32) -> Vec<i16> {
    (0..n as i32).map(|i| ((i * 1237 + seed * 311) % 20000 - 9000) as i16).collect()
}

#[test]
fn emu_edge_inside_copies() {
    let reference = pixels(48, 9, 1023);
    let mut dst = vec![0u16; 15];
    emu_edge_rust(4, 3, 6, 5, 1, 1, &mut dst, 5, &reference, 2, 8);
    assert_eq!(dst, vec![511, 548, 585, 622, 0, 807, 844, 881, 918, 0, 79, 116, 153, 190, 0]);
}

#[test]
fn emu_edge_top_left_outside() {
    let reference = pixels(48, 9, 1023);
    let mut dst = vec![0u16; 15];
    emu_edge_rust(4, 3, 6, 5, -2, -1, &mut dst, 5, &reference, 2, 8);
    assert_eq!(dst, vec![178, 178, 178, 215, 0, 178, 178, 178, 215, 0, 474, 474, 474, 511, 0]);
}

#[test]
fn emu_edge_bottom_right_outside() {
    let reference = pixels(48, 9, 1023);
    let mut dst = vec![0u16; 15];
    emu_edge_rust(4, 3, 6, 5, 4, 3, &mut dst, 5, &reference, 2, 8);
    assert_eq!(dst, vec![190, 227, 227, 227, 0, 486, 523, 523, 523, 0, 486, 523, 523, 523, 0]);
}

#[test]
fn emu_edge_far_beyond_bottom_right() {
    let reference = pixels(48, 9, 1023);
    let mut dst = vec![0u16; 15];
    emu_edge_rust(4, 3, 6, 5, 10, 9, &mut dst, 5, &reference, 2, 8);
    assert_eq!(dst, vec![523, 523, 523, 523, 0, 523, 523, 523, 523, 0, 523, 523, 523, 523, 0]);
}

#[test]
fn emu_edge_far_beyond_top_left() {
    let reference = pixels(48, 9, 1023);
    let mut dst = vec![0u16; 15];
    emu_edge_rust(4, 3, 6, 5, -7, -6, &mut dst, 5, &reference, 2, 8);
    assert_eq!(dst, vec![178, 178, 178, 178, 0, 178, 178, 178, 178, 0, 178, 178, 178, 178, 0]);
}
