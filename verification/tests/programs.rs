use potatocho::{ChipEight, Fault};

fn machine_with(program: &[u8]) -> ChipEight {
    let mut chip = ChipEight::new();
    assert_eq!(chip.load_program(program.to_vec()), Ok(()));
    chip
}

fn run_steps(chip: &mut ChipEight, steps: usize) {
    for _ in 0..steps {
        assert_eq!(chip.step_with(0, 0), Ok(()));
    }
}

fn lit_pixels(chip: &ChipEight) -> Vec<(usize, usize)> {
    let mut lit: Vec<(usize, usize)> = Vec::new();
    for y in 0..32usize {
        for x in 0..64usize {
            if chip.pixel(x, y) {
                lit.push((x, y));
            }
        }
    }
    lit
}

#[test]
fn add_with_carry() {
    let mut chip = machine_with(&[0x6A, 0xFF, 0x6B, 0x01, 0x8A, 0xB4]);
    run_steps(&mut chip, 3);
    assert_eq!(chip.v_register(0xA), 0);
    assert_eq!(chip.v_register(0xB), 1);
    assert_eq!(chip.v_register(0xF), 1);
    assert_eq!(chip.pc(), 0x206);
}

#[test]
fn subtract_without_borrow() {
    let mut chip = machine_with(&[0x6A, 0x05, 0x6B, 0x02, 0x8A, 0xB5]);
    run_steps(&mut chip, 3);
    assert_eq!(chip.v_register(0xA), 3);
    assert_eq!(chip.v_register(0xF), 1);
    assert_eq!(chip.pc(), 0x206);
}

#[test]
fn subtract_with_borrow_wraps() {
    let mut chip = machine_with(&[0x6A, 0x02, 0x6B, 0x05, 0x8A, 0xB5]);
    run_steps(&mut chip, 3);
    assert_eq!(chip.v_register(0xA), 253);
    assert_eq!(chip.v_register(0xF), 0);
}

#[test]
fn call_and_return_round_trip() {
    // CALL 0x206, with the RET at 0x206.
    let mut chip = machine_with(&[0x22, 0x06, 0x00, 0x00, 0x00, 0x00, 0x00, 0xEE]);
    run_steps(&mut chip, 1);
    assert_eq!(chip.pc(), 0x206);
    assert_eq!(chip.sp(), 1);
    assert_eq!(chip.stack_depth(), 1);
    run_steps(&mut chip, 1);
    assert_eq!(chip.pc(), 0x202);
    assert_eq!(chip.sp(), 0);
    assert_eq!(chip.stack_depth(), 0);
}

#[test]
fn call_and_return_round_trip_through_a_sys() {
    // CALL 0x206; at 0x206 a SYS, and the RET behind it at 0x208.
    let mut chip =
        machine_with(&[0x22, 0x06, 0x00, 0x00, 0x00, 0x00, 0x00, 0x00, 0x00, 0xEE]);
    run_steps(&mut chip, 2);
    assert_eq!(chip.pc(), 0x208);
    assert_eq!(chip.sp(), 1);
    run_steps(&mut chip, 1);
    assert_eq!(chip.pc(), 0x202);
    assert_eq!(chip.stack_depth(), 0);
    assert_eq!(chip.sp(), 0);
}

#[test]
fn draw_zero_glyph_at_origin() {
    let mut chip = machine_with(&[0xA0, 0x00, 0x60, 0x00, 0x61, 0x00, 0xD0, 0x15]);
    run_steps(&mut chip, 4);
    let expected: Vec<(usize, usize)> = vec![
        (0, 0), (1, 0), (2, 0), (3, 0),
        (0, 1), (3, 1),
        (0, 2), (3, 2),
        (0, 3), (3, 3),
        (0, 4), (1, 4), (2, 4), (3, 4),
    ];
    assert_eq!(lit_pixels(&chip), expected);
    assert_eq!(chip.v_register(0xF), 0);
    assert_eq!(chip.pc(), 0x208);
    assert_eq!(chip.i_register(), 0);
}

#[test]
fn draw_twice_for_collision() {
    let mut chip =
        machine_with(&[0xA0, 0x00, 0x60, 0x00, 0x61, 0x00, 0xD0, 0x15, 0xD0, 0x15]);
    run_steps(&mut chip, 4);
    assert_eq!(chip.v_register(0xF), 0);
    assert_eq!(lit_pixels(&chip).len(), 14);
    run_steps(&mut chip, 1);
    assert_eq!(lit_pixels(&chip), Vec::<(usize, usize)>::new());
    assert!(chip.framebuffer().iter().all(|on| !*on));
    assert_eq!(chip.v_register(0xF), 1);
}

#[test]
fn wait_for_key() {
    let mut chip = machine_with(&[0xF1, 0x0A]);
    for _ in 0..5 {
        assert_eq!(chip.step_with(0, 0), Ok(()));
        assert_eq!(chip.pc(), 0x200);
        assert_eq!(chip.v_register(1), 0);
    }
    chip.key_down(0x7);
    assert_eq!(chip.key_edge(), Some(0x7));
    assert_eq!(chip.step_with(0, 0), Ok(()));
    assert_eq!(chip.v_register(1), 7);
    assert_eq!(chip.pc(), 0x202);
    assert!(chip.is_key_held(0x7));
    assert_eq!(chip.key_edge(), None);
}

#[test]
fn wait_for_key_ignores_a_key_that_stays_held() {
    let mut chip = machine_with(&[0xF1, 0x0A, 0xF2, 0x0A]);
    chip.key_down(0x3);
    run_steps(&mut chip, 1);
    assert_eq!(chip.v_register(1), 3);
    assert_eq!(chip.pc(), 0x202);
    // The key is still down: a repeat of it is no new edge.
    chip.key_down(0x3);
    run_steps(&mut chip, 3);
    assert_eq!(chip.pc(), 0x202);
    chip.key_up(0x3);
    run_steps(&mut chip, 1);
    assert_eq!(chip.pc(), 0x202);
    chip.key_down(0x3);
    run_steps(&mut chip, 1);
    assert_eq!(chip.v_register(2), 3);
    assert_eq!(chip.pc(), 0x204);
}

#[test]
fn draw_wraps_round_both_edges() {
    // LD V0, 62; LD V1, 30; LD I, 0x20A; DRW V0, V1, 4; then four full rows.
    let mut chip = machine_with(&[
        0x60, 62, 0x61, 30, 0xA2, 0x0A, 0xD0, 0x14, 0x00, 0x00, 0xFF, 0xFF, 0xFF, 0xFF,
    ]);
    run_steps(&mut chip, 4);
    let columns: [usize; 8] = [62, 63, 0, 1, 2, 3, 4, 5];
    let rows: [usize; 4] = [30, 31, 0, 1];
    for y in 0..32usize {
        for x in 0..64usize {
            let inside: bool = columns.contains(&x) && rows.contains(&y);
            assert_eq!(chip.pixel(x, y), inside, "pixel ({}, {})", x, y);
        }
    }
    assert_eq!(lit_pixels(&chip).len(), 32);
    assert_eq!(chip.v_register(0xF), 0);
}

#[test]
fn draw_takes_coordinates_modulo_the_screen() {
    // Vx = 64 + 3 and Vy = 32 + 2 draw at (3, 2).
    let mut chip = machine_with(&[0x60, 67, 0x61, 34, 0xA2, 0x08, 0xD0, 0x11, 0x80]);
    run_steps(&mut chip, 4);
    assert_eq!(lit_pixels(&chip), vec![(3usize, 2usize)]);
}

#[test]
fn draw_with_no_rows_changes_no_pixel_and_clears_the_flag() {
    let mut chip = machine_with(&[0x6F, 0x09, 0xA0, 0x00, 0xD0, 0x00]);
    run_steps(&mut chip, 3);
    assert_eq!(lit_pixels(&chip).len(), 0);
    assert_eq!(chip.v_register(0xF), 0);
    assert_eq!(chip.pc(), 0x206);
}

#[test]
fn draw_partial_overlap_sets_the_flag_and_toggles() {
    // Row 0xF0 at (0, 0), then row 0x3C at (0, 0): columns 2 and 3 collide.
    let mut chip = machine_with(&[
        0xA2, 0x0A, 0xD0, 0x01, 0xA2, 0x0B, 0xD0, 0x01, 0x00, 0x00, 0xF0, 0x3C,
    ]);
    run_steps(&mut chip, 2);
    assert_eq!(chip.v_register(0xF), 0);
    run_steps(&mut chip, 2);
    assert_eq!(chip.v_register(0xF), 1);
    assert_eq!(
        lit_pixels(&chip),
        vec![(0usize, 0usize), (1, 0), (4, 0), (5, 0)]
    );
}

#[test]
fn a_fault_leaves_the_machine_on_the_instruction() {
    let mut chip = machine_with(&[0x60, 0x11, 0x80, 0x08]);
    run_steps(&mut chip, 1);
    for _ in 0..3 {
        assert_eq!(
            chip.step_with(0, 0),
            Err(Fault::DecodeFault { word: 0x8008 })
        );
        assert_eq!(chip.pc(), 0x202);
        assert_eq!(chip.v_register(0), 0x11);
    }
}
