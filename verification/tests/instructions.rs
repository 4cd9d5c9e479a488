use potatocho::opcode::Opcode;
use potatocho::{ChipEight, Fault};

fn ready() -> ChipEight {
    ChipEight::new()
}

fn holds_invariant(chip: &ChipEight) -> bool {
    chip.pc() <= 4095 && chip.sp() <= 16 && chip.stack_depth() == chip.sp() as usize
}

#[test]
fn new_machine_is_at_the_program_base_with_everything_zero() {
    let chip = ready();
    assert_eq!(chip.pc(), 0x200);
    assert_eq!(chip.sp(), 0);
    assert_eq!(chip.stack_depth(), 0);
    assert_eq!(chip.i_register(), 0);
    assert_eq!(chip.delay_timer(), 0);
    assert_eq!(chip.sound_timer(), 0);
    assert!(!chip.audio_on());
    for x in 0..16usize {
        assert_eq!(chip.v_register(x), 0);
    }
    let pixels: Vec<bool> = chip.framebuffer();
    assert_eq!(pixels.len(), 2048);
    assert!(pixels.iter().all(|on| !*on));
    for a in 80..4096u16 {
        assert_eq!(chip.read_memory(a), 0);
    }
    for key in 0..=255u8 {
        assert!(!chip.is_key_held(key));
    }
    assert_eq!(chip.key_edge(), None);
}

#[test]
fn new_machine_holds_the_font() {
    let chip = ready();
    let font: [[u8; 5]; 16] = [
        [0xF0, 0x90, 0x90, 0x90, 0xF0],
        [0x20, 0x60, 0x20, 0x20, 0x70],
        [0xF0, 0x10, 0xF0, 0x80, 0xF0],
        [0xF0, 0x10, 0xF0, 0x10, 0xF0],
        [0x90, 0x90, 0xF0, 0x10, 0x10],
        [0xF0, 0x80, 0xF0, 0x10, 0xF0],
        [0xF0, 0x80, 0xF0, 0x90, 0xF0],
        [0xF0, 0x10, 0x20, 0x40, 0x40],
        [0xF0, 0x90, 0xF0, 0x90, 0xF0],
        [0xF0, 0x90, 0xF0, 0x10, 0xF0],
        [0xF0, 0x90, 0xF0, 0x90, 0x90],
        [0xE0, 0x90, 0xE0, 0x90, 0xE0],
        [0xF0, 0x80, 0x80, 0x80, 0xF0],
        [0xE0, 0x90, 0x90, 0x90, 0xE0],
        [0xF0, 0x80, 0xF0, 0x80, 0xF0],
        [0xF0, 0x80, 0xF0, 0x80, 0x80],
    ];
    assert_eq!(potatocho::font::SPRITES, font);
    for d in 0..16usize {
        for j in 0..5usize {
            assert_eq!(chip.read_memory((5 * d + j) as u16), font[d][j]);
        }
    }
}

#[test]
fn init_memory_places_each_glyph_and_zeroes_the_rest() {
    let mut sprites: [[u8; 5]; 16] = [[0; 5]; 16];
    for d in 0..16usize {
        for j in 0..5usize {
            sprites[d][j] = (16 * d + j + 1) as u8;
        }
    }
    let memory: [u8; 4096] = ChipEight::init_memory(sprites);
    for d in 0..16usize {
        for j in 0..5usize {
            assert_eq!(memory[5 * d + j], sprites[d][j]);
        }
    }
    assert!(memory[80..].iter().all(|b| *b == 0));
}

#[test]
fn font_address_of_every_digit() {
    for d in 0..16u8 {
        let mut chip = ready();
        chip.set_vx_equals_data(3, d);
        chip.set_i_to_sprite(3);
        assert_eq!(chip.i_register(), 5 * d as u16);
        for j in 0..5u16 {
            assert_eq!(
                chip.read_memory(chip.i_register() + j),
                potatocho::font::SPRITES[d as usize][j as usize]
            );
        }
    }
}

#[test]
fn font_address_uses_the_low_nibble() {
    let mut chip = ready();
    chip.set_vx_equals_data(0, 0xAB);
    chip.set_i_to_sprite(0);
    assert_eq!(chip.i_register(), 5 * 0xB);
    assert_eq!(chip.pc(), 0x204);
}

#[test]
fn clear_screen_turns_every_pixel_off() {
    let mut chip = ready();
    chip.set_i_to_address(0);
    chip.draw_n_bytes_at_xy(0, 0, 5);
    assert!(chip.framebuffer().iter().any(|on| *on));
    let pc: u16 = chip.pc();
    chip.clear_screen();
    assert!(chip.framebuffer().iter().all(|on| !*on));
    for y in 0..32usize {
        for x in 0..64usize {
            assert!(!chip.pixel(x, y));
        }
    }
    assert_eq!(chip.pc(), pc + 2);
}

#[test]
fn sys_only_moves_the_program_counter() {
    let mut chip = ready();
    chip.jump_to_machine_code();
    assert_eq!(chip.pc(), 0x202);
    assert_eq!(chip.execute_with(0x0123, 0), Ok(()));
    assert_eq!(chip.pc(), 0x204);
}

#[test]
fn load_byte_then_skip_if_equal_skips() {
    for kk in [0u8, 1, 0x7F, 0xFF] {
        let mut chip = ready();
        chip.set_vx_equals_data(4, kk);
        assert_eq!(chip.pc(), 0x202);
        chip.skip_if_vx_equals_data(4, kk);
        assert_eq!(chip.pc(), 0x206);
    }
}

#[test]
fn load_byte_then_skip_if_not_equal_does_not_skip() {
    for kk in [0u8, 1, 0x7F, 0xFF] {
        let mut chip = ready();
        chip.set_vx_equals_data(4, kk);
        chip.skip_if_vx_not_equals_data(4, kk);
        assert_eq!(chip.pc(), 0x204);
    }
}

#[test]
fn skips_on_bytes_that_differ() {
    let mut chip = ready();
    chip.set_vx_equals_data(4, 9);
    chip.skip_if_vx_equals_data(4, 10);
    assert_eq!(chip.pc(), 0x204);
    chip.skip_if_vx_not_equals_data(4, 10);
    assert_eq!(chip.pc(), 0x208);
}

#[test]
fn skips_on_registers() {
    let mut chip = ready();
    chip.set_vx_equals_data(1, 9);
    chip.set_vx_equals_data(2, 9);
    chip.set_vx_equals_data(3, 8);
    let pc: u16 = chip.pc();
    chip.skip_if_vx_equals_vy(1, 2);
    assert_eq!(chip.pc(), pc + 4);
    chip.skip_if_vx_equals_vy(1, 3);
    assert_eq!(chip.pc(), pc + 6);
    chip.skip_if_vx_not_equals_vy(1, 2);
    assert_eq!(chip.pc(), pc + 8);
    chip.skip_if_vx_not_equals_vy(1, 3);
    assert_eq!(chip.pc(), pc + 12);
}

#[test]
fn add_byte_wraps_and_leaves_the_flag() {
    let mut chip = ready();
    chip.set_vx_equals_data(0xF, 7);
    chip.set_vx_equals_data(2, 250);
    chip.add_assign_data_to_vx(2, 10);
    assert_eq!(chip.v_register(2), 4);
    assert_eq!(chip.v_register(0xF), 7);
}

#[test]
fn add_of_every_pair() {
    for a in 0..=255u8 {
        for b in 0..=255u8 {
            let mut chip = ready();
            chip.set_vx_equals_data(0, a);
            chip.set_vx_equals_data(1, b);
            chip.add_assign_vy_to_vx(0, 1);
            let sum: u16 = a as u16 + b as u16;
            assert_eq!(chip.v_register(0) as u16, sum % 256);
            assert_eq!(chip.v_register(0xF), if sum > 255 { 1 } else { 0 });
            assert_eq!(chip.v_register(1), b);
        }
    }
}

#[test]
fn sub_of_every_pair() {
    for a in 0..=255u8 {
        for b in 0..=255u8 {
            let mut chip = ready();
            chip.set_vx_equals_data(0, a);
            chip.set_vx_equals_data(1, b);
            chip.sub_assign_vy_to_vx(0, 1);
            assert_eq!(chip.v_register(0), a.wrapping_sub(b));
            assert_eq!(chip.v_register(0xF), if a >= b { 1 } else { 0 });
        }
    }
}

#[test]
fn sub_of_equal_values_sets_the_flag() {
    let mut chip = ready();
    chip.set_vx_equals_data(0, 9);
    chip.set_vx_equals_data(1, 9);
    chip.sub_assign_vy_to_vx(0, 1);
    assert_eq!(chip.v_register(0), 0);
    assert_eq!(chip.v_register(0xF), 1);
}

#[test]
fn subn_of_every_pair() {
    for a in 0..=255u8 {
        for b in 0..=255u8 {
            let mut chip = ready();
            chip.set_vx_equals_data(0, a);
            chip.set_vx_equals_data(1, b);
            chip.sub_vx_from_vy(0, 1);
            assert_eq!(chip.v_register(0), b.wrapping_sub(a));
            assert_eq!(chip.v_register(0xF), if b >= a { 1 } else { 0 });
        }
    }
}

#[test]
fn shift_right_of_every_value() {
    for v in 0..=255u8 {
        let mut chip = ready();
        chip.set_vx_equals_data(5, v);
        chip.set_vx_equals_data(6, 0xAA);
        chip.shift_right_vx(5, 6);
        assert_eq!(chip.v_register(5), v >> 1);
        assert_eq!(chip.v_register(0xF), v & 1);
        assert_eq!(chip.v_register(6), 0xAA);
    }
}

#[test]
fn shift_left_of_every_value() {
    for v in 0..=255u8 {
        let mut chip = ready();
        chip.set_vx_equals_data(5, v);
        chip.set_vx_equals_data(6, 0xAA);
        chip.shift_left_vx(5, 6);
        assert_eq!(chip.v_register(5) as u16, (v as u16 * 2) % 256);
        assert_eq!(chip.v_register(0xF), (v >> 7) & 1);
        assert_eq!(chip.v_register(6), 0xAA);
    }
}

#[test]
fn the_flag_is_written_last() {
    // With x = F the flag is what stays in VF.
    let mut chip = ready();
    chip.set_vx_equals_data(0xF, 200);
    chip.set_vx_equals_data(1, 100);
    chip.add_assign_vy_to_vx(0xF, 1);
    assert_eq!(chip.v_register(0xF), 1);

    chip.set_vx_equals_data(0xF, 5);
    chip.set_vx_equals_data(1, 9);
    chip.sub_assign_vy_to_vx(0xF, 1);
    assert_eq!(chip.v_register(0xF), 0);

    chip.set_vx_equals_data(0xF, 5);
    chip.sub_vx_from_vy(0xF, 1);
    assert_eq!(chip.v_register(0xF), 1);

    chip.set_vx_equals_data(0xF, 0x06);
    chip.shift_right_vx(0xF, 0);
    assert_eq!(chip.v_register(0xF), 0);

    chip.set_vx_equals_data(0xF, 0x81);
    chip.shift_left_vx(0xF, 0);
    assert_eq!(chip.v_register(0xF), 1);
}

#[test]
fn logic_instructions() {
    let mut chip = ready();
    chip.set_vx_equals_data(1, 0b1100_1010);
    chip.set_vx_equals_data(2, 0b1010_0110);
    chip.set_vx_equals_vy(3, 1);
    assert_eq!(chip.v_register(3), 0b1100_1010);
    chip.bitor_assign_vy_to_vx(3, 2);
    assert_eq!(chip.v_register(3), 0b1110_1110);
    chip.set_vx_equals_vy(4, 1);
    chip.bitand_assign_vy_to_vx(4, 2);
    assert_eq!(chip.v_register(4), 0b1000_0010);
    chip.set_vx_equals_vy(5, 1);
    chip.bitxor_assign_vy_to_vx(5, 2);
    assert_eq!(chip.v_register(5), 0b0110_1100);
    assert_eq!(chip.v_register(0xF), 0);
    assert_eq!(chip.pc(), 0x200 + 2 * 8);
}

#[test]
fn jumps() {
    let mut chip = ready();
    chip.jump_to_address(0x345);
    assert_eq!(chip.pc(), 0x345);
    chip.set_vx_equals_data(0, 0x10);
    chip.jump_to_address_plus_v0(0x400);
    assert_eq!(chip.pc(), 0x410);
}

#[test]
fn jumps_stay_within_ram() {
    let mut chip = ready();
    chip.jump_to_address(0xF345);
    assert_eq!(chip.pc(), 0x345);
    chip.set_vx_equals_data(0, 0xFF);
    chip.jump_to_address_plus_v0(0xFFF);
    assert_eq!(chip.pc(), 0x0FE);
    assert!(holds_invariant(&chip));
}

#[test]
fn program_counter_wraps_at_the_end_of_ram() {
    let mut chip = ready();
    chip.jump_to_address(0xFFE);
    chip.jump_to_machine_code();
    assert_eq!(chip.pc(), 0);
    chip.jump_to_address(0xFFE);
    chip.set_vx_equals_data(0, 1);
    assert_eq!(chip.pc(), 0);
    chip.jump_to_address(0xFFE);
    chip.skip_if_vx_equals_data(0, 1);
    assert_eq!(chip.pc(), 2);
}

#[test]
fn fetch_reads_high_byte_first() {
    let mut chip = ready();
    assert_eq!(chip.load_program(vec![0x12, 0x34, 0xAB, 0xCD]), Ok(()));
    assert_eq!(chip.fetch(), 0x1234);
    chip.jump_to_address(0x202);
    assert_eq!(chip.fetch(), 0xABCD);
}

#[test]
fn fetch_at_the_last_address_takes_the_low_byte_from_address_zero() {
    let mut chip = ready();
    chip.set_i_to_address(0xFFF);
    chip.set_vx_equals_data(0, 0x6B);
    chip.store_v_registers(0);
    chip.jump_to_address(0xFFF);
    // RAM[0xFFF] is 0x6B and RAM[0] is the first byte of the font.
    assert_eq!(chip.fetch(), 0x6BF0);
}

#[test]
fn call_pushes_and_return_pops() {
    let mut chip = ready();
    assert_eq!(chip.call_subroutine_at_address(0x300), Ok(()));
    assert_eq!(chip.pc(), 0x300);
    assert_eq!(chip.sp(), 1);
    assert_eq!(chip.call_subroutine_at_address(0x400), Ok(()));
    assert_eq!(chip.sp(), 2);
    assert_eq!(chip.return_from_subroutine(), Ok(()));
    assert_eq!(chip.pc(), 0x302);
    assert_eq!(chip.sp(), 1);
    assert_eq!(chip.return_from_subroutine(), Ok(()));
    assert_eq!(chip.pc(), 0x202);
    assert_eq!(chip.sp(), 0);
    assert_eq!(chip.stack_depth(), 0);
}

#[test]
fn return_on_an_empty_stack_is_a_stack_underflow() {
    let mut chip = ready();
    assert_eq!(chip.return_from_subroutine(), Err(Fault::StackUnderflow));
    assert_eq!(chip.pc(), 0x200);
    assert_eq!(chip.sp(), 0);
    assert_eq!(chip.execute_with(0x00EE, 0), Err(Fault::StackUnderflow));
    assert_eq!(chip.pc(), 0x200);
}

#[test]
fn the_seventeenth_call_is_a_stack_overflow() {
    let mut chip = ready();
    for depth in 0..16u8 {
        assert_eq!(chip.sp(), depth);
        assert_eq!(chip.call_subroutine_at_address(0x300), Ok(()));
    }
    assert_eq!(chip.sp(), 16);
    assert_eq!(chip.stack_depth(), 16);
    assert_eq!(
        chip.call_subroutine_at_address(0x400),
        Err(Fault::StackOverflow)
    );
    assert_eq!(chip.pc(), 0x300);
    assert_eq!(chip.sp(), 16);
    assert_eq!(chip.execute_with(0x2400, 0), Err(Fault::StackOverflow));
    assert_eq!(chip.stack_depth(), 16);
    assert!(holds_invariant(&chip));
}

#[test]
fn address_register_instructions() {
    let mut chip = ready();
    chip.set_i_to_address(0x123);
    assert_eq!(chip.i_register(), 0x123);
    chip.set_vx_equals_data(7, 0xF0);
    chip.add_assign_vx_to_i(7);
    assert_eq!(chip.i_register(), 0x213);
    assert_eq!(chip.v_register(0xF), 0);
}

#[test]
fn address_register_sum_wraps_at_sixteen_bits() {
    let mut chip = ready();
    chip.set_i_to_address(0xFFFF);
    chip.set_vx_equals_data(7, 2);
    chip.add_assign_vx_to_i(7);
    assert_eq!(chip.i_register(), 1);
}

#[test]
fn bcd_of_every_value() {
    for v in 0..=255u8 {
        let mut chip = ready();
        chip.set_i_to_address(0x300);
        chip.set_vx_equals_data(9, v);
        chip.set_i_to_bcd(9);
        assert_eq!(chip.read_memory(0x300), v / 100);
        assert_eq!(chip.read_memory(0x301), (v / 10) % 10);
        assert_eq!(chip.read_memory(0x302), v % 10);
        assert_eq!(chip.i_register(), 0x300);
    }
}

#[test]
fn bcd_of_a_known_value() {
    let mut chip = ready();
    chip.set_i_to_address(0x400);
    chip.set_vx_equals_data(0, 207);
    chip.set_i_to_bcd(0);
    assert_eq!(chip.read_memory(0x400), 2);
    assert_eq!(chip.read_memory(0x401), 0);
    assert_eq!(chip.read_memory(0x402), 7);
    assert_eq!(chip.read_memory(0x403), 0);
}

#[test]
fn bcd_at_the_end_of_ram_wraps() {
    let mut chip = ready();
    chip.set_i_to_address(0xFFF);
    chip.set_vx_equals_data(0, 123);
    chip.set_i_to_bcd(0);
    assert_eq!(chip.read_memory(0xFFF), 1);
    assert_eq!(chip.read_memory(0x000), 2);
    assert_eq!(chip.read_memory(0x001), 3);
}

#[test]
fn store_then_load_restores_the_registers() {
    for x in 0..16usize {
        let mut chip = ready();
        for k in 0..16usize {
            chip.set_vx_equals_data(k, (17 * k + 3) as u8);
        }
        chip.set_i_to_address(0x380);
        chip.store_v_registers(x);
        assert_eq!(chip.i_register(), 0x380);
        for k in 0..16usize {
            let expected: u8 = if k <= x { (17 * k + 3) as u8 } else { 0 };
            assert_eq!(chip.read_memory(0x380 + k as u16), expected);
        }
        for k in 0..16usize {
            chip.set_vx_equals_data(k, 0xEE);
        }
        chip.restore_v_registers(x);
        assert_eq!(chip.i_register(), 0x380);
        for k in 0..16usize {
            let expected: u8 = if k <= x { (17 * k + 3) as u8 } else { 0xEE };
            assert_eq!(chip.v_register(k), expected);
        }
    }
}

#[test]
fn store_at_the_end_of_ram_wraps() {
    let mut chip = ready();
    chip.set_vx_equals_data(0, 0x11);
    chip.set_vx_equals_data(1, 0x22);
    chip.set_vx_equals_data(2, 0x33);
    chip.set_i_to_address(0xFFE);
    chip.store_v_registers(2);
    assert_eq!(chip.read_memory(0xFFE), 0x11);
    assert_eq!(chip.read_memory(0xFFF), 0x22);
    assert_eq!(chip.read_memory(0x000), 0x33);
    assert_eq!(chip.read_memory(0x001), 0x90);
    chip.set_vx_equals_data(0, 0);
    chip.set_vx_equals_data(1, 0);
    chip.set_vx_equals_data(2, 0);
    chip.restore_v_registers(2);
    assert_eq!(chip.v_register(0), 0x11);
    assert_eq!(chip.v_register(1), 0x22);
    assert_eq!(chip.v_register(2), 0x33);
}

#[test]
fn only_the_low_twelve_bits_of_i_reach_ram() {
    let mut chip = ready();
    chip.set_i_to_address(0xF300);
    chip.set_vx_equals_data(0, 0x5A);
    chip.store_v_registers(0);
    assert_eq!(chip.read_memory(0x300), 0x5A);
    assert_eq!(chip.i_register(), 0xF300);
}

#[test]
fn drawing_twice_restores_the_screen() {
    let mut chip = ready();
    chip.set_i_to_address(5 * 8);
    chip.set_vx_equals_data(0, 10);
    chip.set_vx_equals_data(1, 12);
    chip.draw_n_bytes_at_xy(0, 1, 5);
    assert_eq!(chip.v_register(0xF), 0);
    let shown: Vec<bool> = chip.framebuffer();
    chip.set_i_to_address(5 * 3);
    chip.set_vx_equals_data(0, 11);
    chip.draw_n_bytes_at_xy(0, 1, 5);
    let first_flag: u8 = chip.v_register(0xF);
    assert_eq!(first_flag, 1);
    chip.draw_n_bytes_at_xy(0, 1, 5);
    assert_eq!(chip.framebuffer(), shown);
    // The glyph has set bits on pixels that were off before its first draw.
    assert_eq!(chip.v_register(0xF), 1);
}

#[test]
fn drawing_twice_onto_lit_pixels_clears_the_flag_the_second_time() {
    // The glyph is drawn onto itself: the first draw turns every pixel of
    // it off, so the second draw has nothing to collide with.
    let mut chip = ready();
    chip.set_i_to_address(0);
    chip.draw_n_bytes_at_xy(0, 0, 5);
    let shown: Vec<bool> = chip.framebuffer();
    chip.draw_n_bytes_at_xy(0, 0, 5);
    assert_eq!(chip.v_register(0xF), 1);
    chip.draw_n_bytes_at_xy(0, 0, 5);
    assert_eq!(chip.v_register(0xF), 0);
    assert_eq!(chip.framebuffer(), shown);
}

#[test]
fn framebuffer_is_row_major() {
    let mut chip = ready();
    chip.set_i_to_address(0x300);
    chip.set_vx_equals_data(0, 0x80);
    chip.store_v_registers(0);
    chip.set_vx_equals_data(1, 9);
    chip.set_vx_equals_data(2, 4);
    chip.draw_n_bytes_at_xy(1, 2, 1);
    let pixels: Vec<bool> = chip.framebuffer();
    for (at, on) in pixels.iter().enumerate() {
        assert_eq!(*on, at == 64 * 4 + 9);
    }
    assert!(chip.pixel(9, 4));
}

#[test]
fn random_byte_is_masked() {
    for random in [0u8, 0x0F, 0xF0, 0xA5, 0xFF] {
        for kk in [0u8, 0x0F, 0x3C, 0xFF] {
            let mut chip = ready();
            chip.set_vx_equals_masked(2, kk, random);
            assert_eq!(chip.v_register(2), random & kk);
            assert_eq!(chip.pc(), 0x202);
        }
    }
}

#[test]
fn random_instruction_stays_under_the_mask() {
    let mut chip = ready();
    for _ in 0..200 {
        chip.set_vx_equals_rand(1, 0x0F);
        assert_eq!(chip.v_register(1) & 0xF0, 0);
        assert_eq!(chip.execute(0xC30F), Ok(()));
        assert_eq!(chip.v_register(3) & 0xF0, 0);
        chip.set_vx_equals_rand(2, 0x00);
        assert_eq!(chip.v_register(2), 0);
    }
}

#[test]
fn random_instruction_draws_fresh_bytes() {
    let mut chip = ready();
    let mut seen: Vec<u8> = Vec::new();
    for _ in 0..256 {
        chip.set_vx_equals_rand(1, 0xFF);
        if !seen.contains(&chip.v_register(1)) {
            seen.push(chip.v_register(1));
        }
    }
    assert!(seen.len() > 1);
}

#[test]
fn timer_registers() {
    let mut chip = ready();
    chip.set_vx_equals_data(1, 33);
    chip.set_delay_equals_vx(1);
    assert_eq!(chip.delay_timer(), 33);
    chip.set_vx_equals_data(2, 44);
    chip.set_sound_equals_vx(2);
    assert_eq!(chip.sound_timer(), 44);
    assert!(chip.audio_on());
    chip.set_vx_equals_delay(3);
    assert_eq!(chip.v_register(3), 33);
    assert_eq!(chip.pc(), 0x200 + 2 * 5);
}

#[test]
fn key_skips() {
    let mut chip = ready();
    chip.set_vx_equals_data(1, 0x5);
    let pc: u16 = chip.pc();
    chip.skip_if_vx_pressed(1);
    assert_eq!(chip.pc(), pc + 2);
    chip.skip_if_vx_not_pressed(1);
    assert_eq!(chip.pc(), pc + 6);
    chip.key_down(0x5);
    chip.skip_if_vx_pressed(1);
    assert_eq!(chip.pc(), pc + 10);
    chip.skip_if_vx_not_pressed(1);
    assert_eq!(chip.pc(), pc + 12);
}

#[test]
fn key_skips_look_at_the_low_nibble() {
    let mut chip = ready();
    chip.key_down(0x5);
    chip.set_vx_equals_data(1, 0xC5);
    chip.skip_if_vx_pressed(1);
    assert_eq!(chip.pc(), 0x206);
}

#[test]
fn perform_runs_a_decoded_instruction() {
    let mut chip = ready();
    assert_eq!(chip.perform(Opcode::LdByte { x: 3, kk: 0x42 }, 0), Ok(()));
    assert_eq!(chip.v_register(3), 0x42);
    assert_eq!(chip.perform(Opcode::Rnd { x: 4, kk: 0x0F }, 0xA7), Ok(()));
    assert_eq!(chip.v_register(4), 0x07);
    assert_eq!(chip.perform(Opcode::Ret, 0), Err(Fault::StackUnderflow));
    assert_eq!(chip.pc(), 0x204);
}

#[test]
fn every_instruction_keeps_the_invariant() {
    let words: [u16; 40] = [
        0x0000, 0x00E0, 0x00EE, 0x1FFE, 0x2FFE, 0x3012, 0x4012, 0x5120, 0x6AFF, 0x7AFF,
        0x8AB0, 0x8AB1, 0x8AB2, 0x8AB3, 0x8AB4, 0x8AB5, 0x8AB6, 0x8AB7, 0x8ABE, 0x9AB0,
        0xAFFF, 0xBFFF, 0xC1FF, 0xD12F, 0xE19E, 0xE1A1, 0xF107, 0xF10A, 0xF115, 0xF118,
        0xF11E, 0xF129, 0xF133, 0xFF55, 0xFF65, 0x8AB8, 0xE100, 0xF1FF, 0x2222, 0x00EE,
    ];
    let mut chip = ready();
    for round in 0..20u8 {
        for word in words {
            let before: u16 = chip.pc();
            let done = chip.execute_with(word, round.wrapping_mul(37));
            assert!(holds_invariant(&chip), "after {:#06x}", word);
            if done.is_err() {
                assert_eq!(chip.pc(), before);
            }
        }
    }
}
