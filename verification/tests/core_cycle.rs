use chip8::chip8::{Chip8, State};
use chip8::errors::Chip8Error;
use chip8::font::FONT_SET;
use chip8::test_utils::set_initial_opcode_to;
use chip8::traits::{Audio, Graphics, Keyboard, NumberGenerator};

struct MockAudio;

impl Audio for MockAudio {
    fn play(&self) -> Result<(), Chip8Error> {
        Ok(())
    }

    fn stop(&self) -> Result<(), Chip8Error> {
        Ok(())
    }
}

struct MockNumberGenerator;

impl NumberGenerator for MockNumberGenerator {
    fn generate(&self) -> Result<u8, Chip8Error> {
        Ok(1)
    }
}

struct MockKeyboardDevice;

impl Keyboard for MockKeyboardDevice {
    fn update_state(&mut self, _keyboard: &mut [u8; 16]) -> bool {
        true
    }

    fn wait_next_key_press(&mut self) -> u8 {
        1
    }
}

struct MockGraphicsDevice;

impl Graphics for MockGraphicsDevice {
    fn draw(&mut self, _graphics: &[u8; 2048]) -> Result<(), Chip8Error> {
        Ok(())
    }
}

fn get_chip8_instance() -> Chip8<MockNumberGenerator, MockAudio, MockKeyboardDevice, MockGraphicsDevice>
{
    Chip8::new(
        MockNumberGenerator,
        MockAudio,
        MockKeyboardDevice,
        MockGraphicsDevice,
    )
}

#[test]
fn lib_it_sets_the_correct_default_values() {
    let chip8 = get_chip8_instance();

    assert_eq!(chip8.opcode, 0);
    assert_eq!(chip8.program_counter, 0x200);
    assert_eq!(chip8.index_register, 0);
    assert_eq!(chip8.stack_pointer, 0);
    assert_eq!(chip8.graphics, [0; 2048]);
    assert_eq!(chip8.v_registers, [0; 16]);
    assert_eq!(chip8.stack, [0; 16]);
    assert_eq!(chip8.delay_timer, 0);
    assert_eq!(chip8.sound_timer, 0);
}

#[test]
fn lib_it_loads_the_font_set_on_initialization() {
    let chip8 = get_chip8_instance();

    assert_eq!(&chip8.memory[0..80], FONT_SET);
}

#[test]
fn lib_it_fetches_correct_opcode_when_emulating_the_first_cycle() -> Result<(), Chip8Error> {
    let mut chip8 = get_chip8_instance();
    chip8.memory[0x200] = 0x10;
    chip8.memory[0x201] = 0x20;

    chip8.emulate_cycle()?;

    assert_eq!(chip8.opcode, 4128);
    Ok(())
}

#[test]
fn lib_it_correctly_counts_down_the_timers() -> Result<(), Chip8Error> {
    let mut chip8 = get_chip8_instance();
    set_initial_opcode_to(0x00E0, &mut chip8.memory);

    chip8.delay_timer = 1;
    chip8.sound_timer = 1;

    chip8.emulate_cycle()?;

    assert_eq!(chip8.delay_timer, 0);
    assert_eq!(chip8.sound_timer, 0);

    chip8.memory[0x202] = 0x00;
    chip8.memory[0x203] = 0xE0;

    chip8.emulate_cycle()?;

    assert_eq!(chip8.delay_timer, 0);
    assert_eq!(chip8.sound_timer, 0);

    Ok(())
}

#[test]
fn lib_it_clears_the_display() -> Result<(), Chip8Error> {
    let mut chip8 = get_chip8_instance();
    chip8.graphics[1] = 69;
    chip8.graphics[2] = 98;
    set_initial_opcode_to(0x00E0, &mut chip8.memory);

    chip8.emulate_cycle()?;

    assert_eq!(chip8.graphics, [0u8; 2048]);

    Ok(())
}

#[test]
fn lib_it_calls_the_subroutine_at_the_correct_address() -> Result<(), Chip8Error> {
    let mut chip8 = get_chip8_instance();
    set_initial_opcode_to(0x2010, &mut chip8.memory);

    chip8.emulate_cycle()?;

    assert_eq!(chip8.stack[0], 0x200);
    assert_eq!(chip8.stack_pointer, 1);
    assert_eq!(chip8.program_counter, 0x010);

    Ok(())
}

#[test]
fn lib_it_returns_from_a_subroutine() -> Result<(), Chip8Error> {
    let mut chip8 = get_chip8_instance();

    chip8.stack[0] = 0x123;
    chip8.stack_pointer = 1;

    set_initial_opcode_to(0x00EE, &mut chip8.memory);

    chip8.emulate_cycle()?;

    assert_eq!(chip8.stack_pointer, 0);
    assert_eq!(chip8.program_counter, 0x125);

    Ok(())
}

#[test]
fn lib_it_jumps_to_the_correct_address() -> Result<(), Chip8Error> {
    let mut chip8 = get_chip8_instance();

    set_initial_opcode_to(0x176C, &mut chip8.memory);

    chip8.emulate_cycle()?;

    assert_eq!(chip8.program_counter, 0x76C);

    Ok(())
}

#[test]
fn lib_it_skips_the_next_instruction_if_vx_equals_nn() -> Result<(), Chip8Error> {
    let mut chip8 = get_chip8_instance();
    chip8.v_registers[2] = 0x6C;
    chip8.program_counter = 0x200;

    set_initial_opcode_to(0x326C, &mut chip8.memory);

    chip8.emulate_cycle()?;

    assert_eq!(chip8.program_counter, 0x204);

    Ok(())
}

#[test]
fn lib_it_skips_the_next_instruction_if_vx_not_equals_nn() -> Result<(), Chip8Error> {
    let mut chip8 = get_chip8_instance();
    chip8.v_registers[2] = 0x6A;
    chip8.program_counter = 0x200;

    set_initial_opcode_to(0x426C, &mut chip8.memory);

    chip8.emulate_cycle()?;

    assert_eq!(chip8.program_counter, 0x204);

    Ok(())
}

#[test]
fn lib_it_skips_the_next_instruction_if_vx_equals_vy() -> Result<(), Chip8Error> {
    let mut chip8 = get_chip8_instance();
    chip8.v_registers[2] = 0x6A;
    chip8.v_registers[3] = 0x6A;
    chip8.program_counter = 0x200;

    set_initial_opcode_to(0x5230, &mut chip8.memory);

    chip8.emulate_cycle()?;

    assert_eq!(chip8.program_counter, 0x204);

    Ok(())
}

#[test]
fn lib_it_stores_the_least_significant_bit_of_vx_in_vf_and_shifts_vx_to_the_right_by_1(
) -> Result<(), Chip8Error> {
    let mut chip8 = get_chip8_instance();

    chip8.v_registers[6] = 0b00000011;

    set_initial_opcode_to(0x86A6, &mut chip8.memory);

    chip8.emulate_cycle()?;

    assert_eq!(chip8.v_registers[6], 0b00000001);
    assert_eq!(chip8.v_registers[15], 0b1);

    Ok(())
}

#[test]
fn lib_it_sets_vx_to_vy_minus_vx_vf_is_set_to_0_when_there_is_a_borrow() -> Result<(), Chip8Error> {
    let mut chip8 = get_chip8_instance();

    chip8.v_registers[4] = 0x11;
    chip8.v_registers[5] = 0x20;

    set_initial_opcode_to(0x8457, &mut chip8.memory);

    chip8.emulate_cycle()?;

    assert_eq!(chip8.v_registers[4], 0xF);
    assert_eq!(chip8.v_registers[15], 0);

    Ok(())
}

#[test]
fn lib_it_sets_vx_to_vy_minus_vx_vf_is_set_to_1_when_there_isnt_a_borrow() -> Result<(), Chip8Error>
{
    let mut chip8 = get_chip8_instance();

    chip8.v_registers[4] = 0x20;
    chip8.v_registers[5] = 0x11;

    set_initial_opcode_to(0x8457, &mut chip8.memory);

    chip8.emulate_cycle()?;

    assert_eq!(chip8.v_registers[4], 0xF1);
    assert_eq!(chip8.v_registers[15], 1);

    Ok(())
}

#[test]
fn lib_it_sets_vf_to_the_value_of_vx_msb_shifts_vx_left_by_1() -> Result<(), Chip8Error> {
    let mut chip8 = get_chip8_instance();

    chip8.v_registers[1] = 0b10000000;

    set_initial_opcode_to(0x812E, &mut chip8.memory);

    chip8.emulate_cycle()?;

    assert_eq!(chip8.v_registers[15], 1);
    assert_eq!(chip8.v_registers[1], 0);

    Ok(())
}

#[test]
fn lib_it_skips_the_next_instruction_if_vx_not_equals_vy() -> Result<(), Chip8Error> {
    let mut chip8 = get_chip8_instance();

    chip8.v_registers[10] = 0x11;
    chip8.v_registers[11] = 0x20;

    set_initial_opcode_to(0x9AB0, &mut chip8.memory);

    chip8.emulate_cycle()?;

    assert_eq!(chip8.program_counter, 0x204);

    Ok(())
}

#[test]
fn lib_it_doesnt_skip_the_next_instruction_if_vx_equals_vy() -> Result<(), Chip8Error> {
    let mut chip8 = get_chip8_instance();

    chip8.v_registers[10] = 0x11;
    chip8.v_registers[11] = 0x11;

    set_initial_opcode_to(0x9AB0, &mut chip8.memory);

    chip8.emulate_cycle()?;

    assert_eq!(chip8.program_counter, 0x202);

    Ok(())
}

#[test]
fn lib_it_sets_the_index_register_value() -> Result<(), Chip8Error> {
    let mut chip8 = get_chip8_instance();

    set_initial_opcode_to(0xA111, &mut chip8.memory);

    chip8.emulate_cycle()?;

    assert_eq!(chip8.index_register, 0x111);

    Ok(())
}

#[test]
fn lib_it_sets_the_value_of_vx() -> Result<(), Chip8Error> {
    let mut chip8 = get_chip8_instance();
    chip8.v_registers[4] = 0xF;
    set_initial_opcode_to(0x6423, &mut chip8.memory);

    chip8.emulate_cycle()?;

    assert_eq!(chip8.v_registers[4], 0x23);

    Ok(())
}

#[test]
fn lib_it_adds_the_value_to_vx() -> Result<(), Chip8Error> {
    let mut chip8 = get_chip8_instance();
    chip8.v_registers[1] = 0x10;
    set_initial_opcode_to(0x7110, &mut chip8.memory);

    chip8.emulate_cycle()?;

    assert_eq!(chip8.v_registers[1], 0x20);

    Ok(())
}

#[test]
fn lib_it_sets_the_value_of_vx_to_vy() -> Result<(), Chip8Error> {
    let mut chip8 = get_chip8_instance();
    chip8.v_registers[1] = 0x10;
    chip8.v_registers[2] = 0x20;
    set_initial_opcode_to(0x8120, &mut chip8.memory);

    chip8.emulate_cycle()?;

    assert_eq!(chip8.v_registers[1], 0x20);

    Ok(())
}

#[test]
fn lib_it_sets_the_value_of_vx_to_vx_bitwise_or_vy() -> Result<(), Chip8Error> {
    let mut chip8 = get_chip8_instance();
    chip8.v_registers[6] = 0x10;
    chip8.v_registers[7] = 0x20;
    set_initial_opcode_to(0x8671, &mut chip8.memory);

    chip8.emulate_cycle()?;

    assert_eq!(chip8.v_registers[6], 0x30);

    Ok(())
}

#[test]
fn lib_it_sets_the_value_of_vx_to_vx_bitwise_and_vy() -> Result<(), Chip8Error> {
    let mut chip8 = get_chip8_instance();
    chip8.v_registers[8] = 0xFF;
    chip8.v_registers[9] = 0x10;
    set_initial_opcode_to(0x8892, &mut chip8.memory);

    chip8.emulate_cycle()?;

    assert_eq!(chip8.v_registers[8], 0x10);

    Ok(())
}

#[test]
fn lib_it_sets_the_value_of_vx_to_vx_bitwise_xor_vy() -> Result<(), Chip8Error> {
    let mut chip8 = get_chip8_instance();
    chip8.v_registers[7] = 0x72;
    chip8.v_registers[8] = 0x15;
    set_initial_opcode_to(0x8783, &mut chip8.memory);

    chip8.emulate_cycle()?;

    assert_eq!(chip8.v_registers[7], 0x67);

    Ok(())
}

#[test]
fn lib_it_adds_the_value_of_vy_to_vx_setting_vf_when_there_is_a_carry() -> Result<(), Chip8Error> {
    let mut chip8 = get_chip8_instance();
    chip8.v_registers[0] = 0xC8;
    chip8.v_registers[1] = 0x64;
    set_initial_opcode_to(0x8014, &mut chip8.memory);

    chip8.emulate_cycle()?;

    // Overflowing add of 200 + 100 = 44
    assert_eq!(chip8.v_registers[0], 0x2C);
    assert_eq!(chip8.v_registers[15], 1);

    Ok(())
}

#[test]
fn lib_it_subtracts_the_value_of_vy_of_vf_setting_vf_then_there_is_a_borrow(
) -> Result<(), Chip8Error> {
    let mut chip8 = get_chip8_instance();
    chip8.v_registers[0] = 0xD1;
    chip8.v_registers[1] = 0xD2;
    set_initial_opcode_to(0x8015, &mut chip8.memory);

    chip8.emulate_cycle()?;

    assert_eq!(chip8.v_registers[0], 0xFF);
    assert_eq!(chip8.v_registers[15], 1);

    Ok(())
}

#[test]
fn it_jumps_to_the_address_nnn_plus_vx0() -> Result<(), Chip8Error> {
    let mut chip8 = get_chip8_instance();

    chip8.v_registers[0] = 0x1;
    set_initial_opcode_to(0xB100, &mut chip8.memory);

    chip8.emulate_cycle()?;

    assert_eq!(chip8.program_counter, 0x101);

    Ok(())
}

#[test]
fn lib_it_sets_vx_to_random_number_bitwise_and_nn() -> Result<(), Chip8Error> {
    let mut chip8 = get_chip8_instance();

    set_initial_opcode_to(0xC313, &mut chip8.memory);

    chip8.emulate_cycle()?;

    assert_eq!(chip8.v_registers[3], 0x1);

    Ok(())
}

//0xDXYN
#[test]
fn lib_it_draws_the_correct_pixels() -> Result<(), Chip8Error> {
    let mut chip8 = get_chip8_instance();
    chip8.v_registers[0] = 2;
    chip8.v_registers[1] = 3;
    chip8.index_register = 0x300;
    chip8.memory[0x300] = 0b10100000;
    set_initial_opcode_to(0xD011, &mut chip8.memory);

    chip8.emulate_cycle()?;

    assert_eq!(chip8.graphics[3 * 64 + 2], 1);
    assert_eq!(chip8.graphics[3 * 64 + 3], 0);
    assert_eq!(chip8.graphics[3 * 64 + 4], 1);
    assert_eq!(chip8.v_registers[15], 0);

    // Drawing the same sprite again toggles the cells off and reports
    // the collision.
    chip8.program_counter = 0x200;
    chip8.emulate_cycle()?;

    assert_eq!(chip8.graphics[3 * 64 + 2], 0);
    assert_eq!(chip8.graphics[3 * 64 + 4], 0);
    assert_eq!(chip8.v_registers[15], 1);

    Ok(())
}

#[test]
fn lib_it_skips_instruction_if_key_press() -> Result<(), Chip8Error> {
    let mut chip8 = get_chip8_instance();
    chip8.v_registers[5] = 8;
    chip8.keyboard[8] = 1;
    set_initial_opcode_to(0xE59E, &mut chip8.memory);

    chip8.emulate_cycle()?;

    assert_eq!(chip8.program_counter, 0x204);

    Ok(())
}

#[test]
fn lib_it_skips_instruction_if_key_not_pressed() -> Result<(), Chip8Error> {
    let mut chip8 = get_chip8_instance();
    chip8.v_registers[3] = 6;
    chip8.keyboard[6] = 0;
    set_initial_opcode_to(0xE3A1, &mut chip8.memory);

    chip8.emulate_cycle()?;

    assert_eq!(chip8.program_counter, 0x204);

    Ok(())
}

#[test]
fn it_waits_for_a_keypress_and_stores_it_in_vx() -> Result<(), Chip8Error> {
    let mut chip8 = get_chip8_instance();
    set_initial_opcode_to(0xF30A, &mut chip8.memory);

    chip8.emulate_cycle()?;

    // The mock keyboard reports key 1.
    assert_eq!(chip8.v_registers[3], 1);
    assert_eq!(chip8.program_counter, 0x202);

    Ok(())
}

#[test]
fn lib_it_sets_vx_to_the_value_of_the_delay_timer() -> Result<(), Chip8Error> {
    let mut chip8 = get_chip8_instance();
    chip8.delay_timer = 40;
    set_initial_opcode_to(0xF307, &mut chip8.memory);

    chip8.emulate_cycle()?;

    assert_eq!(chip8.v_registers[3], 40);

    Ok(())
}

#[test]
fn lib_it_sets_the_delay_timer_to_vx() -> Result<(), Chip8Error> {
    let mut chip8 = get_chip8_instance();
    chip8.v_registers[5] = 100;
    set_initial_opcode_to(0xF515, &mut chip8.memory);

    chip8.emulate_cycle()?;

    assert_eq!(chip8.delay_timer, 99);

    Ok(())
}

#[test]
fn lib_it_sets_the_sound_timer_to_vx() -> Result<(), Chip8Error> {
    let mut chip8 = get_chip8_instance();
    chip8.v_registers[3] = 10;
    set_initial_opcode_to(0xF318, &mut chip8.memory);

    chip8.emulate_cycle()?;

    assert_eq!(chip8.sound_timer, 9);

    Ok(())
}

#[test]
fn lib_it_adds_vx_to_i() -> Result<(), Chip8Error> {
    let mut chip8 = get_chip8_instance();
    chip8.v_registers[8] = 0x10;
    chip8.index_register = 0x01;
    set_initial_opcode_to(0xF81E, &mut chip8.memory);

    chip8.emulate_cycle()?;

    assert_eq!(chip8.index_register, 0x11);

    Ok(())
}

#[test]
fn lib_it_sets_i_to_sprite_location_read_from_vx() -> Result<(), Chip8Error> {
    let mut chip8 = get_chip8_instance();
    chip8.v_registers[1] = 10;
    set_initial_opcode_to(0xF129, &mut chip8.memory);

    chip8.emulate_cycle()?;

    // Five bytes per glyph: digit 10 sits at address 50.
    assert_eq!(chip8.index_register, 50);

    Ok(())
}

#[test]
fn lib_it_stores_bcd_of_vx_from_i() -> Result<(), Chip8Error> {
    let mut chip8 = get_chip8_instance();
    chip8.v_registers[9] = 123;
    chip8.index_register = 0x203;
    set_initial_opcode_to(0xF933, &mut chip8.memory);

    chip8.emulate_cycle()?;

    assert_eq!(chip8.memory[chip8.index_register as usize], 1);
    assert_eq!(chip8.memory[(chip8.index_register + 1) as usize], 2);
    assert_eq!(chip8.memory[(chip8.index_register + 2) as usize], 3);

    Ok(())
}

#[test]
fn it_writes_from_v0_to_vx_starting_at_memory_address_i() -> Result<(), Chip8Error> {
    let mut chip8 = get_chip8_instance();
    let v_registers = [0, 1, 2, 3, 4, 5, 6, 7, 8, 9, 10, 11, 12, 13, 14, 15];
    chip8.v_registers = v_registers;
    chip8.index_register = 0x204;
    set_initial_opcode_to(0xF355, &mut chip8.memory);

    chip8.emulate_cycle()?;

    assert_eq!(
        chip8.memory[chip8.index_register as usize..=chip8.index_register as usize + 3],
        [0, 1, 2, 3]
    );

    Ok(())
}

#[test]
fn it_writes_to_v0_to_vx_starting_at_memory_address_i() -> Result<(), Chip8Error> {
    let mut chip8 = get_chip8_instance();
    chip8.index_register = 0x202;
    chip8.memory[chip8.index_register as usize] = 101;
    chip8.memory[chip8.index_register as usize + 1] = 102;
    chip8.memory[chip8.index_register as usize + 2] = 103;
    chip8.memory[chip8.index_register as usize + 3] = 104;
    set_initial_opcode_to(0xF365, &mut chip8.memory);

    chip8.emulate_cycle()?;

    assert_eq!(chip8.v_registers[0..=3], [101, 102, 103, 104]);

    Ok(())
}

#[test]
fn it_reports_exit_when_the_keyboard_source_asks_to_quit() -> Result<(), Chip8Error> {
    let mut chip8 = get_chip8_instance();
    set_initial_opcode_to(0x00E0, &mut chip8.memory);

    // The mock keyboard always reports an exit request.
    let state = chip8.emulate_cycle()?;

    assert!(matches!(state, State::Exit));

    Ok(())
}
