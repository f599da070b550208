use chip8::{Chip8, Cycle, Fault, Status, FONT};

fn machine_with(program: &[u8]) -> Chip8 {
    let mut chip = Chip8::new();
    chip.initialize();
    chip.load_rom(program).unwrap();
    chip
}

fn ran(beep: bool) -> Result<Cycle, Fault> {
    Ok(Cycle { ran: true, beep, unknown: false })
}

#[test]
fn new_machine_is_zeroed_and_starts_at_512() {
    let chip = Chip8::new();
    assert_eq!(chip.program_counter(), 512);
    assert_eq!(chip.index_register(), 0);
    assert_eq!(chip.stack_pointer(), 0);
    assert_eq!(chip.delay_timer(), 0);
    assert_eq!(chip.sound_timer(), 0);
    assert_eq!(chip.status(), Status::Running);
    assert!(!chip.is_halted());
    for x in 0..16u8 {
        assert_eq!(chip.register(x), 0);
    }
    assert_eq!(chip.memory_range(0..4096).unwrap(), vec![0u8; 4096]);
    assert!(chip.screen().iter().all(|&cell| cell == 0));
    assert!(chip.draw().is_empty());
}

#[test]
fn initialize_writes_the_font_to_low_memory() {
    let mut chip = Chip8::new();
    chip.initialize();
    assert_eq!(chip.memory_range(0..80).unwrap(), FONT.to_vec());
    assert_eq!(chip.memory_range(0..5).unwrap(), vec![0xF0, 0x90, 0x90, 0x90, 0xF0]);
    assert_eq!(chip.memory_range(75..80).unwrap(), vec![0xF0, 0x80, 0xF0, 0x80, 0x80]);
    assert_eq!(chip.memory_range(80..82).unwrap(), vec![0, 0]);
    assert_eq!(chip.program_counter(), 512);
}

#[test]
fn load_font_leaves_the_rest_of_memory_alone() {
    let mut chip = Chip8::new();
    chip.load(&[7, 8, 9], 78).unwrap();
    chip.load_font();
    assert_eq!(chip.memory_range(78..81).unwrap(), vec![0x80, 0x80, 9]);
}

#[test]
fn load_copies_bytes_at_the_offset() {
    let mut chip = Chip8::new();
    assert_eq!(chip.load(&[1, 2, 3], 100), Ok(()));
    assert_eq!(chip.memory_range(99..104).unwrap(), vec![0, 1, 2, 3, 0]);
    assert_eq!(chip.program_counter(), 512);
}

#[test]
fn load_accepts_bytes_that_end_at_the_last_address() {
    let mut chip = Chip8::new();
    assert_eq!(chip.load(&[0xAA, 0xBB], 4094), Ok(()));
    assert_eq!(chip.memory_range(4094..4096).unwrap(), vec![0xAA, 0xBB]);
    assert_eq!(chip.load(&[], 4096), Ok(()));
}

#[test]
fn load_past_the_end_is_refused_and_writes_nothing() {
    let mut chip = Chip8::new();
    assert_eq!(chip.load(&[1, 2, 3], 4094), Err(Fault::LoadOverflow));
    assert_eq!(chip.memory_range(4094..4096).unwrap(), vec![0, 0]);
    assert_eq!(chip.load(&[1], 4096), Err(Fault::LoadOverflow));
    assert_eq!(chip.load(&[], 4097), Err(Fault::LoadOverflow));
    assert_eq!(chip.load(&[1], usize::MAX), Err(Fault::LoadOverflow));
}

#[test]
fn load_rom_places_the_program_at_512() {
    let mut chip = Chip8::new();
    assert_eq!(chip.load_rom(&[0x81, 0x26]), Ok(()));
    assert_eq!(chip.memory_range(511..515).unwrap(), vec![0, 0x81, 0x26, 0]);
    assert_eq!(chip.load_rom(&vec![1u8; 3584]), Ok(()));
    assert_eq!(chip.load_rom(&vec![2u8; 3585]), Err(Fault::LoadOverflow));
    assert_eq!(chip.memory_range(4095..4096).unwrap(), vec![1]);
}

#[test]
fn scenario_set_index_at_address_zero() {
    let mut chip = Chip8::new();
    chip.load(&[0xA1, 0x23], 0).unwrap();
    chip.set_program_counter(0).unwrap();
    assert_eq!(chip.step(0), ran(false));
    assert_eq!(chip.index_register(), 0x123);
    assert_eq!(chip.program_counter(), 2);
}

#[test]
fn scenario_load_immediate_overwrites_register() {
    let mut chip = machine_with(&[0x60, 0x05, 0x60, 0x0A]);
    chip.emulate_cycle().unwrap();
    assert_eq!(chip.register(0), 5);
    let pc = chip.program_counter();
    assert_eq!(chip.emulate_cycle(), ran(false));
    assert_eq!(chip.register(0), 10);
    assert_eq!(chip.program_counter(), pc + 2);
}

#[test]
fn scenario_delay_timer_counts_down_to_zero_and_stays() {
    // the timer is set to 3 and ticks once in the cycle that sets it
    let mut chip = machine_with(&[0x60, 0x03, 0xF0, 0x15, 0xA0, 0x00, 0xA0, 0x00, 0xA0, 0x00]);
    chip.emulate_cycle().unwrap();
    chip.emulate_cycle().unwrap();
    assert_eq!(chip.delay_timer(), 2);
    chip.emulate_cycle().unwrap();
    chip.emulate_cycle().unwrap();
    assert_eq!(chip.delay_timer(), 0);
    chip.emulate_cycle().unwrap();
    assert_eq!(chip.delay_timer(), 0);
}

#[test]
fn load_immediate_then_read_for_every_register() {
    for x in 0..16u8 {
        let kk = 0x11u8.wrapping_mul(x).wrapping_add(3);
        let mut chip = machine_with(&[0x60 | x, kk]);
        assert_eq!(chip.emulate_cycle(), ran(false));
        assert_eq!(chip.register(x), kk);
        assert_eq!(chip.program_counter(), 514);
    }
}

#[test]
fn add_immediate_wraps_and_leaves_the_flag() {
    let mut chip = machine_with(&[0x63, 0xF0, 0x73, 0x20]);
    chip.emulate_cycle().unwrap();
    chip.emulate_cycle().unwrap();
    assert_eq!(chip.register(3), 0x10);
    assert_eq!(chip.flag(), 0);
}

#[test]
fn add_sets_carry_exactly_on_overflow() {
    let mut chip = machine_with(&[0x61, 200, 0x62, 100, 0x81, 0x24, 0x63, 1, 0x81, 0x34]);
    for _ in 0..3 {
        chip.emulate_cycle().unwrap();
    }
    assert_eq!(chip.register(1), 44);
    assert_eq!(chip.flag(), 1);
    chip.emulate_cycle().unwrap();
    chip.emulate_cycle().unwrap();
    assert_eq!(chip.register(1), 45);
    assert_eq!(chip.flag(), 0);
}

#[test]
fn add_with_sum_255_and_256() {
    let mut chip = machine_with(&[0x61, 255, 0x62, 0, 0x81, 0x24, 0x62, 1, 0x81, 0x24]);
    for _ in 0..3 {
        chip.emulate_cycle().unwrap();
    }
    assert_eq!((chip.register(1), chip.flag()), (255, 0));
    chip.emulate_cycle().unwrap();
    chip.emulate_cycle().unwrap();
    assert_eq!((chip.register(1), chip.flag()), (0, 1));
}

#[test]
fn add_into_the_flag_register_keeps_the_carry() {
    let mut chip = machine_with(&[0x6F, 200, 0x62, 100, 0x8F, 0x24]);
    for _ in 0..3 {
        chip.emulate_cycle().unwrap();
    }
    assert_eq!(chip.flag(), 1);
}

#[test]
fn sub_raises_flag_only_when_strictly_greater() {
    let mut chip = machine_with(&[0x61, 10, 0x62, 3, 0x81, 0x25, 0x62, 7, 0x81, 0x25, 0x62, 1, 0x81, 0x25]);
    for _ in 0..3 {
        chip.emulate_cycle().unwrap();
    }
    assert_eq!((chip.register(1), chip.flag()), (7, 1));
    chip.emulate_cycle().unwrap();
    chip.emulate_cycle().unwrap();
    assert_eq!((chip.register(1), chip.flag()), (0, 0));
    chip.emulate_cycle().unwrap();
    chip.emulate_cycle().unwrap();
    assert_eq!((chip.register(1), chip.flag()), (255, 0));
}

#[test]
fn subn_subtracts_the_other_way() {
    let mut chip = machine_with(&[0x61, 3, 0x62, 10, 0x81, 0x27, 0x62, 1, 0x81, 0x27]);
    for _ in 0..3 {
        chip.emulate_cycle().unwrap();
    }
    assert_eq!((chip.register(1), chip.flag()), (7, 1));
    chip.emulate_cycle().unwrap();
    chip.emulate_cycle().unwrap();
    assert_eq!((chip.register(1), chip.flag()), (250, 0));
}

#[test]
fn sub_reads_the_flag_it_has_just_written() {
    // VF = 5, V1 = 9: the flag becomes 1, then V1 = 9 - 1
    let mut chip = machine_with(&[0x6F, 5, 0x61, 9, 0x81, 0xF5]);
    for _ in 0..3 {
        chip.emulate_cycle().unwrap();
    }
    assert_eq!((chip.register(1), chip.flag()), (8, 1));
}

#[test]
fn copy_or_and_xor() {
    let mut chip = machine_with(&[
        0x61, 0b1100, 0x62, 0b1010, 0x83, 0x10, 0x83, 0x21, 0x84, 0x10, 0x84, 0x22, 0x85, 0x10,
        0x85, 0x23,
    ]);
    for _ in 0..8 {
        chip.emulate_cycle().unwrap();
    }
    assert_eq!(chip.register(3), 0b1110);
    assert_eq!(chip.register(4), 0b1000);
    assert_eq!(chip.register(5), 0b0110);
    assert_eq!(chip.flag(), 0);
}

#[test]
fn shift_right_takes_the_top_bit_as_flag() {
    let mut chip = machine_with(&[0x61, 0x81, 0x81, 0x06, 0x81, 0x06]);
    chip.emulate_cycle().unwrap();
    chip.emulate_cycle().unwrap();
    assert_eq!((chip.register(1), chip.flag()), (0x40, 1));
    chip.emulate_cycle().unwrap();
    assert_eq!((chip.register(1), chip.flag()), (0x20, 0));
}

#[test]
fn shift_left_takes_the_bottom_bit_as_flag() {
    let mut chip = machine_with(&[0x61, 0x81, 0x81, 0x0E, 0x81, 0x0E]);
    chip.emulate_cycle().unwrap();
    chip.emulate_cycle().unwrap();
    assert_eq!((chip.register(1), chip.flag()), (0x02, 1));
    chip.emulate_cycle().unwrap();
    assert_eq!((chip.register(1), chip.flag()), (0x04, 0));
}

#[test]
fn unknown_arithmetic_code_only_advances() {
    let mut chip = machine_with(&[0x61, 7, 0x81, 0x28]);
    chip.emulate_cycle().unwrap();
    assert_eq!(chip.emulate_cycle(), Ok(Cycle { ran: true, beep: false, unknown: true }));
    assert_eq!(chip.register(1), 7);
    assert_eq!(chip.program_counter(), 516);
}

#[test]
fn unknown_codes_in_other_families_only_advance() {
    for word in [[0x00u8, 0x01], [0xE1, 0x00], [0xF1, 0xFF]] {
        let mut chip = machine_with(&word);
        assert_eq!(chip.emulate_cycle(), Ok(Cycle { ran: true, beep: false, unknown: true }));
        assert_eq!(chip.program_counter(), 514);
    }
}

#[test]
fn skips_on_immediate() {
    let mut chip = machine_with(&[0x61, 5, 0x31, 5, 0x00, 0x00, 0x31, 6, 0x41, 6, 0x00, 0x00, 0x41, 5]);
    chip.emulate_cycle().unwrap();
    chip.emulate_cycle().unwrap();
    assert_eq!(chip.program_counter(), 518);
    chip.emulate_cycle().unwrap();
    assert_eq!(chip.program_counter(), 520);
    chip.emulate_cycle().unwrap();
    assert_eq!(chip.program_counter(), 524);
    chip.emulate_cycle().unwrap();
    assert_eq!(chip.program_counter(), 526);
}

#[test]
fn skips_on_registers() {
    let mut chip = machine_with(&[0x61, 5, 0x62, 5, 0x51, 0x20, 0x00, 0x00, 0x91, 0x20, 0x63, 1, 0x91, 0x30, 0x00, 0x00, 0x51, 0x30]);
    chip.emulate_cycle().unwrap();
    chip.emulate_cycle().unwrap();
    chip.emulate_cycle().unwrap();
    assert_eq!(chip.program_counter(), 520);
    chip.emulate_cycle().unwrap();
    assert_eq!(chip.program_counter(), 522);
    chip.emulate_cycle().unwrap();
    chip.emulate_cycle().unwrap();
    assert_eq!(chip.program_counter(), 528);
    chip.emulate_cycle().unwrap();
    assert_eq!(chip.program_counter(), 530);
}

#[test]
fn jump_sets_the_program_counter() {
    let mut chip = machine_with(&[0x1A, 0xBC]);
    assert_eq!(chip.emulate_cycle(), ran(false));
    assert_eq!(chip.program_counter(), 0xABC);
    assert_eq!(chip.stack_pointer(), 0);
}

#[test]
fn jump_with_offset_adds_register_zero() {
    let mut chip = machine_with(&[0x60, 0x10, 0xB3, 0x00]);
    chip.emulate_cycle().unwrap();
    chip.emulate_cycle().unwrap();
    assert_eq!(chip.program_counter(), 0x310);
}

#[test]
fn jump_with_offset_may_leave_memory_and_then_faults() {
    let mut chip = machine_with(&[0x60, 0xFF, 0xBF, 0xFF]);
    chip.emulate_cycle().unwrap();
    assert_eq!(chip.emulate_cycle(), ran(false));
    assert_eq!(chip.program_counter(), 0xFFF + 0xFF);
    assert_eq!(chip.emulate_cycle(), Err(Fault::PcOutOfRange));
    assert_eq!(chip.program_counter(), 0xFFF + 0xFF);
}

#[test]
fn call_then_return_resumes_after_the_call() {
    let mut chip = Chip8::new();
    chip.load(&[0x23, 0x00], 512).unwrap();
    chip.load(&[0x00, 0xEE], 0x300).unwrap();
    assert_eq!(chip.emulate_cycle(), ran(false));
    assert_eq!(chip.program_counter(), 0x300);
    assert_eq!(chip.stack_pointer(), 1);
    assert_eq!(chip.emulate_cycle(), ran(false));
    assert_eq!(chip.program_counter(), 514);
    assert_eq!(chip.stack_pointer(), 0);
}

#[test]
fn nested_calls_return_in_reverse_order() {
    let mut chip = Chip8::new();
    chip.load(&[0x23, 0x00, 0x12, 0x02], 512).unwrap();
    chip.load(&[0x24, 0x00, 0x00, 0xEE], 0x300).unwrap();
    chip.load(&[0x00, 0xEE], 0x400).unwrap();
    let mut trace = Vec::new();
    for _ in 0..4 {
        chip.emulate_cycle().unwrap();
        trace.push((chip.program_counter(), chip.stack_pointer()));
    }
    assert_eq!(trace, vec![(0x300, 1), (0x400, 2), (0x302, 1), (0x202, 0)]);
}

#[test]
fn return_with_empty_stack_is_an_underflow() {
    let mut chip = machine_with(&[0x00, 0xEE]);
    assert_eq!(chip.emulate_cycle(), Err(Fault::StackUnderflow));
    assert_eq!(chip.program_counter(), 512);
    assert_eq!(chip.stack_pointer(), 0);
}

#[test]
fn sixteenth_nested_call_is_an_overflow() {
    // a subroutine that calls itself
    let mut chip = machine_with(&[0x22, 0x00]);
    chip.execute_many(15);
    assert_eq!(chip.stack_pointer(), 15);
    assert_eq!(chip.emulate_cycle(), Err(Fault::StackOverflow));
    assert_eq!(chip.stack_pointer(), 15);
    assert_eq!(chip.program_counter(), 512);
}

trait Many {
    fn execute_many(&mut self, cycles: usize);
}

impl Many for Chip8 {
    fn execute_many(&mut self, cycles: usize) {
        for _ in 0..cycles {
            self.emulate_cycle().unwrap();
        }
    }
}

#[test]
fn fetch_beyond_memory_is_fatal_and_changes_nothing() {
    let mut chip = Chip8::new();
    chip.load(&[0x61, 0x07], 4094).unwrap();
    chip.set_program_counter(4094).unwrap();
    chip.set_key(3, 1);
    assert_eq!(chip.emulate_cycle(), ran(false));
    assert_eq!(chip.program_counter(), 4096);
    assert_eq!(chip.emulate_cycle(), Err(Fault::PcOutOfRange));
    assert_eq!(chip.step(9), Err(Fault::PcOutOfRange));
    assert_eq!(chip.program_counter(), 4096);
    assert_eq!(chip.register(1), 7);
}

#[test]
fn fetch_of_a_word_that_straddles_the_end_is_fatal() {
    let mut chip = Chip8::new();
    chip.set_program_counter(4095).unwrap();
    assert_eq!(chip.emulate_cycle(), Err(Fault::PcOutOfRange));
    assert_eq!(chip.program_counter(), 4095);
}

#[test]
fn set_program_counter_refuses_addresses_beyond_memory() {
    let mut chip = Chip8::new();
    assert_eq!(chip.set_program_counter(4096), Err(Fault::PcOutOfRange));
    assert_eq!(chip.program_counter(), 512);
    assert_eq!(chip.set_program_counter(4095), Ok(()));
    assert_eq!(chip.program_counter(), 4095);
}

#[test]
fn timers_count_down_independently_and_beep_once() {
    let mut chip = machine_with(&[0x61, 2, 0x62, 4, 0xF1, 0x18, 0xF2, 0x15, 0xA0, 0, 0xA0, 0, 0xA0, 0, 0xA0, 0]);
    chip.emulate_cycle().unwrap();
    chip.emulate_cycle().unwrap();
    // sound = 2, then ticks to 1
    assert_eq!(chip.emulate_cycle(), ran(false));
    assert_eq!(chip.sound_timer(), 1);
    // delay = 4 and ticks to 3; sound ticks from 1 to 0
    assert_eq!(chip.emulate_cycle(), ran(true));
    assert_eq!((chip.delay_timer(), chip.sound_timer()), (3, 0));
    assert_eq!(chip.emulate_cycle(), ran(false));
    assert_eq!((chip.delay_timer(), chip.sound_timer()), (2, 0));
    chip.emulate_cycle().unwrap();
    chip.emulate_cycle().unwrap();
    assert_eq!(chip.emulate_cycle(), ran(false));
    assert_eq!((chip.delay_timer(), chip.sound_timer()), (0, 0));
}

#[test]
fn sound_timer_set_to_one_beeps_in_the_same_cycle() {
    let mut chip = machine_with(&[0x61, 1, 0xF1, 0x18]);
    chip.emulate_cycle().unwrap();
    assert_eq!(chip.emulate_cycle(), ran(true));
    assert_eq!(chip.sound_timer(), 0);
}

#[test]
fn delay_timer_can_be_read_back() {
    let mut chip = machine_with(&[0x61, 9, 0xF1, 0x15, 0xF2, 0x07]);
    chip.execute_many(3);
    // set to 9, ticked to 8, read as 8, ticked to 7
    assert_eq!(chip.register(2), 8);
    assert_eq!(chip.delay_timer(), 7);
}

#[test]
fn index_register_arithmetic() {
    let mut chip = machine_with(&[0xAF, 0xFF, 0x61, 0xFF, 0xF1, 0x1E, 0x62, 0x0B, 0xF2, 0x29]);
    chip.execute_many(3);
    assert_eq!(chip.index_register(), 0xFFF + 0xFF);
    chip.execute_many(2);
    assert_eq!(chip.index_register(), 55);
    assert_eq!(chip.memory_range(55..60).unwrap(), vec![0xE0, 0x90, 0xE0, 0x90, 0xE0]);
}

#[test]
fn index_register_wraps_at_sixteen_bits() {
    // adds 255 to the index 258 times: 258 * 255 = 65790 = 65536 + 254
    let mut chip = machine_with(&[0x61, 0xFF, 0xF1, 0x1E, 0x12, 0x02]);
    chip.emulate_cycle().unwrap();
    for _ in 0..257 {
        chip.execute_many(2);
    }
    assert_eq!(chip.index_register(), 65535);
    chip.emulate_cycle().unwrap();
    assert_eq!(chip.index_register(), 254);
}

#[test]
fn font_address_of_the_largest_register_value() {
    let mut chip = machine_with(&[0x61, 0xFF, 0xF1, 0x29]);
    chip.execute_many(2);
    assert_eq!(chip.index_register(), 1275);
}

#[test]
fn bcd_stores_hundreds_tens_units() {
    let mut chip = machine_with(&[0x61, 254, 0xA3, 0x00, 0xF1, 0x33, 0x61, 7, 0xA3, 0x10, 0xF1, 0x33]);
    chip.execute_many(3);
    assert_eq!(chip.memory_range(0x300..0x303).unwrap(), vec![2, 5, 4]);
    chip.execute_many(3);
    assert_eq!(chip.memory_range(0x310..0x313).unwrap(), vec![0, 0, 7]);
    assert_eq!(chip.index_register(), 0x310);
}

#[test]
fn bcd_past_the_end_of_memory_faults_and_writes_nothing() {
    let mut chip = machine_with(&[0x61, 123, 0xAF, 0xFE, 0xF1, 0x33, 0xAF, 0xFD, 0xF1, 0x33]);
    chip.execute_many(2);
    assert_eq!(chip.emulate_cycle(), Err(Fault::AddressOutOfRange));
    assert_eq!(chip.memory_range(4094..4096).unwrap(), vec![0, 0]);
    assert_eq!(chip.program_counter(), 516);
    chip.set_program_counter(518).unwrap();
    chip.execute_many(2);
    assert_eq!(chip.memory_range(4093..4096).unwrap(), vec![1, 2, 3]);
}

#[test]
fn store_registers_includes_the_last_one() {
    let mut chip = machine_with(&[0x60, 10, 0x61, 11, 0x62, 12, 0x63, 13, 0xA3, 0x00, 0xF2, 0x55]);
    chip.execute_many(6);
    assert_eq!(chip.memory_range(0x2FF..0x304).unwrap(), vec![0, 10, 11, 12, 0]);
    assert_eq!(chip.index_register(), 0x300);
    assert_eq!(chip.program_counter(), 524);
}

#[test]
fn load_registers_includes_the_last_one() {
    let mut chip = machine_with(&[0x63, 99, 0xA3, 0x00, 0xF2, 0x65]);
    chip.load(&[21, 22, 23, 24], 0x300).unwrap();
    chip.execute_many(3);
    assert_eq!(
        (chip.register(0), chip.register(1), chip.register(2), chip.register(3)),
        (21, 22, 23, 99)
    );
    assert_eq!(chip.index_register(), 0x300);
}

#[test]
fn store_and_load_of_all_registers_at_the_end_of_memory() {
    let mut chip = machine_with(&[0x6F, 1, 0xAF, 0xF0, 0xFF, 0x55, 0xAF, 0xF1, 0xFF, 0x55, 0xFF, 0x65]);
    chip.execute_many(3);
    assert_eq!(chip.memory_range(4095..4096).unwrap(), vec![1]);
    chip.emulate_cycle().unwrap();
    assert_eq!(chip.emulate_cycle(), Err(Fault::AddressOutOfRange));
    chip.set_program_counter(522).unwrap();
    assert_eq!(chip.emulate_cycle(), Err(Fault::AddressOutOfRange));
    assert_eq!(chip.flag(), 1);
}

#[test]
fn random_is_masked_by_the_immediate() {
    let mut chip = machine_with(&[0xC1, 0x0F, 0xC2, 0x00, 0xC3, 0xF0]);
    assert_eq!(chip.step(0xAB), ran(false));
    assert_eq!(chip.register(1), 0x0B);
    assert_eq!(chip.step(0xFF), ran(false));
    assert_eq!(chip.register(2), 0);
    assert_eq!(chip.step(0xAB), ran(false));
    assert_eq!(chip.register(3), 0xA0);
}

#[test]
fn drawn_random_bytes_stay_within_the_mask_and_vary() {
    let mut seen = std::collections::HashSet::new();
    for _ in 0..200 {
        let mut chip = machine_with(&[0xC1, 0x3C, 0xC2, 0xFF]);
        assert_eq!(chip.emulate_cycle(), ran(false));
        assert_eq!(chip.register(1) & !0x3C, 0);
        assert_eq!(chip.emulate_cycle(), ran(false));
        seen.insert(chip.register(2));
        assert_eq!(chip.program_counter(), 516);
    }
    assert!(seen.len() > 1);
}

#[test]
fn step_ignores_the_random_byte_for_other_instructions() {
    let mut a = machine_with(&[0x61, 5, 0x71, 5]);
    let mut b = machine_with(&[0x61, 5, 0x71, 5]);
    a.step(0).unwrap();
    a.step(0).unwrap();
    b.step(0xFF).unwrap();
    b.step(0x55).unwrap();
    assert_eq!(a.register(1), 10);
    assert_eq!(b.register(1), 10);
}

#[test]
fn key_skips() {
    let mut chip = machine_with(&[0x61, 0x0A, 0xE1, 0x9E, 0xE1, 0xA1, 0x00, 0x00, 0xE1, 0x9E, 0x00, 0x00, 0xE1, 0xA1]);
    chip.emulate_cycle().unwrap();
    // key A is up: no skip, then skip
    chip.emulate_cycle().unwrap();
    assert_eq!(chip.program_counter(), 516);
    chip.emulate_cycle().unwrap();
    assert_eq!(chip.program_counter(), 520);
    chip.set_key(0x0A, 1);
    chip.emulate_cycle().unwrap();
    assert_eq!(chip.program_counter(), 524);
    chip.emulate_cycle().unwrap();
    assert_eq!(chip.program_counter(), 526);
    chip.set_key(0x0A, 0);
    chip.set_program_counter(524).unwrap();
    chip.emulate_cycle().unwrap();
    assert_eq!(chip.program_counter(), 528);
}

#[test]
fn a_key_number_beyond_the_keypad_is_never_down() {
    let mut chip = machine_with(&[0x61, 0x10, 0xE1, 0x9E, 0xE1, 0xA1]);
    for key in 0..16 {
        chip.set_key(key, 1);
    }
    chip.execute_many(2);
    assert_eq!(chip.program_counter(), 516);
    chip.emulate_cycle().unwrap();
    assert_eq!(chip.program_counter(), 520);
}

#[test]
fn wait_for_key_suspends_until_resolved() {
    let mut chip = machine_with(&[0x61, 9, 0xF1, 0x15, 0xF4, 0x0A, 0x65, 1]);
    chip.execute_many(2);
    assert_eq!(chip.emulate_cycle(), ran(false));
    assert!(chip.is_halted());
    assert_eq!(chip.status(), Status::WaitingForKey { register: 4 });
    assert_eq!(chip.program_counter(), 516);
    // 9, ticked when set and once more by the wait itself
    assert_eq!(chip.delay_timer(), 7);
    for _ in 0..5 {
        assert_eq!(chip.emulate_cycle(), Ok(Cycle { ran: false, beep: false, unknown: false }));
        assert_eq!(chip.step(3), Ok(Cycle { ran: false, beep: false, unknown: false }));
    }
    assert_eq!(chip.delay_timer(), 7);
    assert_eq!(chip.program_counter(), 516);
    assert_eq!(chip.register(4), 0);
    assert!(chip.resolve_key(0x0C));
    assert!(!chip.is_halted());
    assert_eq!(chip.register(4), 0x0C);
    assert_eq!(chip.program_counter(), 518);
    assert_eq!(chip.delay_timer(), 7);
    assert_eq!(chip.emulate_cycle(), ran(false));
    assert_eq!(chip.register(5), 1);
    assert_eq!(chip.delay_timer(), 6);
}

#[test]
fn resolve_key_on_a_running_machine_does_nothing() {
    let mut chip = machine_with(&[0x61, 9]);
    assert!(!chip.resolve_key(5));
    assert_eq!(chip.program_counter(), 512);
    assert_eq!(chip.register(0), 0);
    assert_eq!(chip.status(), Status::Running);
}

#[test]
fn wait_for_key_at_the_last_instruction_can_be_resolved() {
    let mut chip = Chip8::new();
    chip.load(&[0xFF, 0x0A], 4094).unwrap();
    chip.set_program_counter(4094).unwrap();
    chip.emulate_cycle().unwrap();
    assert!(chip.is_halted());
    assert_eq!(chip.set_program_counter(5000), Err(Fault::PcOutOfRange));
    assert!(chip.resolve_key(2));
    assert_eq!(chip.flag(), 2);
    assert_eq!(chip.program_counter(), 4096);
    assert_eq!(chip.emulate_cycle(), Err(Fault::PcOutOfRange));
}

#[test]
fn draw_glyph_and_report_dirty() {
    // the glyph of 0 at column 1, row 2
    let mut chip = machine_with(&[0x61, 1, 0x62, 2, 0xA0, 0x00, 0xD1, 0x25]);
    assert!(!chip.take_draw_flag());
    chip.execute_many(3);
    assert!(!chip.take_draw_flag());
    assert_eq!(chip.emulate_cycle(), ran(false));
    assert_eq!(chip.flag(), 0);
    assert_eq!(chip.program_counter(), 520);
    let expected = vec![
        (1, 2), (2, 2), (3, 2), (4, 2),
        (1, 3), (4, 3),
        (1, 4), (4, 4),
        (1, 5), (4, 5),
        (1, 6), (2, 6), (3, 6), (4, 6),
    ];
    assert_eq!(chip.draw(), expected);
    assert!(chip.pixel(1, 2));
    assert!(!chip.pixel(2, 3));
    assert!(!chip.pixel(0, 2));
    assert_eq!(chip.screen()[1 + 2 * 64], 1);
    assert_eq!(chip.screen().iter().map(|&c| c as usize).sum::<usize>(), 14);
    assert!(chip.take_draw_flag());
    assert!(!chip.take_draw_flag());
}

#[test]
fn drawing_twice_restores_the_display_and_reports_the_collision() {
    let mut chip = machine_with(&[0x61, 10, 0x62, 7, 0xA0, 0x05, 0xD1, 0x25, 0xA0, 0x0A, 0xD1, 0x25, 0xD1, 0x25]);
    chip.execute_many(4);
    let first = chip.draw();
    assert!(!first.is_empty());
    assert_eq!(chip.flag(), 0);
    chip.execute_many(2);
    let both = chip.screen().to_vec();
    assert_eq!(chip.flag(), 1);
    assert_eq!(chip.emulate_cycle(), ran(false));
    assert_eq!(chip.flag(), 1);
    assert_eq!(chip.draw(), first);
    chip.set_program_counter(524).unwrap();
    chip.emulate_cycle().unwrap();
    assert_eq!(chip.screen().to_vec(), both);
    assert_eq!(chip.flag(), 1);
}

#[test]
fn drawing_touches_only_the_rectangle_of_the_sprite() {
    let mut chip = machine_with(&[0x61, 20, 0x62, 9, 0xA3, 0x00, 0xD1, 0x23]);
    chip.load(&[0xFF, 0xFF, 0xFF], 0x300).unwrap();
    chip.execute_many(4);
    for y in 0..32 {
        for x in 0..64 {
            let inside = (20..28).contains(&x) && (9..12).contains(&y);
            assert_eq!(chip.pixel(x, y), inside);
        }
    }
}

#[test]
fn sprites_are_clipped_at_the_right_and_bottom_edges() {
    let mut chip = machine_with(&[0x61, 60, 0x62, 30, 0xA3, 0x00, 0xD1, 0x24]);
    chip.load(&[0xFF, 0xFF, 0xFF, 0xFF], 0x300).unwrap();
    chip.execute_many(4);
    assert_eq!(
        chip.draw(),
        vec![(60, 30), (61, 30), (62, 30), (63, 30), (60, 31), (61, 31), (62, 31), (63, 31)]
    );
    assert_eq!(chip.flag(), 0);
}

#[test]
fn a_sprite_wholly_off_screen_draws_nothing_but_marks_dirty() {
    let mut chip = machine_with(&[0x61, 64, 0x62, 200, 0xA0, 0x00, 0xD1, 0x25, 0xD2, 0x15]);
    chip.execute_many(4);
    assert!(chip.draw().is_empty());
    assert!(chip.take_draw_flag());
    chip.emulate_cycle().unwrap();
    assert!(chip.draw().is_empty());
    assert_eq!(chip.flag(), 0);
}

#[test]
fn a_sprite_of_no_rows_draws_nothing() {
    let mut chip = machine_with(&[0x6F, 9, 0xAF, 0xFF, 0xD1, 0x20]);
    chip.execute_many(2);
    assert_eq!(chip.emulate_cycle(), ran(false));
    assert!(chip.draw().is_empty());
    assert_eq!(chip.flag(), 0);
    assert!(chip.take_draw_flag());
}

#[test]
fn a_sprite_that_reaches_past_memory_faults_and_draws_nothing() {
    let mut chip = machine_with(&[0x6F, 9, 0xAF, 0xFE, 0xD1, 0x23, 0xD1, 0x22]);
    chip.load(&[0x80, 0x80], 4094).unwrap();
    chip.execute_many(2);
    assert_eq!(chip.emulate_cycle(), Err(Fault::AddressOutOfRange));
    assert!(chip.draw().is_empty());
    assert_eq!(chip.flag(), 9);
    assert!(!chip.take_draw_flag());
    chip.set_program_counter(518).unwrap();
    assert_eq!(chip.emulate_cycle(), ran(false));
    assert_eq!(chip.draw(), vec![(0, 0), (0, 1)]);
}

#[test]
fn draw_reads_its_coordinates_before_it_clears_the_flag() {
    let mut chip = machine_with(&[0x6F, 5, 0x61, 3, 0xA3, 0x00, 0xDF, 0x11]);
    chip.load(&[0x80], 0x300).unwrap();
    chip.execute_many(4);
    assert_eq!(chip.draw(), vec![(5, 3)]);
    assert_eq!(chip.flag(), 0);
}

#[test]
fn clear_screen_turns_every_cell_off() {
    let mut chip = machine_with(&[0xA0, 0x00, 0xD1, 0x25, 0x00, 0xE0]);
    chip.execute_many(2);
    assert!(!chip.draw().is_empty());
    chip.take_draw_flag();
    assert_eq!(chip.emulate_cycle(), ran(false));
    assert!(chip.draw().is_empty());
    assert_eq!(chip.program_counter(), 518);
    assert!(!chip.take_draw_flag());
}

#[test]
fn program_counter_stays_even_over_a_whole_program() {
    let program = [
        0x61, 0x05, 0x31, 0x05, 0x00, 0x00, 0x22, 0x10, 0x81, 0x14, 0xE1, 0xA1, 0x00, 0x00, 0x12,
        0x00, 0xA0, 0x00, 0xD1, 0x15, 0xF1, 0x33, 0x00, 0xEE,
    ];
    let mut chip = machine_with(&program);
    for _ in 0..200 {
        let before = chip.program_counter();
        chip.emulate_cycle().unwrap();
        assert_eq!(chip.program_counter() % 2, 0);
        assert_eq!((chip.program_counter() as i32 - before as i32) % 2, 0);
    }
}

#[test]
fn a_jump_to_an_odd_address_makes_the_program_counter_odd() {
    let mut chip = machine_with(&[0x13, 0x01]);
    chip.emulate_cycle().unwrap();
    assert_eq!(chip.program_counter(), 0x301);
}

#[test]
fn memory_range_of_empty_and_overlong_ranges() {
    let chip = Chip8::new();
    assert_eq!(chip.memory_range(10..10), Some(vec![]));
    #[allow(clippy::reversed_empty_ranges)]
    let backwards = 5000..10;
    assert_eq!(chip.memory_range(backwards), Some(vec![]));
    assert_eq!(chip.memory_range(4000..4097), None);
    assert_eq!(chip.memory_range(4095..4096), Some(vec![0]));
}

#[test]
fn set_key_keeps_the_value_and_only_that_key() {
    let mut chip = machine_with(&[0x61, 2, 0x62, 3, 0xE1, 0x9E, 0x00, 0x00, 0xE2, 0x9E]);
    chip.set_key(2, 7);
    chip.execute_many(3);
    assert_eq!(chip.program_counter(), 520);
    chip.emulate_cycle().unwrap();
    assert_eq!(chip.program_counter(), 522);
}
