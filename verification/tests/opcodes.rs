#![allow(non_snake_case)]

use chip8::keypad::Keypad;
use chip8::memory::ROM_BEGIN_INDEX;
use chip8::processor::Processor;
use chip8::state::{Compatibility, EmuError};

fn execute_instruction(processor: &mut Processor, instruction: u16) -> Result<(), EmuError> {
    let keypad = Keypad::new();
    let (first, rest) = processor.decode(instruction);
    processor.execute(first, rest, &keypad)
}

fn execute_with_keypad(
    processor: &mut Processor,
    instruction: u16,
    keypad: &Keypad,
) -> Result<(), EmuError> {
    let (first, rest) = processor.decode(instruction);
    processor.execute(first, rest, keypad)
}

#[test]
fn test_00E0() {
    let mut processor = Processor::init();
    processor.gfx = vec![1; 2048];

    execute_instruction(&mut processor, 0x00E0).unwrap();

    assert_eq!(processor.gfx, vec![0; 2048]);
}

#[test]
fn test_00EE() {
    let mut processor = Processor::init();
    let return_address = 0x201;
    processor.pc = 0x200;
    processor.stack.push(return_address);

    execute_instruction(&mut processor, 0x00EE).unwrap();

    assert_eq!(processor.pc, return_address, "PC not equal to return address!");
    assert!(processor.stack.is_empty(), "Stack not popped!");
}

#[test]
fn test_1NNN() {
    let mut processor = Processor::init();
    let jump_to = 0x123;

    execute_instruction(&mut processor, 0x1000 | jump_to).unwrap();

    assert_eq!(processor.pc, jump_to);
}

#[test]
fn test_2NNN() {
    let mut processor = Processor::init();
    let nnn = 0x123;

    execute_instruction(&mut processor, 0x2000 | nnn).unwrap();

    assert_eq!(processor.stack[0], ROM_BEGIN_INDEX as u16, "PC not added to stack!");
    assert_eq!(processor.pc, nnn, "PC should be {:06X}!", nnn);
}

#[test]
fn test_3XNN() {
    let mut processor = Processor::init();
    let x = 0x1;
    let nn = 0x23;
    processor.v[x as usize] = nn;

    execute_instruction(&mut processor, 0x3000 | (x << 8) | nn as u16).unwrap();

    assert_eq!(processor.pc, ROM_BEGIN_INDEX as u16 + 0x2);
}

#[test]
fn test_4XNN() {
    let mut processor = Processor::init();
    let x = 0x1;
    let nn = 0x23;
    processor.v[x as usize] = 0x0;

    execute_instruction(&mut processor, 0x4000 | (x << 8) | nn as u16).unwrap();

    assert_eq!(processor.pc, ROM_BEGIN_INDEX as u16 + 0x2);
}

#[test]
fn test_5XY0() {
    let mut processor = Processor::init();
    let x = 0x1;
    let y = 0x2;
    processor.v[x as usize] = 0x23;
    processor.v[y as usize] = 0x23;

    execute_instruction(&mut processor, 0x5000 | (x << 8) | (y << 4)).unwrap();

    assert_eq!(processor.pc, ROM_BEGIN_INDEX as u16 + 0x2);
}

#[test]
fn test_6XNN() {
    let mut processor = Processor::init();
    let x = 0x1;
    let nn = 0x23;

    execute_instruction(&mut processor, 0x6000 | (x << 8) | nn).unwrap();

    assert_eq!(processor.v[x as usize] as u16, nn);
}

#[test]
fn test_7XNN() {
    let mut processor = Processor::init();
    let x = 0x1;
    let nn = 0x23;
    processor.v[x as usize] = 0x1;

    execute_instruction(&mut processor, 0x7000 | (x << 8) | nn).unwrap();

    assert_eq!(processor.v[x as usize] as u16, x + nn);
    assert_eq!(processor.v[0xF], 0x0, "VF must stay untouched");
}

#[test]
fn test_8XY0() {
    let mut processor = Processor::init();
    let x = 0x1;
    let y = 0x2;
    processor.v[y as usize] = 0x23;

    execute_instruction(&mut processor, 0x8000 | (x << 8) | (y << 4)).unwrap();

    assert_eq!(processor.v[x as usize], 0x23);
}

#[test]
fn test_8XY1() {
    let mut processor = Processor::init();
    let x = 0x1;
    let y = 0x2;
    processor.v[x as usize] = 0x23;
    processor.v[y as usize] = 0x24;

    execute_instruction(&mut processor, 0x8001 | (x << 8) | (y << 4)).unwrap();

    assert_eq!(processor.v[x as usize], 0x23 | 0x24);
}

#[test]
fn test_8XY2() {
    let mut processor = Processor::init();
    let x = 0x1;
    let y = 0x2;
    processor.v[x as usize] = 0x23;
    processor.v[y as usize] = 0x24;

    execute_instruction(&mut processor, 0x8002 | (x << 8) | (y << 4)).unwrap();

    assert_eq!(processor.v[x as usize], 0x23 & 0x24);
}

#[test]
fn test_8XY3() {
    let mut processor = Processor::init();
    let x = 0x1;
    let y = 0x2;
    processor.v[x as usize] = 0x23;
    processor.v[y as usize] = 0x24;

    execute_instruction(&mut processor, 0x8003 | (x << 8) | (y << 4)).unwrap();

    assert_eq!(processor.v[x as usize], 0x23 ^ 0x24);
}

#[test]
fn test_8XY4_no_overflow() {
    let mut processor = Processor::init();
    let x = 0x1;
    let y = 0x2;
    processor.v[x as usize] = 0x23;
    processor.v[y as usize] = 0x24;

    execute_instruction(&mut processor, 0x8004 | (x << 8) | (y << 4)).unwrap();

    assert_eq!(processor.v[x as usize], 0x23 + 0x24, "v[x] should be 0x47");
    assert_eq!(processor.v[0xF], 0x0, "v[0xF] should be 0x0");
}

#[test]
fn test_8XY4_overflow() {
    let mut processor = Processor::init();
    let x = 0x1;
    let y = 0x2;
    processor.v[x as usize] = 0xFF;
    processor.v[y as usize] = 0x1;

    execute_instruction(&mut processor, 0x8004 | (x << 8) | (y << 4)).unwrap();

    assert_eq!(processor.v[x as usize], 0x0, "v[x] should be 0x0");
    assert_eq!(processor.v[0xF], 0x1, "v[0xF] should be 0x1");
}

#[test]
fn test_8XY5_no_underflow() {
    let mut processor = Processor::init();
    let x = 0x1;
    let y = 0x2;
    processor.v[x as usize] = 0x24;
    processor.v[y as usize] = 0x23;

    execute_instruction(&mut processor, 0x8005 | (x << 8) | (y << 4)).unwrap();

    assert_eq!(processor.v[x as usize], 0x24 - 0x23, "v[x] should be 0x1");
    assert_eq!(processor.v[0xF], 0x1, "v[0xF] should be 0x1");
}

#[test]
fn test_8XY5_underflow() {
    let mut processor = Processor::init();
    let x = 0x1;
    let y = 0x2;
    processor.v[x as usize] = 0x23;
    processor.v[y as usize] = 0x24;

    execute_instruction(&mut processor, 0x8005 | (x << 8) | (y << 4)).unwrap();

    assert_eq!(processor.v[x as usize], 0xFF, "v[x] should be 0xFF");
    assert_eq!(processor.v[0xF], 0x0, "v[0xF] should be 0x0");
}

#[test]
fn test_8XY6_original() {
    let mut processor = Processor::init_compat(Compatibility::Original);
    let x = 0x1;
    let y = 0x2;
    processor.v[y as usize] = 0x23;

    execute_instruction(&mut processor, 0x8006 | (x << 8) | (y << 4)).unwrap();

    assert_eq!(processor.v[x as usize], 0x23 >> 1, "v[x] should be {:X}", 0x23 >> 1);
    assert_eq!(processor.v[0xF], 0x23 & 0x1, "v[0xF] should be {:X}", 0x23 & 0x1);
}

#[test]
fn test_8XY6_new() {
    let mut processor = Processor::init_compat(Compatibility::New);
    let x = 0x1;
    let y = 0x2;
    processor.v[x as usize] = 0x23;

    execute_instruction(&mut processor, 0x8006 | (x << 8) | (y << 4)).unwrap();

    assert_eq!(processor.v[x as usize], 0x23 >> 1, "v[x] should be {:X}", 0x23 >> 1);
    assert_eq!(processor.v[0xF], 0x23 & 0x1, "v[0xF] should be {:X}", 0x23 & 0x1);
}

#[test]
fn test_8XY6_flag_destination() {
    let mut processor = Processor::init_compat(Compatibility::New);
    processor.v[0xF] = 0x23;

    // X = F: the shift targets VF, and the flag written last wins.
    execute_instruction(&mut processor, 0x8F06).unwrap();

    assert_eq!(processor.v[0xF], 0x23 & 0x1, "VF is the bit shifted out, even as destination");
}

#[test]
fn test_8XYE_flag_destination() {
    let mut processor = Processor::init_compat(Compatibility::Original);
    processor.v[0x2] = 0x81;

    execute_instruction(&mut processor, 0x8F2E).unwrap();

    assert_eq!(processor.v[0xF], 0x1, "VF is the high bit shifted out, even as destination");
}

#[test]
fn test_8XY7_no_underflow() {
    let mut processor = Processor::init();
    let x = 0x1;
    let y = 0x2;
    processor.v[x as usize] = 0x23;
    processor.v[y as usize] = 0x24;

    execute_instruction(&mut processor, 0x8007 | (x << 8) | (y << 4)).unwrap();

    assert_eq!(processor.v[x as usize], 0x24 - 0x23, "v[x] should be 0x1");
    assert_eq!(processor.v[0xF], 0x1, "v[0xF] should be 0x1");
}

#[test]
fn test_8XY7_underflow() {
    let mut processor = Processor::init();
    let x = 0x1;
    let y = 0x2;
    processor.v[x as usize] = 0x24;
    processor.v[y as usize] = 0x23;

    execute_instruction(&mut processor, 0x8007 | (x << 8) | (y << 4)).unwrap();

    assert_eq!(processor.v[x as usize], 0xFF, "v[x] should be 0xFF");
    assert_eq!(processor.v[0xF], 0x0, "v[0xF] should be 0x0");
}

#[test]
fn test_8XYE_original() {
    let mut processor = Processor::init_compat(Compatibility::Original);
    let x = 0x1;
    let y = 0x2;
    processor.v[y as usize] = 0x23;

    execute_instruction(&mut processor, 0x800E | (x << 8) | (y << 4)).unwrap();

    assert_eq!(processor.v[x as usize], 0x23 << 1, "v[x] should be {:X}", 0x23 << 1);
    assert_eq!(processor.v[0xF], (0x23 & 0x80) >> 7, "v[0xF] should be {:X}", (0x23 & 0x80) >> 7);
}

#[test]
fn test_8XYE_new() {
    let mut processor = Processor::init_compat(Compatibility::New);
    let x = 0x1;
    let y = 0x2;
    processor.v[x as usize] = 0x23;

    execute_instruction(&mut processor, 0x800E | (x << 8) | (y << 4)).unwrap();

    assert_eq!(processor.v[x as usize], 0x23 << 1, "v[x] should be {:X}", 0x23 << 1);
    assert_eq!(processor.v[0xF], (0x23 & 0x80) >> 7, "v[0xF] should be {:X}", (0x23 & 0x80) >> 7);
}

#[test]
fn test_9XY0() {
    let mut processor = Processor::init();
    let x = 0x1;
    let y = 0x2;
    processor.v[x as usize] = 0x23;
    processor.v[y as usize] = 0x24;

    execute_instruction(&mut processor, 0x9000 | (x << 8) | (y << 4)).unwrap();

    assert_eq!(processor.pc, ROM_BEGIN_INDEX as u16 + 0x2);
}

#[test]
fn test_ANNN() {
    let mut processor = Processor::init();
    let nnn = 0x123;

    execute_instruction(&mut processor, 0xA000 | nnn).unwrap();

    assert_eq!(processor.i, nnn);
}

#[test]
fn test_BNNN() {
    let mut processor = Processor::init_compat(Compatibility::Original);
    let nnn = 0x123;
    processor.v[0] = 0x1;

    execute_instruction(&mut processor, 0xB000 | nnn).unwrap();

    assert_eq!(processor.pc, nnn + 0x1);
}

#[test]
fn test_BXNN() {
    let mut processor = Processor::init_compat(Compatibility::New);
    let x = 0x1_u16;
    let nnn = 0x123;
    processor.v[x as usize] = 0x2;

    execute_instruction(&mut processor, 0xB000 | (x << 8) | nnn).unwrap();

    assert_eq!(processor.pc, nnn + 0x2);
}

#[test]
fn test_CXNN() {
    let mut processor = Processor::init();
    let x = 0x1;
    let nn = 0x23;

    execute_instruction(&mut processor, 0xC000 | (x << 8) | nn).unwrap();

    assert_eq!(
        processor.v[x as usize] & !(nn as u8),
        0,
        "the random byte must be masked by NN"
    );
}

#[test]
fn test_DXYN_no_flip() {
    let mut processor = Processor::init();
    let x = 0x1;
    let y = 0x2;
    let n = 0x3;
    let sprite_x = 0x1;
    let sprite_y = 0x2;
    let gfx_start = sprite_y as usize * 64 + sprite_x as usize;

    processor.v[x as usize] = sprite_x;
    processor.v[y as usize] = sprite_y;
    processor.i = 0x200;
    processor.memory.data[processor.i as usize] = 0b01000001;

    execute_instruction(&mut processor, 0xD000 | (x << 8) | (y << 4) | n).unwrap();

    assert_eq!(
        processor.gfx[gfx_start..gfx_start + 8],
        [0, 1, 0, 0, 0, 0, 0, 1],
        "processor.gfx set incorrectly!"
    );
    assert_eq!(processor.v[0xF], 0x0, "v[0xF] should be 0x0");
}

#[test]
fn test_DXYN_flip() {
    let mut processor = Processor::init();
    let x = 0x1;
    let y = 0x2;
    let n = 0x3;
    let sprite_x = 0x1;
    let sprite_y = 0x2;
    let gfx_start = sprite_y as usize * 64 + sprite_x as usize;

    processor.v[x as usize] = sprite_x;
    processor.v[y as usize] = sprite_y;
    processor.i = 0x200;
    processor.memory.data[processor.i as usize] = 0b01000001;
    processor.gfx = vec![1; 2048];

    execute_instruction(&mut processor, 0xD000 | (x << 8) | (y << 4) | n).unwrap();

    assert_eq!(
        processor.gfx[gfx_start..gfx_start + 8],
        [1, 0, 1, 1, 1, 1, 1, 0],
        "processor.gfx set incorrectly!"
    );
    assert_eq!(processor.v[0xF], 0x1, "v[0xF] should be 0x1");
}

#[test]
fn test_EX9E() {
    let mut processor = Processor::init();
    let x = 0x1;
    processor.v[x as usize] = 0x1;
    let mut keypad = Keypad::new();
    keypad.set_key(0x1);

    execute_with_keypad(&mut processor, 0xE09E | (x << 8), &keypad).unwrap();

    assert_eq!(processor.pc, 0x202);
}

#[test]
fn test_EX9E_no_key() {
    let mut processor = Processor::init();
    let x = 0x1;
    processor.v[x as usize] = 0x1;
    let keypad = Keypad::new();

    execute_with_keypad(&mut processor, 0xE09E | (x << 8), &keypad).unwrap();

    assert_eq!(processor.pc, 0x200, "no key held: no skip");
}

#[test]
fn test_EXA1_matching_key() {
    let mut processor = Processor::init();
    let x = 0x1;
    processor.v[x as usize] = 0x1;
    let mut keypad = Keypad::new();
    keypad.set_key(0x1);

    execute_with_keypad(&mut processor, 0xE0A1 | (x << 8), &keypad).unwrap();

    assert_eq!(processor.pc, 0x200, "the named key is held: no skip");
}

#[test]
fn test_EXA1_wrong_key() {
    let mut processor = Processor::init();
    let x = 0x1;
    processor.v[x as usize] = 0x1;
    let mut keypad = Keypad::new();
    keypad.set_key(0x2);

    execute_with_keypad(&mut processor, 0xE0A1 | (x << 8), &keypad).unwrap();

    assert_eq!(processor.pc, 0x202);
}

#[test]
fn test_EXA1_no_key() {
    let mut processor = Processor::init();
    let x = 0x1;
    processor.v[x as usize] = 0x1;
    let keypad = Keypad::new();

    execute_with_keypad(&mut processor, 0xE0A1 | (x << 8), &keypad).unwrap();

    assert_eq!(processor.pc, 0x202);
}

#[test]
fn test_FX07() {
    let mut processor = Processor::init();
    let x = 0x1;
    processor.delay_timer = 0x23;

    execute_instruction(&mut processor, 0xF007 | (x << 8)).unwrap();

    assert_eq!(processor.v[x as usize], processor.delay_timer);
}

#[test]
fn test_FX0A() {
    let mut processor = Processor::init();
    let x = 0x1;
    let mut keypad = Keypad::new();
    keypad.set_key(0x1);

    execute_with_keypad(&mut processor, 0xF00A | (x << 8), &keypad).unwrap();

    assert_eq!(processor.v[x as usize], keypad.get_current_key());
}

#[test]
fn test_FX0A_no_key() {
    let mut processor = Processor::init();
    let x = 0x1;
    processor.pc = 0x202;
    let keypad = Keypad::new();

    execute_with_keypad(&mut processor, 0xF00A | (x << 8), &keypad).unwrap();

    assert_eq!(processor.pc, 0x200, "PC must rewind so the wait refetches");
}

#[test]
fn test_FX15() {
    let mut processor = Processor::init();
    let x = 0x1;
    processor.v[x as usize] = 0x23;

    execute_instruction(&mut processor, 0xF015 | (x << 8)).unwrap();

    assert_eq!(processor.delay_timer, processor.v[x as usize]);
}

#[test]
fn test_FX18() {
    let mut processor = Processor::init();
    let x = 0x1;
    processor.v[x as usize] = 0x23;

    execute_instruction(&mut processor, 0xF018 | (x << 8)).unwrap();

    assert_eq!(processor.sound_timer, processor.v[x as usize]);
}

#[test]
fn test_FX1E_no_overflow() {
    let mut processor = Processor::init();
    let x = 0x1;
    processor.v[x as usize] = 0x23;
    processor.i = 0x200;

    execute_instruction(&mut processor, 0xF01E | (x << 8)).unwrap();

    assert_eq!(processor.i, 0x200 + 0x23);
    assert_eq!(processor.v[0xF], 0x0);
}

#[test]
fn test_FX1E_overflow() {
    let mut processor = Processor::init();
    let x = 0x1;
    processor.v[x as usize] = 0x1;
    processor.i = 0x0FFF;

    execute_instruction(&mut processor, 0xF01E | (x << 8)).unwrap();

    assert_eq!(processor.i, 0x1000, "i should be 0x1000");
    assert_eq!(processor.v[0xF], 0x1, "v[0xF] should be 0x1");
}

#[test]
fn test_FX29() {
    let mut processor = Processor::init();
    let x = 0x1;
    processor.v[x as usize] = 0x4;

    execute_instruction(&mut processor, 0xF029 | (x << 8)).unwrap();

    assert_eq!(processor.i, 0x50 + 4 * 5);
}

#[test]
fn test_FX29_low_nibble() {
    let mut processor = Processor::init();
    let x = 0x1;
    processor.v[x as usize] = 0x14;

    execute_instruction(&mut processor, 0xF029 | (x << 8)).unwrap();

    assert_eq!(processor.i, 0x50 + 4 * 5, "only the low nibble picks the glyph");
}

#[test]
fn test_FX33() {
    let mut processor = Processor::init();
    let x = 0x1;
    processor.v[x as usize] = 0xFE; // 254
    processor.i = 0x300;

    execute_instruction(&mut processor, 0xF033 | (x << 8)).unwrap();

    assert_eq!(processor.memory.data[processor.i as usize], 2);
    assert_eq!(processor.memory.data[processor.i as usize + 1], 5);
    assert_eq!(processor.memory.data[processor.i as usize + 2], 4);
}

#[test]
fn test_FX55_original() {
    let mut processor = Processor::init_compat(Compatibility::Original);
    let x = 0x1_u16;
    for i in 0..=x as usize {
        processor.v[i] = i as u8 + 7;
    }
    processor.i = ROM_BEGIN_INDEX as u16;

    execute_instruction(&mut processor, 0xF055 | (x << 8)).unwrap();

    assert_eq!(processor.i, ROM_BEGIN_INDEX as u16 + x + 1, "I advances by X+1");
    for i in 0..=x as usize {
        assert_eq!(processor.memory.data[ROM_BEGIN_INDEX + i], processor.v[i]);
    }
}

#[test]
fn test_FX55_new() {
    let mut processor = Processor::init_compat(Compatibility::New);
    let x = 0x1_u16;
    for i in 0..=x as usize {
        processor.v[i] = i as u8 + 7;
    }
    processor.i = ROM_BEGIN_INDEX as u16;

    execute_instruction(&mut processor, 0xF055 | (x << 8)).unwrap();

    assert_eq!(processor.i, ROM_BEGIN_INDEX as u16, "I stays put");
    for i in 0..=x as usize {
        assert_eq!(processor.memory.data[processor.i as usize + i], processor.v[i]);
    }
}

#[test]
fn test_FX65_original() {
    let mut processor = Processor::init_compat(Compatibility::Original);
    let x = 0x1_u16;
    processor.i = ROM_BEGIN_INDEX as u16;
    for i in 0..=x as usize {
        processor.memory.data[ROM_BEGIN_INDEX + i] = i as u8 + 7;
    }

    execute_instruction(&mut processor, 0xF065 | (x << 8)).unwrap();

    assert_eq!(processor.i, ROM_BEGIN_INDEX as u16 + x + 1, "I advances by X+1");
    for i in 0..=x as usize {
        assert_eq!(processor.v[i], processor.memory.data[ROM_BEGIN_INDEX + i]);
    }
}

#[test]
fn test_FX65_new() {
    let mut processor = Processor::init_compat(Compatibility::New);
    let x = 0x1_u16;
    processor.i = ROM_BEGIN_INDEX as u16;
    for i in 0..=x as usize {
        processor.memory.data[ROM_BEGIN_INDEX + i] = i as u8 + 7;
    }

    execute_instruction(&mut processor, 0xF065 | (x << 8)).unwrap();

    assert_eq!(processor.i, ROM_BEGIN_INDEX as u16, "I stays put");
    for i in 0..=x as usize {
        assert_eq!(processor.v[i], processor.memory.data[processor.i as usize + i]);
    }
}
