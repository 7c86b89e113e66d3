use chirp8::processor::LoadError;
use chirp8::processor::Processor;

#[test]
fn test_load_empty_image() {
    let image: Vec<u8> = vec![];
    let processor = Processor::load(&image).unwrap();
    assert_eq!(processor.program_counter(), 0x200);
    for address in 0usize..4096 {
        assert_eq!(processor.memory_byte(address), 0);
    }
}

#[test]
fn test_load_zeroes_registers_timers_and_stack() {
    let image: Vec<u8> = vec![0x12, 0x34];
    let processor = Processor::load(&image).unwrap();
    assert_eq!(processor.delay_timer(), 0);
    assert_eq!(processor.sound_timer(), 0);
    assert_eq!(processor.i_register(), 0);
    for index in 0usize..16 {
        assert_eq!(processor.register(index), 0);
    }
    for depth in 0usize..12 {
        assert_eq!(processor.stack_slot(depth), 0);
    }
}

#[test]
fn test_load_copies_image_at_load_address() {
    let image: Vec<u8> = vec![0xA1, 0xB2, 0xC3, 0xD4];
    let processor = Processor::load(&image).unwrap();
    assert_eq!(processor.memory_byte(0x1FF), 0);
    assert_eq!(processor.memory_byte(0x200), 0xA1);
    assert_eq!(processor.memory_byte(0x201), 0xB2);
    assert_eq!(processor.memory_byte(0x202), 0xC3);
    assert_eq!(processor.memory_byte(0x203), 0xD4);
    assert_eq!(processor.memory_byte(0x204), 0);
    assert_eq!(processor.memory_byte(4095), 0);
}

#[test]
fn test_load_largest_image() {
    let mut image: Vec<u8> = Vec::new();
    for i in 0usize..3584 {
        image.push((i % 256) as u8);
    }
    let processor = Processor::load(&image).unwrap();
    assert_eq!(processor.program_counter(), 0x200);
    assert_eq!(processor.memory_byte(0x200), 0);
    assert_eq!(processor.memory_byte(4095), ((3584 - 1) % 256) as u8);
}

#[test]
fn test_load_oversized_image_fails() {
    let image: Vec<u8> = vec![0xFF; 3585];
    let result = Processor::load(&image);
    assert!(matches!(result, Err(LoadError::ImageTooLarge)));
}
