use bootloader::bootinfo::MemoryMap;
use bootloader::BootInfo;
use vga_boot::console::{ByteWrite, TextBuffer};
use vga_boot::machine::{handle_fault, next_phase, Event, Phase};
use vga_boot::programs::{kernel_main, start, ConsoleProgram};
use vga_boot::vga_text::{
    hello_message, print_hello_world, print_message, HELLO_LEN, VGA_BUFFER_ADDR, WHITE_ON_BLACK,
};

const SCREEN_BYTES: usize = 80 * 25 * 2;

#[test]
fn hello_world_fills_first_thirteen_cells() {
    let program = start(TextBuffer::new(SCREEN_BYTES));
    let bytes = program.screen().to_bytes();
    let message = b"Hello, World!";
    assert_eq!(message.len(), 13);
    for (i, &ch) in message.iter().enumerate() {
        assert_eq!(bytes[2 * i], ch);
        assert_eq!(bytes[2 * i + 1], 0x0F);
    }
    assert_eq!(bytes[0], 0x48);
    assert_eq!(bytes[1], 0x0F);
    assert_eq!(bytes[2], 0x65);
    assert_eq!(bytes[3], 0x0F);
    assert_eq!(bytes[24], 0x21);
    assert_eq!(bytes[25], 0x0F);
}

#[test]
fn hello_world_writes_in_ascending_order() {
    let mut screen = TextBuffer::new(SCREEN_BYTES);
    print_hello_world(&mut screen);
    assert_eq!(screen.write_count(), 26);
    let message = b"Hello, World!";
    for k in 0..screen.write_count() {
        let w = screen.write_at(k);
        assert_eq!(w.offset, k);
        let expected = if k % 2 == 0 { message[k / 2] } else { 0x0F };
        assert_eq!(w.value, expected);
        if k > 0 {
            assert!(screen.write_at(k - 1).offset < w.offset);
        }
    }
    assert_eq!(screen.write_at(0), ByteWrite { offset: 0, value: b'H' });
    assert_eq!(screen.write_at(1), ByteWrite { offset: 1, value: 0x0F });
    assert_eq!(screen.write_at(2), ByteWrite { offset: 2, value: b'e' });
}

#[test]
fn hello_world_leaves_rest_of_screen_untouched() {
    let before = vec![0xAAu8; 40];
    let program = start(TextBuffer::from_bytes(before.clone()));
    let bytes = program.screen().to_bytes();
    assert_eq!(bytes.len(), 40);
    for j in 26..40 {
        assert_eq!(bytes[j], 0xAA);
    }
    for k in 0..program.screen().write_count() {
        assert!(program.screen().write_at(k).offset < 26);
    }
}

#[test]
fn hello_world_on_exact_size_screen() {
    let program = start(TextBuffer::new(2 * HELLO_LEN));
    let bytes = program.screen().to_bytes();
    let mut expected = Vec::new();
    for &ch in b"Hello, World!" {
        expected.push(ch);
        expected.push(0x0F);
    }
    assert_eq!(bytes, expected);
}

#[test]
fn greeting_bytes() {
    assert_eq!(hello_message(), b"Hello, World!".to_vec());
    assert_eq!(HELLO_LEN, 13);
    assert_eq!(WHITE_ON_BLACK, 0x0F);
    assert_eq!(VGA_BUFFER_ADDR, 0xB8000);
}

#[test]
fn console_entry_ends_halted() {
    let program = start(TextBuffer::new(SCREEN_BYTES));
    assert_eq!(program.phase(), Phase::Halted);
}

#[test]
fn handoff_entry_ends_halted() {
    let info = BootInfo::new(MemoryMap::new(), None, 0, 0);
    assert_eq!(kernel_main(&info), Phase::Halted);
}

#[test]
fn ticks_after_halt_change_nothing() {
    let mut program = start(TextBuffer::new(SCREEN_BYTES));
    let bytes = program.screen().to_bytes();
    let writes = program.screen().write_count();
    for _ in 0..100 {
        program.step();
        assert_eq!(program.phase(), Phase::Halted);
        assert_eq!(program.screen().to_bytes(), bytes);
        assert_eq!(program.screen().write_count(), writes);
    }
}

#[test]
fn program_steps_through_phases() {
    let mut program = ConsoleProgram::new(TextBuffer::new(SCREEN_BYTES));
    assert_eq!(program.phase(), Phase::Initializing);
    program.step();
    assert_eq!(program.phase(), Phase::Running);
    assert_eq!(program.screen().write_count(), 0);
    program.step();
    assert_eq!(program.phase(), Phase::Halted);
    assert_eq!(program.screen().write_count(), 26);
}

#[test]
fn fault_before_body_halts_without_writing() {
    let mut program = ConsoleProgram::new(TextBuffer::new(SCREEN_BYTES));
    program.step();
    program.fault();
    assert_eq!(program.phase(), Phase::Halted);
    program.step();
    assert_eq!(program.screen().write_count(), 0);
    assert_eq!(program.screen().to_bytes(), vec![0u8; SCREEN_BYTES]);
}

#[test]
fn phase_transitions() {
    assert_eq!(next_phase(Phase::Initializing, Event::HandOff), Phase::Running);
    assert_eq!(next_phase(Phase::Initializing, Event::Tick), Phase::Initializing);
    assert_eq!(next_phase(Phase::Initializing, Event::BodyDone), Phase::Initializing);
    assert_eq!(next_phase(Phase::Running, Event::BodyDone), Phase::Halted);
    assert_eq!(next_phase(Phase::Running, Event::Tick), Phase::Running);
    assert_eq!(next_phase(Phase::Running, Event::HandOff), Phase::Running);
    assert_eq!(next_phase(Phase::Running, Event::Fault), Phase::Halted);
    for e in [Event::HandOff, Event::BodyDone, Event::Fault, Event::Tick] {
        assert_eq!(next_phase(Phase::Halted, e), Phase::Halted);
    }
}

#[test]
fn fault_handler_always_halts() {
    for p in [Phase::Initializing, Phase::Running, Phase::Halted] {
        assert_eq!(handle_fault(p), Phase::Halted);
    }
}

#[test]
fn print_message_of_other_text() {
    let mut screen = TextBuffer::from_bytes(vec![7u8; 8]);
    print_message(&mut screen, b"ab");
    assert_eq!(screen.to_bytes(), vec![b'a', 0x0F, b'b', 0x0F, 7, 7, 7, 7]);
    assert_eq!(screen.write_count(), 4);
}

#[test]
fn print_empty_message_writes_nothing() {
    let mut screen = TextBuffer::from_bytes(vec![5u8; 4]);
    print_message(&mut screen, b"");
    assert_eq!(screen.to_bytes(), vec![5u8; 4]);
    assert_eq!(screen.write_count(), 0);
}

#[test]
fn cell_and_byte_writes() {
    let mut screen = TextBuffer::new(6);
    assert_eq!(screen.len(), 6);
    screen.write_cell(2, b'x', 0x1E);
    assert_eq!(screen.byte_at(4), b'x');
    assert_eq!(screen.byte_at(5), 0x1E);
    screen.write_byte(0, 9);
    assert_eq!(screen.to_bytes(), vec![9, 0, 0, 0, b'x', 0x1E]);
    assert_eq!(screen.write_count(), 3);
    assert_eq!(screen.write_at(2), ByteWrite { offset: 0, value: 9 });
}

#[test]
fn empty_screen() {
    let screen = TextBuffer::new(0);
    assert_eq!(screen.len(), 0);
    assert_eq!(screen.write_count(), 0);
}
