use hack_emulator::assembler::{assemble_program, check_decimals, generate_binary, read_assembly};
use hack_emulator::{HackEmulator, LoadError, CPU};

#[test]
fn binary_text_becomes_words() {
    let text = "0000000000000101\n1110110000010000\n";
    assert_eq!(generate_binary(text.as_bytes()), Ok(vec![5, 0xEC10u16 as i16]));
}

#[test]
fn binary_text_first_digit_is_the_most_significant() {
    assert_eq!(generate_binary(b"1000000000000000\n"), Ok(vec![i16::MIN]));
    assert_eq!(generate_binary(b"0000000000000001\n"), Ok(vec![1]));
    assert_eq!(generate_binary(b"1111111111111111\n"), Ok(vec![-1]));
    assert_eq!(generate_binary(b"0111111111111111\n"), Ok(vec![i16::MAX]));
    assert_eq!(generate_binary(b"0000000000000000\n"), Ok(vec![0]));
}

#[test]
fn empty_binary_text_is_an_empty_program() {
    assert_eq!(generate_binary(b""), Ok(vec![]));
}

#[test]
fn malformed_binary_text_is_refused() {
    // No line feed at the end.
    assert_eq!(generate_binary(b"0000000000000101"), Err(LoadError::MalformedBinary));
    // Fifteen digits.
    assert_eq!(generate_binary(b"000000000000101\n"), Err(LoadError::MalformedBinary));
    // Seventeen digits.
    assert_eq!(generate_binary(b"00000000000000101\n"), Err(LoadError::MalformedBinary));
    // A digit that is not binary.
    assert_eq!(generate_binary(b"0000000000000201\n"), Err(LoadError::MalformedBinary));
    // A letter, in the first and in the last place.
    assert_eq!(generate_binary(b"x000000000000001\n"), Err(LoadError::MalformedBinary));
    assert_eq!(generate_binary(b"000000000000000x\n"), Err(LoadError::MalformedBinary));
    // A space where the line feed belongs.
    assert_eq!(generate_binary(b"0000000000000101 "), Err(LoadError::MalformedBinary));
    // A carriage return before the line feed.
    assert_eq!(generate_binary(b"000000000000010\r\n"), Err(LoadError::MalformedBinary));
    // An empty line.
    assert_eq!(generate_binary(b"\n"), Err(LoadError::MalformedBinary));
    // A good line followed by a bad one.
    assert_eq!(
        generate_binary(b"0000000000000101\n000000000000010a\n"),
        Err(LoadError::MalformedBinary)
    );
    // Line feeds in the wrong places, though the length fits.
    assert_eq!(
        generate_binary(b"000000000000010\n10000000000000101\n"),
        Err(LoadError::MalformedBinary)
    );
}

#[test]
fn decimals_of_up_to_nine_digits_pass() {
    assert!(check_decimals(b""));
    assert!(check_decimals(b"@5\nD=A\n"));
    assert!(check_decimals(b"@123456789\n"));
    assert!(check_decimals(b"@var.123456789\n"));
    assert!(check_decimals(b"// 12345678901234567890\n"));
    assert!(check_decimals(b"@12345@12345\n"));
    assert!(check_decimals(b"1234567890"));
    assert!(check_decimals(b"@"));
}

#[test]
fn decimals_of_ten_digits_do_not_pass() {
    assert!(!check_decimals(b"@1234567890\n"));
    assert!(!check_decimals(b"@0000000001\n"));
    assert!(!check_decimals(b"@var.1234567890\n"));
    assert!(!check_decimals(b"@99999999999999999999999999\n"));
    assert!(!check_decimals(b"D=A\n@5\n// see 1.1234567890"));
    assert!(!check_decimals(b".0123456789"));
}

#[test]
fn assembler_report_is_handed_on() {
    assert_eq!(
        read_assembly(Err(String::from("no good"))),
        Err(LoadError::Assembly(String::from("no good")))
    );
    assert_eq!(read_assembly(Ok(String::from("0000000000000111\n"))), Ok(vec![7]));
    assert_eq!(read_assembly(Ok(String::from("0000000000000111"))), Err(LoadError::MalformedBinary));
    assert_eq!(read_assembly(Ok(String::new())), Ok(vec![]));
}

#[test]
fn assembles_a_small_program() {
    let source = "@5\nD=A\n";
    assert_eq!(assemble_program(source), Ok(vec![5, 0xEC10u16 as i16]));
}

#[test]
fn assembles_labels_variables_and_jumps() {
    let source = "// count down from 3\n@3\nD=A\n(LOOP)\nD=D-1\n@LOOP\nD;JGT\n@counter\nM=D\n";
    assert_eq!(
        assemble_program(source),
        Ok(vec![
            3,
            0xEC10u16 as i16,
            0xE390u16 as i16,
            2,
            0xE301u16 as i16,
            16,
            0xE308u16 as i16,
        ])
    );
}

#[test]
fn assembler_refuses_what_is_no_assembly() {
    match assemble_program("this is not assembly\n") {
        Err(LoadError::Assembly(report)) => assert!(!report.is_empty()),
        other => panic!("unexpected answer: {:?}", other),
    }
    match assemble_program("@40000\n") {
        Err(LoadError::Assembly(report)) => assert!(!report.is_empty()),
        other => panic!("unexpected answer: {:?}", other),
    }
}

#[test]
fn overlong_decimal_never_reaches_the_assembler() {
    assert_eq!(
        assemble_program("@99999999999999999999999999999\n"),
        Err(LoadError::DecimalTooLong)
    );
    assert_eq!(assemble_program("@00000000000000000005\n"), Err(LoadError::DecimalTooLong));
}

#[test]
fn loads_and_runs_assembled_source() {
    let mut emulator = HackEmulator::new();
    assert_eq!(emulator.load_rom_from_source("@5\nD=A\n"), Ok(()));
    assert_eq!(emulator.num_instructions(), 2);
    assert_eq!(emulator.program_store().read(0), Ok(5));
    assert_eq!(emulator.program_store().read(1), Ok(0xEC10u16 as i16));
    emulator.execute(2).unwrap();
    assert_eq!(emulator.cpu(), CPU { a: 5, d: 5, pc: 2 });
}

#[test]
fn loads_and_runs_a_countdown() {
    let source = "@3\nD=A\n(LOOP)\nD=D-1\n@LOOP\nD;JGT\n@100\nM=D-1\n";
    let mut emulator = HackEmulator::new();
    emulator.load_rom_from_source(source).unwrap();
    assert_eq!(emulator.num_instructions(), 7);
    emulator.execute(2 + 3 * 3 + 2).unwrap();
    assert_eq!(emulator.cpu(), CPU { a: 100, d: 0, pc: 7 });
    assert_eq!(emulator.data_store().read(100), Ok(-1));
}

#[test]
fn refused_source_leaves_the_machine_alone() {
    let mut emulator = HackEmulator::new();
    emulator.load(&[1, 2, 3]).unwrap();
    assert!(matches!(emulator.load_rom_from_source("D=Q\n"), Err(LoadError::Assembly(_))));
    assert_eq!(
        emulator.load_rom_from_source("@12345678901\n"),
        Err(LoadError::DecimalTooLong)
    );
    assert_eq!(emulator.num_instructions(), 3);
    assert_eq!(emulator.program_store().read(0), Ok(1));
    assert_eq!(emulator.program_store().read(2), Ok(3));
}

#[test]
fn loads_binary_text() {
    let mut emulator = HackEmulator::new();
    assert_eq!(emulator.load_binary(b"0000000000000101\n1110110000010000\n"), Ok(()));
    emulator.execute(2).unwrap();
    assert_eq!(emulator.cpu(), CPU { a: 5, d: 5, pc: 2 });
    assert_eq!(emulator.load_binary(b"0000000000000101\n111011000001000\n"), Err(LoadError::MalformedBinary));
    assert_eq!(emulator.num_instructions(), 2);
}

#[test]
fn binary_text_of_too_many_lines_is_refused() {
    let mut text: Vec<u8> = Vec::new();
    for _ in 0..32769 {
        text.extend_from_slice(b"0000000000000001\n");
    }
    let mut emulator = HackEmulator::new();
    assert_eq!(emulator.load_binary(&text), Err(LoadError::ProgramTooLarge));
    assert_eq!(emulator.num_instructions(), 0);
    assert_eq!(emulator.program_store().read(0), Ok(0));
    text.truncate(32768 * 17);
    assert_eq!(emulator.load_binary(&text), Ok(()));
    assert_eq!(emulator.num_instructions(), 32768);
    assert_eq!(emulator.program_store().read(32767), Ok(1));
}

#[test]
fn variable_beyond_the_address_range_is_caught() {
    // The assembler numbers variables from 16 on and never checks that
    // the number still fits 15 bits: the line it writes is then too long.
    let mut source = String::new();
    for index in 0..32753u32 {
        source.push('@');
        source.push('v');
        let mut rest = index;
        for _ in 0..4 {
            source.push((b'a' + (rest % 26) as u8) as char);
            rest /= 26;
        }
        source.push('\n');
    }
    assert_eq!(assemble_program(&source), Err(LoadError::MalformedBinary));
    let mut emulator = HackEmulator::new();
    assert_eq!(emulator.load_rom_from_source(&source), Err(LoadError::MalformedBinary));
    assert_eq!(emulator.num_instructions(), 0);
}

#[test]
fn last_variable_within_the_address_range() {
    let mut source = String::new();
    for index in 0..32752u32 {
        source.push('@');
        source.push('v');
        let mut rest = index;
        for _ in 0..4 {
            source.push((b'a' + (rest % 26) as u8) as char);
            rest /= 26;
        }
        source.push('\n');
    }
    let words = assemble_program(&source).unwrap();
    assert_eq!(words.len(), 32752);
    assert_eq!(words[0], 16);
    assert_eq!(words[32751], 32767);
}
