use tiny_machine::machine::MACHINE_SIZE;
use tiny_machine::memory::MemoryError;
use tiny_machine::instructions::InstructionError;
use tiny_machine::profile::Profile;
use tiny_machine::state::{Game, Reason, timeout};
use tiny_machine::text::{decimal_string, hex_string_lower, hex_string_upper};

#[test]
fn prompt_line() {
    assert_eq!(Game::prompt(), "Submit your TinyMachine here:\n");
}

#[test]
fn timeout_boundary() {
    assert!(!timeout(0));
    assert!(!timeout(10000));
    assert!(timeout(10001));
}

// An all-zero payload halts at once: one instruction executed, IP
// still 0 — and is rejected as a wrong answer under a profile that
// demands a specific AC value.
#[test]
fn all_zero_payload_is_wrong_answer() {
    let game = Game::start(7).poll_start();
    let buf: Vec<u8> = vec![0; MACHINE_SIZE];
    let game = game.poll_read(&buf, 3, Profile::B);
    let game = match game {
        Game::Execute { id, machine } => {
            assert_eq!(id, 7);
            Game::Execute { id, machine }
        },
        other => panic!("expected Execute, got {:?}", other),
    };
    let game = game.poll_execute(Profile::B);
    let game = match game {
        Game::Validate { id, machine } => {
            assert_eq!(machine.get_cc(), 1);
            assert_eq!(machine.get_reg().get_ip(), 0);
            assert_eq!(machine.get_reg().get_hf(), true);
            Game::Validate { id, machine }
        },
        other => panic!("expected Validate, got {:?}", other),
    };
    let game = game.poll_validate(Profile::B);
    match &game {
        Game::Incorrect { id, reason, message } => {
            assert_eq!(*id, 7);
            assert_eq!(*reason, Reason::WrongAnswer);
            assert_eq!(message.as_str(), "Executed 1 instructions");
        },
        other => panic!("expected Incorrect, got {:?}", other),
    };
    let (game, out) = game.poll_incorrect();
    assert!(matches!(game, Game::Finished(7)));
    assert_eq!(
        out,
        "Executed 1 instructions\nFailed to complete TinyMachine\nSorry, incorrect answer.\n"
    );
}

// A payload whose first memory byte is a jump to location 15, where
// the wrapped word decodes to a halt: exactly two instructions, IP 15.
#[test]
fn jump_to_fifteen_executes_two() {
    let game = Game::start(1).poll_start();
    let mut buf: Vec<u8> = vec![0; MACHINE_SIZE];
    buf[2] = 0x1F;
    let game = game.poll_read(&buf, 0, Profile::B);
    let game = game.poll_execute(Profile::B);
    match game {
        Game::Validate { machine, .. } => {
            assert_eq!(machine.get_cc(), 2);
            assert_eq!(machine.get_reg().get_ip(), 15);
        },
        other => panic!("expected Validate, got {:?}", other),
    };
}

// Fewer than ten bytes: rejected before any machine exists, and the
// terminal message names the reason.
#[test]
fn short_read_is_rejected() {
    let game = Game::start(3).poll_start();
    let buf: Vec<u8> = vec![0x00, 0x01, 0x02];
    let game = game.poll_read(&buf, 0, Profile::Open);
    match &game {
        Game::Incorrect { id, reason, message } => {
            assert_eq!(*id, 3);
            assert_eq!(*reason, Reason::ReadTooSmall);
            assert_eq!(message.as_str(), "");
        },
        other => panic!("expected Incorrect, got {:?}", other),
    };
    let (game, out) = game.poll_incorrect();
    assert!(matches!(game, Game::Finished(3)));
    assert_eq!(out, "\nFailed to complete TinyMachine\nNot enough bytes sent\n");
}

// A payload that arrived after the timeout is rejected even when it is
// complete.
#[test]
fn late_read_is_rejected() {
    let game = Game::start(4).poll_start();
    let buf: Vec<u8> = vec![0; MACHINE_SIZE];
    let game = game.poll_read(&buf, 10001, Profile::Open);
    match &game {
        Game::Incorrect { reason, .. } => assert_eq!(*reason, Reason::Timeout),
        other => panic!("expected Incorrect, got {:?}", other),
    };
    let (_, out) = game.poll_incorrect();
    assert_eq!(out, "\nFailed to complete TinyMachine\nToo slow, timeout\n");
}

// A program that hits an illegal instruction is rejected as a bad
// execution, and the message names the offending code.
#[test]
fn bad_execution_names_the_culprit() {
    let game = Game::start(5).poll_start();
    let mut buf: Vec<u8> = vec![0; MACHINE_SIZE];
    buf[2] = 0x60; // GET outside the port-enabled profile
    let game = game.poll_read(&buf, 0, Profile::Open);
    let game = game.poll_execute(Profile::Open);
    match &game {
        Game::Incorrect { reason, message, .. } => {
            assert_eq!(*reason, Reason::BadExecution);
            assert_eq!(message.as_str(), "Machine Error: Instruction Error: Invalid instruction: 6");
        },
        other => panic!("expected Incorrect, got {:?}", other),
    };
    let (_, out) = game.poll_incorrect();
    assert_eq!(
        out,
        "Machine Error: Instruction Error: Invalid instruction: 6\nFailed to complete TinyMachine\nYour machine did something wrong\n"
    );
}

// An out-of-bounds memory failure names the offending address.
#[test]
fn out_of_bounds_names_the_address() {
    let err = MemoryError::OutOfBounds(16);
    assert_eq!(err.describe(), "Memory Error: Address requested is out of bounds: 10");
    let err = InstructionError::OutOfBounds(16);
    assert_eq!(err.describe(), "Instruction Error: Out of bounds operation: 10");
}

// The accepted path: the message carries the count, the header and the
// secret token.
#[test]
fn accepted_machine_gets_the_flag() {
    let game = Game::start(9).poll_start();
    let mut buf: Vec<u8> = vec![0; MACHINE_SIZE];
    buf[1] = 0x05; // AC = 5, as profile B demands
    let game = game.poll_read(&buf, 0, Profile::B);
    let game = game.poll_execute(Profile::B);
    let game = game.poll_validate(Profile::B);
    match &game {
        Game::Correct { id, message } => {
            assert_eq!(*id, 9);
            assert_eq!(message.as_str(), "Executed 1 instructions");
        },
        other => panic!("expected Correct, got {:?}", other),
    };
    let (game, out) = game.poll_correct("TOKEN");
    assert!(matches!(game, Game::Finished(9)));
    assert_eq!(
        out,
        "Executed 1 instructions\nYou provided the correct machine!\nFlag: TOKEN"
    );
}

// Bytes past the tenth are ignored when the machine is built.
#[test]
fn extra_bytes_are_ignored() {
    let game = Game::start(2).poll_start();
    let mut buf: Vec<u8> = vec![0; MACHINE_SIZE + 5];
    buf[1] = 0x07;
    buf[10] = 0xFF;
    let game = game.poll_read(&buf, 0, Profile::Open);
    match game {
        Game::Execute { machine, .. } => {
            assert_eq!(machine.get_reg().get_ac(), 0x7);
        },
        other => panic!("expected Execute, got {:?}", other),
    };
}

// Each failure description renders its number in the expected base.
#[test]
fn error_descriptions() {
    assert_eq!(
        InstructionError::ValueTooLarge(200).describe(),
        "Instruction Error: Value too large for register: 200"
    );
    assert_eq!(
        InstructionError::MathError(7).describe(),
        "Instruction Error: Math error from: 7"
    );
    assert_eq!(
        InstructionError::JumpNotTaken.describe(),
        "Instruction Error: Jump not taken"
    );
    assert_eq!(
        MemoryError::ValueTooLarge(240).describe(),
        "Memory Error: Value provided is above 4 bits: F0"
    );
    assert_eq!(
        MemoryError::MathError(12).describe(),
        "Memory Error: Invalid math operation: C"
    );
}

// Number rendering, including the zero and multi-digit cases.
#[test]
fn number_rendering() {
    assert_eq!(decimal_string(0), "0");
    assert_eq!(decimal_string(100), "100");
    assert_eq!(decimal_string(65535), "65535");
    assert_eq!(hex_string_lower(255), "ff");
    assert_eq!(hex_string_upper(255), "FF");
    assert_eq!(hex_string_lower(0), "0");
    assert_eq!(hex_string_upper(4096), "1000");
}
