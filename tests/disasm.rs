use evm_disasm::opcode::Opcode;
use evm_disasm::processor::{DecodeError, Processor};

fn decode(bytes: &[u8]) -> Processor {
    Processor::new(&bytes.to_vec()).expect("decodes")
}

fn names(p: &Processor) -> Vec<String> {
    p.opcodes.iter().map(|o| o.get_name().to_string()).collect()
}

fn operand(o: &Opcode) -> Option<Vec<u8>> {
    o.get_push_bytes().cloned()
}

/// Reads a rendered listing back into (pc, name, operand) tuples.
fn parse_listing(text: &str) -> Vec<(u16, String, Option<Vec<u8>>)> {
    text.lines()
        .map(|line| {
            let rest = line.strip_prefix("PC[").expect("prefix");
            let (pc, rest) = rest.split_once("]: ").expect("bracket");
            let pc = u16::from_str_radix(pc, 16).expect("pc");
            match rest.split_once(" 0x") {
                Some((name, hex)) => {
                    let bytes = (0..hex.len())
                        .step_by(2)
                        .map(|i| u8::from_str_radix(&hex[i..i + 2], 16).expect("hex"))
                        .collect();
                    (pc, name.to_string(), Some(bytes))
                }
                None => (pc, rest.to_string(), None),
            }
        })
        .collect()
}

#[test]
fn no_push_count_and_pcs() {
    let bytes = [0x00, 0x01, 0x02, 0x50, 0x5b, 0x0c, 0xff];
    let p = decode(&bytes);
    assert_eq!(p.opcodes.len(), bytes.len());
    assert_eq!(p.program_counter, vec![0, 1, 2, 3, 4, 5, 6]);
}

#[test]
fn push1_single_instruction() {
    let p = decode(&[0x60, 0xAB]);
    assert_eq!(p.opcodes.len(), 1);
    assert_eq!(p.program_counter, vec![0]);
    assert_eq!(p.opcodes[0].get_name(), "PUSH1");
    assert_eq!(operand(&p.opcodes[0]), Some(vec![0xab]));
    assert_eq!(p.render(), "PC[0]: PUSH1 0xab\n");
}

#[test]
fn push4_selector() {
    let p = decode(&[0x63, 0x12, 0x34, 0x56, 0x78]);
    assert_eq!(p.func_sigs(), vec![0x12345678]);
}

#[test]
fn push4_sentinel_excluded() {
    let p = decode(&[0x63, 0xff, 0xff, 0xff, 0xff]);
    assert_eq!(p.func_sigs(), Vec::<u32>::new());
}

#[test]
fn stop_add_push1() {
    let p = decode(&[0x00, 0x01, 0x60, 0x05]);
    assert_eq!(p.program_counter, vec![0, 1, 2]);
    assert_eq!(names(&p), vec!["STOP", "ADD", "PUSH1"]);
    assert_eq!(operand(&p.opcodes[0]), None);
    assert_eq!(operand(&p.opcodes[1]), None);
    assert_eq!(operand(&p.opcodes[2]), Some(vec![0x05]));
}

#[test]
fn unassigned_bytes_are_invalid() {
    for b in [0x0c, 0x49, 0xa5, 0x0d, 0x21, 0x4f, 0x5c, 0xb4, 0xef, 0xfb] {
        let o = Opcode::from_opcode(b);
        assert_eq!(o.get_name(), "INVALID");
        assert_eq!(o.get_gas(), 0);
        assert_eq!(o.get_opcode(), 0xfe);
        assert_eq!(operand(&o), None);
    }
}

#[test]
fn malformed_push32() {
    match Processor::new(&vec![0x7f]) {
        Err(e) => assert_eq!(e, DecodeError::MalformedPush { offset: 0, missing: 32 }),
        Ok(_) => panic!("a truncated push must fail"),
    }
}

#[test]
fn malformed_push_after_instructions() {
    match Processor::new(&vec![0x00, 0x60, 0x01, 0x62, 0xaa]) {
        Err(e) => assert_eq!(e, DecodeError::MalformedPush { offset: 3, missing: 2 }),
        Ok(_) => panic!("a truncated push must fail"),
    }
}

#[test]
fn render_round_trip() {
    let bytes = [
        0x60, 0x80, 0x60, 0x40, 0x52, 0x34, 0x80, 0x15, 0x61, 0x00, 0x0f, 0x57, 0x63, 0xa9, 0x05,
        0x9c, 0xbb, 0x14, 0x7f, 0x01, 0x02, 0x03, 0x04, 0x05, 0x06, 0x07, 0x08, 0x09, 0x0a, 0x0b,
        0x0c, 0x0d, 0x0e, 0x0f, 0x10, 0x11, 0x12, 0x13, 0x14, 0x15, 0x16, 0x17, 0x18, 0x19, 0x1a,
        0x1b, 0x1c, 0x1d, 0x1e, 0x1f, 0x20, 0x00, 0xfe, 0x49,
    ];
    let p = decode(&bytes);
    let expected: Vec<(u16, String, Option<Vec<u8>>)> = p
        .opcodes
        .iter()
        .zip(p.program_counter.iter())
        .map(|(o, pc)| (*pc, o.get_name().to_string(), operand(o)))
        .collect();
    assert_eq!(parse_listing(&p.render()), expected);
}

#[test]
fn render_pcs_in_hex_after_push() {
    let mut bytes = vec![0x61, 0x01, 0x02];
    bytes.extend(std::iter::repeat(0x00).take(14));
    bytes.push(0x63);
    bytes.extend([0xde, 0xad, 0xbe, 0xef]);
    let p = decode(&bytes);
    let text = p.render();
    let lines: Vec<&str> = text.lines().collect();
    assert_eq!(lines[0], "PC[0]: PUSH2 0x0102");
    assert_eq!(lines[1], "PC[3]: STOP");
    assert_eq!(lines[14], "PC[10]: STOP");
    assert_eq!(lines[15], "PC[11]: PUSH4 0xdeadbeef");
    assert!(text.ends_with('\n'));
    assert_eq!(p.func_sigs(), vec![0xdeadbeef]);
}

#[test]
fn empty_input() {
    let p = decode(&[]);
    assert!(p.opcodes.is_empty());
    assert!(p.program_counter.is_empty());
    assert_eq!(p.render(), "");
    assert_eq!(p.func_sigs(), Vec::<u32>::new());
}

#[test]
fn selectors_keep_order_and_duplicates() {
    let p = decode(&[
        0x63, 0x00, 0x00, 0x00, 0x01, 0x63, 0xff, 0xff, 0xff, 0xff, 0x64, 0x01, 0x02, 0x03, 0x04,
        0x05, 0x63, 0x00, 0x00, 0x00, 0x01, 0x63, 0xff, 0xff, 0xff, 0xfe,
    ]);
    assert_eq!(p.func_sigs(), vec![1, 1, 0xfffffffe]);
}

#[test]
fn bytecode_is_kept() {
    let bytes = vec![0x60, 0x01, 0x00];
    let p = Processor::new(&bytes).expect("decodes");
    assert_eq!(p.bytecode, bytes);
}

#[test]
fn largest_input() {
    let bytes = vec![0x5b; 0x10000];
    let p = decode(&bytes);
    assert_eq!(p.opcodes.len(), 0x10000);
    assert_eq!(*p.program_counter.last().unwrap(), 0xffff);
}

#[test]
fn gas_table() {
    let cases: [(u8, u8, u32, &str); 18] = [
        (0x00, 0x00, 0, "STOP"),
        (0x01, 0x01, 3, "ADD"),
        (0x0a, 0x0a, 10, "EXP"),
        (0x20, 0x20, 30, "SHA3"),
        (0x54, 0x54, 50, "SLOAD"),
        (0x60, 0x60, 3, "PUSH1"),
        (0x7f, 0x7f, 3, "PUSH32"),
        (0x80, 0x80, 3, "DUP1"),
        (0x9f, 0x9f, 3, "SWAP16"),
        (0xa0, 0xa0, 375, "LOG0"),
        (0xa4, 0xa4, 1875, "LOG4"),
        (0xb0, 0xf0, 32000, "CREATE"),
        (0xb3, 0xf3, 0, "RETURN"),
        (0xf0, 0xf5, 32000, "CREATE2"),
        (0xf1, 0xf1, 40, "CALL"),
        (0xfa, 0xfa, 40, "STATICCALL"),
        (0xfe, 0xfe, 0, "INVALID"),
        (0xff, 0xff, 5000, "SELFDESTRUCT"),
    ];
    for (b, byte, gas, name) in cases {
        let o = Opcode::from_opcode(b);
        assert_eq!(o.get_opcode(), byte);
        assert_eq!(o.get_gas(), gas);
        assert_eq!(o.get_name(), name);
    }
    for n in 0..5u32 {
        assert_eq!(Opcode::from_opcode(0xa0 + n as u8).get_gas(), 375 * (n + 1));
    }
}

#[test]
fn attach_operand() {
    let o = Opcode::new(0x61, 3, "PUSH2");
    assert_eq!(operand(&o), None);
    let d = o.push_bytes(vec![0xca, 0xfe]);
    assert_eq!(operand(&d), Some(vec![0xca, 0xfe]));
    assert_eq!(d.get_name(), "PUSH2");
    assert_eq!(d.get_gas(), 3);
    assert_eq!(d.get_opcode(), 0x61);
}
