use vstd::prelude::*;

verus! {

/// The mathematical value of an instruction descriptor, possibly carrying
/// the literal operand of a push instruction.
pub struct OpcodeView {
    pub opcode: u8,
    pub gas: u32,
    pub name: Seq<char>,
    pub push_bytes: Option<Seq<u8>>,
}

/// A descriptor without operand.
pub open spec fn entry(opcode: u8, gas: u32, name: Seq<char>) -> OpcodeView {
    OpcodeView { opcode, gas, name, push_bytes: None }
}

/// Push-class instructions are the byte values 0x60 to 0x7f.
pub open spec fn is_push(b: u8) -> bool {
    0x60 <= b <= 0x7f
}

/// The number of operand bytes that follow the instruction byte `b`.
pub open spec fn push_width(b: u8) -> nat {
    if is_push(b) {
        (b - 0x5f) as nat
    } else {
        0
    }
}

/// The opcode table: the descriptor that each byte value resolves to.
/// Byte values without an entry of their own resolve to INVALID.
pub open spec fn descriptor(b: u8) -> OpcodeView {
    match b {
        0x00 => entry(0x00, 0, "STOP"@),
        0x01 => entry(0x01, 3, "ADD"@),
        0x02 => entry(0x02, 5, "MUL"@),
        0x03 => entry(0x03, 3, "SUB"@),
        0x04 => entry(0x04, 5, "DIV"@),
        0x05 => entry(0x05, 5, "SDIV"@),
        0x06 => entry(0x06, 5, "MOD"@),
        0x07 => entry(0x07, 5, "SMOD"@),
        0x08 => entry(0x08, 8, "ADDMOD"@),
        0x09 => entry(0x09, 8, "MULMOD"@),
        0x0a => entry(0x0a, 10, "EXP"@),
        0x0b => entry(0x0b, 5, "SIGNEXTEND"@),
        0x10 => entry(0x10, 3, "LT"@),
        0x11 => entry(0x11, 3, "GT"@),
        0x12 => entry(0x12, 3, "SLT"@),
        0x13 => entry(0x13, 3, "SGT"@),
        0x14 => entry(0x14, 3, "EQ"@),
        0x15 => entry(0x15, 3, "ISZERO"@),
        0x16 => entry(0x16, 3, "AND"@),
        0x17 => entry(0x17, 3, "OR"@),
        0x18 => entry(0x18, 3, "XOR"@),
        0x19 => entry(0x19, 3, "NOT"@),
        0x1a => entry(0x1a, 3, "BYTE"@),
        0x1b => entry(0x1b, 3, "SHL"@),
        0x1c => entry(0x1c, 3, "SHR"@),
        0x1d => entry(0x1d, 3, "SAR"@),
        0x20 => entry(0x20, 30, "SHA3"@),
        0x30 => entry(0x30, 2, "ADDRESS"@),
        0x31 => entry(0x31, 20, "BALANCE"@),
        0x32 => entry(0x32, 2, "ORIGIN"@),
        0x33 => entry(0x33, 2, "CALLER"@),
        0x34 => entry(0x34, 2, "CALLVALUE"@),
        0x35 => entry(0x35, 3, "CALLDATALOAD"@),
        0x36 => entry(0x36, 2, "CALLDATASIZE"@),
        0x37 => entry(0x37, 3, "CALLDATACOPY"@),
        0x38 => entry(0x38, 2, "CODESIZE"@),
        0x39 => entry(0x39, 3, "CODECOPY"@),
        0x3a => entry(0x3a, 2, "GASPRICE"@),
        0x3b => entry(0x3b, 20, "EXTCODESIZE"@),
        0x3c => entry(0x3c, 20, "EXTCODECOPY"@),
        0x3d => entry(0x3d, 2, "RETURNDATASIZE"@),
        0x3e => entry(0x3e, 3, "RETURNDATACOPY"@),
        0x3f => entry(0x3f, 100, "EXTCODEHASH"@),
        0x40 => entry(0x40, 20, "BLOCKHASH"@),
        0x41 => entry(0x41, 2, "COINBASE"@),
        0x42 => entry(0x42, 2, "TIMESTAMP"@),
        0x43 => entry(0x43, 2, "NUMBER"@),
        0x44 => entry(0x44, 2, "DIFFICULTY"@),
        0x45 => entry(0x45, 2, "GASLIMIT"@),
        0x46 => entry(0x46, 2, "CHAINID"@),
        0x47 => entry(0x47, 5, "SELFBALANCE"@),
        0x48 => entry(0x48, 2, "BASEFEE"@),
        0x50 => entry(0x50, 2, "POP"@),
        0x51 => entry(0x51, 3, "MLOAD"@),
        0x52 => entry(0x52, 3, "MSTORE"@),
        0x53 => entry(0x53, 3, "MSTORE8"@),
        0x54 => entry(0x54, 50, "SLOAD"@),
        0x55 => entry(0x55, 0, "SSTORE"@),
        0x56 => entry(0x56, 8, "JUMP"@),
        0x57 => entry(0x57, 10, "JUMPI"@),
        0x58 => entry(0x58, 2, "PC"@),
        0x59 => entry(0x59, 2, "MSIZE"@),
        0x5a => entry(0x5a, 2, "GAS"@),
        0x5b => entry(0x5b, 1, "JUMPDEST"@),
        0x60 => entry(0x60, 3, "PUSH1"@),
        0x61 => entry(0x61, 3, "PUSH2"@),
        0x62 => entry(0x62, 3, "PUSH3"@),
        0x63 => entry(0x63, 3, "PUSH4"@),
        0x64 => entry(0x64, 3, "PUSH5"@),
        0x65 => entry(0x65, 3, "PUSH6"@),
        0x66 => entry(0x66, 3, "PUSH7"@),
        0x67 => entry(0x67, 3, "PUSH8"@),
        0x68 => entry(0x68, 3, "PUSH9"@),
        0x69 => entry(0x69, 3, "PUSH10"@),
        0x6a => entry(0x6a, 3, "PUSH11"@),
        0x6b => entry(0x6b, 3, "PUSH12"@),
        0x6c => entry(0x6c, 3, "PUSH13"@),
        0x6d => entry(0x6d, 3, "PUSH14"@),
        0x6e => entry(0x6e, 3, "PUSH15"@),
        0x6f => entry(0x6f, 3, "PUSH16"@),
        0x70 => entry(0x70, 3, "PUSH17"@),
        0x71 => entry(0x71, 3, "PUSH18"@),
        0x72 => entry(0x72, 3, "PUSH19"@),
        0x73 => entry(0x73, 3, "PUSH20"@),
        0x74 => entry(0x74, 3, "PUSH21"@),
        0x75 => entry(0x75, 3, "PUSH22"@),
        0x76 => entry(0x76, 3, "PUSH23"@),
        0x77 => entry(0x77, 3, "PUSH24"@),
        0x78 => entry(0x78, 3, "PUSH25"@),
        0x79 => entry(0x79, 3, "PUSH26"@),
        0x7a => entry(0x7a, 3, "PUSH27"@),
        0x7b => entry(0x7b, 3, "PUSH28"@),
        0x7c => entry(0x7c, 3, "PUSH29"@),
        0x7d => entry(0x7d, 3, "PUSH30"@),
        0x7e => entry(0x7e, 3, "PUSH31"@),
        0x7f => entry(0x7f, 3, "PUSH32"@),
        0x80 => entry(0x80, 3, "DUP1"@),
        0x81 => entry(0x81, 3, "DUP2"@),
        0x82 => entry(0x82, 3, "DUP3"@),
        0x83 => entry(0x83, 3, "DUP4"@),
        0x84 => entry(0x84, 3, "DUP5"@),
        0x85 => entry(0x85, 3, "DUP6"@),
        0x86 => entry(0x86, 3, "DUP7"@),
        0x87 => entry(0x87, 3, "DUP8"@),
        0x88 => entry(0x88, 3, "DUP9"@),
        0x89 => entry(0x89, 3, "DUP10"@),
        0x8a => entry(0x8a, 3, "DUP11"@),
        0x8b => entry(0x8b, 3, "DUP12"@),
        0x8c => entry(0x8c, 3, "DUP13"@),
        0x8d => entry(0x8d, 3, "DUP14"@),
        0x8e => entry(0x8e, 3, "DUP15"@),
        0x8f => entry(0x8f, 3, "DUP16"@),
        0x90 => entry(0x90, 3, "SWAP1"@),
        0x91 => entry(0x91, 3, "SWAP2"@),
        0x92 => entry(0x92, 3, "SWAP3"@),
        0x93 => entry(0x93, 3, "SWAP4"@),
        0x94 => entry(0x94, 3, "SWAP5"@),
        0x95 => entry(0x95, 3, "SWAP6"@),
        0x96 => entry(0x96, 3, "SWAP7"@),
        0x97 => entry(0x97, 3, "SWAP8"@),
        0x98 => entry(0x98, 3, "SWAP9"@),
        0x99 => entry(0x99, 3, "SWAP10"@),
        0x9a => entry(0x9a, 3, "SWAP11"@),
        0x9b => entry(0x9b, 3, "SWAP12"@),
        0x9c => entry(0x9c, 3, "SWAP13"@),
        0x9d => entry(0x9d, 3, "SWAP14"@),
        0x9e => entry(0x9e, 3, "SWAP15"@),
        0x9f => entry(0x9f, 3, "SWAP16"@),
        0xa0 => entry(0xa0, 375, "LOG0"@),
        0xa1 => entry(0xa1, 750, "LOG1"@),
        0xa2 => entry(0xa2, 1125, "LOG2"@),
        0xa3 => entry(0xa3, 1500, "LOG3"@),
        0xa4 => entry(0xa4, 1875, "LOG4"@),
        0xb0 => entry(0xf0, 32000, "CREATE"@),
        0xb1 => entry(0xf1, 40, "CALL"@),
        0xb2 => entry(0xf2, 40, "CALLCODE"@),
        0xb3 => entry(0xf3, 0, "RETURN"@),
        0xf0 => entry(0xf5, 32000, "CREATE2"@),
        0xf1 => entry(0xf1, 40, "CALL"@),
        0xf2 => entry(0xf2, 40, "CALLCODE"@),
        0xf3 => entry(0xf3, 0, "RETURN"@),
        0xf4 => entry(0xf4, 40, "DELEGATECALL"@),
        0xf5 => entry(0xf5, 32000, "CREATE2"@),
        0xfa => entry(0xfa, 40, "STATICCALL"@),
        0xfd => entry(0xfd, 0, "REVERT"@),
        0xfe => entry(0xfe, 0, "INVALID"@),
        0xff => entry(0xff, 5000, "SELFDESTRUCT"@),
        _ => entry(0xfe, 0, "INVALID"@),
    }
}

/// The byte values that the opcode table leaves without an entry of their own.
pub open spec fn is_unassigned(b: u8) -> bool {
    ||| 0x0c <= b <= 0x0f
    ||| 0x1e <= b <= 0x1f
    ||| 0x21 <= b <= 0x2f
    ||| 0x49 <= b <= 0x4f
    ||| 0x5c <= b <= 0x5f
    ||| 0xa5 <= b <= 0xaf
    ||| 0xb4 <= b <= 0xef
    ||| 0xf6 <= b <= 0xf9
    ||| b == 0xfb
    ||| b == 0xfc
}

/// Every unassigned byte value resolves to INVALID, whose gas cost is 0.
pub proof fn lemma_unassigned_invalid(b: u8)
    requires
        is_unassigned(b),
    ensures
        descriptor(b) == entry(0xfe, 0, "INVALID"@),
        descriptor(b).gas == 0,
{
}

/// A mnemonic is written in capital letters and digits.
pub open spec fn is_mnemonic(s: Seq<char>) -> bool {
    forall|i: int| 0 <= i < s.len() ==> ('A' <= #[trigger] s[i] <= 'Z' || '0' <= s[i] <= '9')
}

/// Every name in the opcode table is a mnemonic.
#[verifier::rlimit(50)]
pub proof fn lemma_descriptor_names(b: u8)
    ensures
        is_mnemonic(descriptor(b).name),
{
    reveal_strlit("ADD");
    reveal_strlit("ADDMOD");
    reveal_strlit("ADDRESS");
    reveal_strlit("AND");
    reveal_strlit("BALANCE");
    reveal_strlit("BASEFEE");
    reveal_strlit("BLOCKHASH");
    reveal_strlit("BYTE");
    reveal_strlit("CALL");
    reveal_strlit("CALLCODE");
    reveal_strlit("CALLDATACOPY");
    reveal_strlit("CALLDATALOAD");
    reveal_strlit("CALLDATASIZE");
    reveal_strlit("CALLER");
    reveal_strlit("CALLVALUE");
    reveal_strlit("CHAINID");
    reveal_strlit("CODECOPY");
    reveal_strlit("CODESIZE");
    reveal_strlit("COINBASE");
    reveal_strlit("CREATE");
    reveal_strlit("CREATE2");
    reveal_strlit("DELEGATECALL");
    reveal_strlit("DIFFICULTY");
    reveal_strlit("DIV");
    reveal_strlit("DUP1");
    reveal_strlit("DUP10");
    reveal_strlit("DUP11");
    reveal_strlit("DUP12");
    reveal_strlit("DUP13");
    reveal_strlit("DUP14");
    reveal_strlit("DUP15");
    reveal_strlit("DUP16");
    reveal_strlit("DUP2");
    reveal_strlit("DUP3");
    reveal_strlit("DUP4");
    reveal_strlit("DUP5");
    reveal_strlit("DUP6");
    reveal_strlit("DUP7");
    reveal_strlit("DUP8");
    reveal_strlit("DUP9");
    reveal_strlit("EQ");
    reveal_strlit("EXP");
    reveal_strlit("EXTCODECOPY");
    reveal_strlit("EXTCODEHASH");
    reveal_strlit("EXTCODESIZE");
    reveal_strlit("GAS");
    reveal_strlit("GASLIMIT");
    reveal_strlit("GASPRICE");
    reveal_strlit("GT");
    reveal_strlit("INVALID");
    reveal_strlit("ISZERO");
    reveal_strlit("JUMP");
    reveal_strlit("JUMPDEST");
    reveal_strlit("JUMPI");
    reveal_strlit("LOG0");
    reveal_strlit("LOG1");
    reveal_strlit("LOG2");
    reveal_strlit("LOG3");
    reveal_strlit("LOG4");
    reveal_strlit("LT");
    reveal_strlit("MLOAD");
    reveal_strlit("MOD");
    reveal_strlit("MSIZE");
    reveal_strlit("MSTORE");
    reveal_strlit("MSTORE8");
    reveal_strlit("MUL");
    reveal_strlit("MULMOD");
    reveal_strlit("NOT");
    reveal_strlit("NUMBER");
    reveal_strlit("OR");
    reveal_strlit("ORIGIN");
    reveal_strlit("PC");
    reveal_strlit("POP");
    reveal_strlit("PUSH1");
    reveal_strlit("PUSH10");
    reveal_strlit("PUSH11");
    reveal_strlit("PUSH12");
    reveal_strlit("PUSH13");
    reveal_strlit("PUSH14");
    reveal_strlit("PUSH15");
    reveal_strlit("PUSH16");
    reveal_strlit("PUSH17");
    reveal_strlit("PUSH18");
    reveal_strlit("PUSH19");
    reveal_strlit("PUSH2");
    reveal_strlit("PUSH20");
    reveal_strlit("PUSH21");
    reveal_strlit("PUSH22");
    reveal_strlit("PUSH23");
    reveal_strlit("PUSH24");
    reveal_strlit("PUSH25");
    reveal_strlit("PUSH26");
    reveal_strlit("PUSH27");
    reveal_strlit("PUSH28");
    reveal_strlit("PUSH29");
    reveal_strlit("PUSH3");
    reveal_strlit("PUSH30");
    reveal_strlit("PUSH31");
    reveal_strlit("PUSH32");
    reveal_strlit("PUSH4");
    reveal_strlit("PUSH5");
    reveal_strlit("PUSH6");
    reveal_strlit("PUSH7");
    reveal_strlit("PUSH8");
    reveal_strlit("PUSH9");
    reveal_strlit("RETURN");
    reveal_strlit("RETURNDATACOPY");
    reveal_strlit("RETURNDATASIZE");
    reveal_strlit("REVERT");
    reveal_strlit("SAR");
    reveal_strlit("SDIV");
    reveal_strlit("SELFBALANCE");
    reveal_strlit("SELFDESTRUCT");
    reveal_strlit("SGT");
    reveal_strlit("SHA3");
    reveal_strlit("SHL");
    reveal_strlit("SHR");
    reveal_strlit("SIGNEXTEND");
    reveal_strlit("SLOAD");
    reveal_strlit("SLT");
    reveal_strlit("SMOD");
    reveal_strlit("SSTORE");
    reveal_strlit("STATICCALL");
    reveal_strlit("STOP");
    reveal_strlit("SUB");
    reveal_strlit("SWAP1");
    reveal_strlit("SWAP10");
    reveal_strlit("SWAP11");
    reveal_strlit("SWAP12");
    reveal_strlit("SWAP13");
    reveal_strlit("SWAP14");
    reveal_strlit("SWAP15");
    reveal_strlit("SWAP16");
    reveal_strlit("SWAP2");
    reveal_strlit("SWAP3");
    reveal_strlit("SWAP4");
    reveal_strlit("SWAP5");
    reveal_strlit("SWAP6");
    reveal_strlit("SWAP7");
    reveal_strlit("SWAP8");
    reveal_strlit("SWAP9");
    reveal_strlit("TIMESTAMP");
    reveal_strlit("XOR");
}

/// An instruction descriptor: byte value, base gas cost and mnemonic, and,
/// for a decoded push instruction, the bytes it pushes.
pub struct Opcode {
    opcode: u8,
    gas: u32,
    push_bytes: Option<Vec<u8>>,
    name: &'static str,
}

impl View for Opcode {
    type V = OpcodeView;

    closed spec fn view(&self) -> OpcodeView {
        OpcodeView {
            opcode: self.opcode,
            gas: self.gas,
            name: self.name@,
            push_bytes: match self.push_bytes {
                Some(v) => Some(v@),
                None => None,
            },
        }
    }
}

impl Opcode {
    pub fn new(opcode: u8, gas: u32, name: &'static str) -> (r: Opcode)
        ensures
            r@ == entry(opcode, gas, name@),
    {
        Opcode { opcode, gas, name, push_bytes: None }
    }

    pub fn get_opcode(&self) -> (r: u8)
        ensures
            r == self@.opcode,
    {
        self.opcode
    }

    pub fn get_gas(&self) -> (r: u32)
        ensures
            r == self@.gas,
    {
        self.gas
    }

    pub fn get_name(&self) -> (r: &'static str)
        ensures
            r@ == self@.name,
    {
        self.name
    }

    /// The literal operand of a decoded push instruction, if any.
    pub fn get_push_bytes(&self) -> (r: Option<&Vec<u8>>)
        ensures
            match r {
                Some(v) => self@.push_bytes == Some(v@),
                None => self@.push_bytes is None,
            },
    {
        match &self.push_bytes {
            Some(v) => Some(v),
            None => None,
        }
    }

    /// The same descriptor with `bytes` attached as its operand; only a
    /// push-class descriptor takes an operand.
    pub fn push_bytes(&self, bytes: Vec<u8>) -> (r: Self)
        requires
            is_push(self@.opcode),
        ensures
            r@ == (OpcodeView { push_bytes: Some(bytes@), ..self@ }),
    {
        Opcode { opcode: self.opcode, gas: self.gas, name: self.name, push_bytes: Some(bytes) }
    }

    /// Resolves a byte value through the opcode table; the lookup is total.
    pub fn from_opcode(opcode: u8) -> (r: Opcode)
        ensures
            r@ == descriptor(opcode),
    {
        match opcode {
            0x00 => Opcode::new(0x00, 0, "STOP"),
            0x01 => Opcode::new(0x01, 3, "ADD"),
            0x02 => Opcode::new(0x02, 5, "MUL"),
            0x03 => Opcode::new(0x03, 3, "SUB"),
            0x04 => Opcode::new(0x04, 5, "DIV"),
            0x05 => Opcode::new(0x05, 5, "SDIV"),
            0x06 => Opcode::new(0x06, 5, "MOD"),
            0x07 => Opcode::new(0x07, 5, "SMOD"),
            0x08 => Opcode::new(0x08, 8, "ADDMOD"),
            0x09 => Opcode::new(0x09, 8, "MULMOD"),
            0x0a => Opcode::new(0x0a, 10, "EXP"),
            0x0b => Opcode::new(0x0b, 5, "SIGNEXTEND"),
            0x10 => Opcode::new(0x10, 3, "LT"),
            0x11 => Opcode::new(0x11, 3, "GT"),
            0x12 => Opcode::new(0x12, 3, "SLT"),
            0x13 => Opcode::new(0x13, 3, "SGT"),
            0x14 => Opcode::new(0x14, 3, "EQ"),
            0x15 => Opcode::new(0x15, 3, "ISZERO"),
            0x16 => Opcode::new(0x16, 3, "AND"),
            0x17 => Opcode::new(0x17, 3, "OR"),
            0x18 => Opcode::new(0x18, 3, "XOR"),
            0x19 => Opcode::new(0x19, 3, "NOT"),
            0x1a => Opcode::new(0x1a, 3, "BYTE"),
            0x1b => Opcode::new(0x1b, 3, "SHL"),
            0x1c => Opcode::new(0x1c, 3, "SHR"),
            0x1d => Opcode::new(0x1d, 3, "SAR"),
            0x20 => Opcode::new(0x20, 30, "SHA3"),
            0x30 => Opcode::new(0x30, 2, "ADDRESS"),
            0x31 => Opcode::new(0x31, 20, "BALANCE"),
            0x32 => Opcode::new(0x32, 2, "ORIGIN"),
            0x33 => Opcode::new(0x33, 2, "CALLER"),
            0x34 => Opcode::new(0x34, 2, "CALLVALUE"),
            0x35 => Opcode::new(0x35, 3, "CALLDATALOAD"),
            0x36 => Opcode::new(0x36, 2, "CALLDATASIZE"),
            0x37 => Opcode::new(0x37, 3, "CALLDATACOPY"),
            0x38 => Opcode::new(0x38, 2, "CODESIZE"),
            0x39 => Opcode::new(0x39, 3, "CODECOPY"),
            0x3a => Opcode::new(0x3a, 2, "GASPRICE"),
            0x3b => Opcode::new(0x3b, 20, "EXTCODESIZE"),
            0x3c => Opcode::new(0x3c, 20, "EXTCODECOPY"),
            0x3d => Opcode::new(0x3d, 2, "RETURNDATASIZE"),
            0x3e => Opcode::new(0x3e, 3, "RETURNDATACOPY"),
            0x3f => Opcode::new(0x3f, 100, "EXTCODEHASH"),
            0x40 => Opcode::new(0x40, 20, "BLOCKHASH"),
            0x41 => Opcode::new(0x41, 2, "COINBASE"),
            0x42 => Opcode::new(0x42, 2, "TIMESTAMP"),
            0x43 => Opcode::new(0x43, 2, "NUMBER"),
            0x44 => Opcode::new(0x44, 2, "DIFFICULTY"),
            0x45 => Opcode::new(0x45, 2, "GASLIMIT"),
            0x46 => Opcode::new(0x46, 2, "CHAINID"),
            0x47 => Opcode::new(0x47, 5, "SELFBALANCE"),
            0x48 => Opcode::new(0x48, 2, "BASEFEE"),
            0x50 => Opcode::new(0x50, 2, "POP"),
            0x51 => Opcode::new(0x51, 3, "MLOAD"),
            0x52 => Opcode::new(0x52, 3, "MSTORE"),
            0x53 => Opcode::new(0x53, 3, "MSTORE8"),
            0x54 => Opcode::new(0x54, 50, "SLOAD"),
            0x55 => Opcode::new(0x55, 0, "SSTORE"),
            0x56 => Opcode::new(0x56, 8, "JUMP"),
            0x57 => Opcode::new(0x57, 10, "JUMPI"),
            0x58 => Opcode::new(0x58, 2, "PC"),
            0x59 => Opcode::new(0x59, 2, "MSIZE"),
            0x5a => Opcode::new(0x5a, 2, "GAS"),
            0x5b => Opcode::new(0x5b, 1, "JUMPDEST"),
            0x60 => Opcode::new(0x60, 3, "PUSH1"),
            0x61 => Opcode::new(0x61, 3, "PUSH2"),
            0x62 => Opcode::new(0x62, 3, "PUSH3"),
            0x63 => Opcode::new(0x63, 3, "PUSH4"),
            0x64 => Opcode::new(0x64, 3, "PUSH5"),
            0x65 => Opcode::new(0x65, 3, "PUSH6"),
            0x66 => Opcode::new(0x66, 3, "PUSH7"),
            0x67 => Opcode::new(0x67, 3, "PUSH8"),
            0x68 => Opcode::new(0x68, 3, "PUSH9"),
            0x69 => Opcode::new(0x69, 3, "PUSH10"),
            0x6a => Opcode::new(0x6a, 3, "PUSH11"),
            0x6b => Opcode::new(0x6b, 3, "PUSH12"),
            0x6c => Opcode::new(0x6c, 3, "PUSH13"),
            0x6d => Opcode::new(0x6d, 3, "PUSH14"),
            0x6e => Opcode::new(0x6e, 3, "PUSH15"),
            0x6f => Opcode::new(0x6f, 3, "PUSH16"),
            0x70 => Opcode::new(0x70, 3, "PUSH17"),
            0x71 => Opcode::new(0x71, 3, "PUSH18"),
            0x72 => Opcode::new(0x72, 3, "PUSH19"),
            0x73 => Opcode::new(0x73, 3, "PUSH20"),
            0x74 => Opcode::new(0x74, 3, "PUSH21"),
            0x75 => Opcode::new(0x75, 3, "PUSH22"),
            0x76 => Opcode::new(0x76, 3, "PUSH23"),
            0x77 => Opcode::new(0x77, 3, "PUSH24"),
            0x78 => Opcode::new(0x78, 3, "PUSH25"),
            0x79 => Opcode::new(0x79, 3, "PUSH26"),
            0x7a => Opcode::new(0x7a, 3, "PUSH27"),
            0x7b => Opcode::new(0x7b, 3, "PUSH28"),
            0x7c => Opcode::new(0x7c, 3, "PUSH29"),
            0x7d => Opcode::new(0x7d, 3, "PUSH30"),
            0x7e => Opcode::new(0x7e, 3, "PUSH31"),
            0x7f => Opcode::new(0x7f, 3, "PUSH32"),
            0x80 => Opcode::new(0x80, 3, "DUP1"),
            0x81 => Opcode::new(0x81, 3, "DUP2"),
            0x82 => Opcode::new(0x82, 3, "DUP3"),
            0x83 => Opcode::new(0x83, 3, "DUP4"),
            0x84 => Opcode::new(0x84, 3, "DUP5"),
            0x85 => Opcode::new(0x85, 3, "DUP6"),
            0x86 => Opcode::new(0x86, 3, "DUP7"),
            0x87 => Opcode::new(0x87, 3, "DUP8"),
            0x88 => Opcode::new(0x88, 3, "DUP9"),
            0x89 => Opcode::new(0x89, 3, "DUP10"),
            0x8a => Opcode::new(0x8a, 3, "DUP11"),
            0x8b => Opcode::new(0x8b, 3, "DUP12"),
            0x8c => Opcode::new(0x8c, 3, "DUP13"),
            0x8d => Opcode::new(0x8d, 3, "DUP14"),
            0x8e => Opcode::new(0x8e, 3, "DUP15"),
            0x8f => Opcode::new(0x8f, 3, "DUP16"),
            0x90 => Opcode::new(0x90, 3, "SWAP1"),
            0x91 => Opcode::new(0x91, 3, "SWAP2"),
            0x92 => Opcode::new(0x92, 3, "SWAP3"),
            0x93 => Opcode::new(0x93, 3, "SWAP4"),
            0x94 => Opcode::new(0x94, 3, "SWAP5"),
            0x95 => Opcode::new(0x95, 3, "SWAP6"),
            0x96 => Opcode::new(0x96, 3, "SWAP7"),
            0x97 => Opcode::new(0x97, 3, "SWAP8"),
            0x98 => Opcode::new(0x98, 3, "SWAP9"),
            0x99 => Opcode::new(0x99, 3, "SWAP10"),
            0x9a => Opcode::new(0x9a, 3, "SWAP11"),
            0x9b => Opcode::new(0x9b, 3, "SWAP12"),
            0x9c => Opcode::new(0x9c, 3, "SWAP13"),
            0x9d => Opcode::new(0x9d, 3, "SWAP14"),
            0x9e => Opcode::new(0x9e, 3, "SWAP15"),
            0x9f => Opcode::new(0x9f, 3, "SWAP16"),
            0xa0 => Opcode::new(0xa0, 375, "LOG0"),
            0xa1 => Opcode::new(0xa1, 750, "LOG1"),
            0xa2 => Opcode::new(0xa2, 1125, "LOG2"),
            0xa3 => Opcode::new(0xa3, 1500, "LOG3"),
            0xa4 => Opcode::new(0xa4, 1875, "LOG4"),
            0xb0 => Opcode::new(0xf0, 32000, "CREATE"),
            0xb1 => Opcode::new(0xf1, 40, "CALL"),
            0xb2 => Opcode::new(0xf2, 40, "CALLCODE"),
            0xb3 => Opcode::new(0xf3, 0, "RETURN"),
            0xf0 => Opcode::new(0xf5, 32000, "CREATE2"),
            0xf1 => Opcode::new(0xf1, 40, "CALL"),
            0xf2 => Opcode::new(0xf2, 40, "CALLCODE"),
            0xf3 => Opcode::new(0xf3, 0, "RETURN"),
            0xf4 => Opcode::new(0xf4, 40, "DELEGATECALL"),
            0xf5 => Opcode::new(0xf5, 32000, "CREATE2"),
            0xfa => Opcode::new(0xfa, 40, "STATICCALL"),
            0xfd => Opcode::new(0xfd, 0, "REVERT"),
            0xfe => Opcode::new(0xfe, 0, "INVALID"),
            0xff => Opcode::new(0xff, 5000, "SELFDESTRUCT"),
            _ => Opcode::new(0xfe, 0, "INVALID"),
        }
    }
}

} // verus!
