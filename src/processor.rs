use vstd::prelude::*;
use crate::opcode::{descriptor, is_push, push_width, Opcode, OpcodeView};

verus! {

/// Why a byte sequence cannot be decoded.
#[derive(Debug, Clone, Copy, PartialEq, Eq, Structural)]
pub enum DecodeError {
    /// The push instruction at byte `offset` declares more operand bytes than
    /// remain in the input; `missing` of them are absent.
    MalformedPush { offset: usize, missing: usize },
}

/// One decoded instruction: its program counter and its descriptor, which
/// carries the operand of a push instruction.
pub type Decoded = (nat, OpcodeView);

/// The instruction that starts at byte `i`, its operand being the next
/// `push_width` bytes.
pub open spec fn decoded_at(bytes: Seq<u8>, i: nat) -> Decoded {
    let b = bytes[i as int];
    let op = if is_push(b) {
        OpcodeView {
            push_bytes: Some(bytes.subrange(i + 1 as int, i + 1 + push_width(b) as int)),
            ..descriptor(b)
        }
    } else {
        descriptor(b)
    };
    (i, op)
}

/// Puts `done` in front of a decoding outcome; an error stays as it is.
pub open spec fn prepend(
    done: Seq<Decoded>,
    r: Result<Seq<Decoded>, DecodeError>,
) -> Result<Seq<Decoded>, DecodeError> {
    match r {
        Ok(rest) => Ok(done + rest),
        Err(e) => Err(e),
    }
}

/// The linear scan of `bytes` from byte `i` on: each instruction is followed
/// by its operand bytes, and a push whose operand runs past the end fails.
pub open spec fn decode_from(bytes: Seq<u8>, i: nat) -> Result<Seq<Decoded>, DecodeError>
    decreases bytes.len() - i,
{
    if i >= bytes.len() {
        Ok(Seq::empty())
    } else {
        let end = i + 1 + push_width(bytes[i as int]);
        if end > bytes.len() {
            Err(DecodeError::MalformedPush { offset: i as usize, missing: (end - bytes.len()) as usize })
        } else {
            prepend(seq![decoded_at(bytes, i)], decode_from(bytes, end))
        }
    }
}

/// The disassembly of a whole byte sequence.
pub open spec fn decode(bytes: Seq<u8>) -> Result<Seq<Decoded>, DecodeError> {
    decode_from(bytes, 0)
}

/// Big-endian value of four bytes.
pub open spec fn be_u32(s: Seq<u8>) -> u32 {
    (s[0] as int * 0x1000000 + s[1] as int * 0x10000 + s[2] as int * 0x100 + s[3] as int) as u32
}

/// The selector candidate that a PUSH4 descriptor carries.
pub open spec fn selector_of(op: OpcodeView) -> u32 {
    match op.push_bytes {
        Some(s) => be_u32(s),
        None => 0,
    }
}

/// The operands of the PUSH4 instructions of `l`, in order, read big-endian,
/// leaving out the all-ones value.
pub open spec fn selectors(l: Seq<Decoded>) -> Seq<u32>
    decreases l.len(),
{
    if l.len() == 0 {
        Seq::empty()
    } else {
        let rest = selectors(l.drop_last());
        let op = l.last().1;
        if op.opcode == 0x63 && selector_of(op) != 0xffffffff {
            rest.push(selector_of(op))
        } else {
            rest
        }
    }
}

/// Pairs each descriptor with its program counter.
pub open spec fn listing_of(opcodes: Seq<Opcode>, pcs: Seq<u16>) -> Seq<Decoded> {
    Seq::new(opcodes.len(), |k: int| (pcs[k] as nat, opcodes[k]@))
}

/// Each push descriptor carries exactly as many operand bytes as its opcode
/// declares.
pub open spec fn operands_fit(opcodes: Seq<Opcode>) -> bool {
    forall|k: int|
        0 <= k < opcodes.len() && is_push(#[trigger] opcodes[k]@.opcode) ==> {
            let pb = opcodes[k]@.push_bytes;
            pb is Some && pb->Some_0.len() == push_width(opcodes[k]@.opcode)
        }
}

/// The number of operand bytes a decoded instruction carries.
pub open spec fn operand_len(op: OpcodeView) -> nat {
    match op.push_bytes {
        Some(s) => s.len(),
        None => 0,
    }
}

proof fn lemma_no_push_from(bytes: Seq<u8>, i: nat)
    requires
        i <= bytes.len(),
        forall|k: int| i <= k < bytes.len() ==> !is_push(#[trigger] bytes[k]),
    ensures
        decode_from(bytes, i) is Ok,
        decode_from(bytes, i)->Ok_0.len() == bytes.len() - i,
        forall|k: int|
            0 <= k < bytes.len() - i ==> (#[trigger] decode_from(bytes, i)->Ok_0[k]) == (
            (i + k) as nat,
            descriptor(bytes[i + k]),
            ),
    decreases bytes.len() - i,
{
    if i < bytes.len() {
        lemma_no_push_from(bytes, i + 1);
        let rest = decode_from(bytes, i + 1)->Ok_0;
        assert(decode_from(bytes, i)->Ok_0 == seq![decoded_at(bytes, i)] + rest);
        assert forall|k: int| 0 <= k < bytes.len() - i implies (#[trigger] decode_from(
            bytes,
            i,
        )->Ok_0[k]) == ((i + k) as nat, descriptor(bytes[i + k])) by {
            if k > 0 {
                assert(rest[k - 1] == ((i + 1 + (k - 1)) as nat, descriptor(bytes[i + 1 + (k - 1)])));
            }
        }
    }
}

/// Without push instructions every byte is one instruction, and the program
/// counters run 0, 1, ..., n - 1.
pub proof fn lemma_no_push_counts(bytes: Seq<u8>)
    requires
        forall|k: int| 0 <= k < bytes.len() ==> !is_push(#[trigger] bytes[k]),
    ensures
        decode(bytes) is Ok,
        decode(bytes)->Ok_0.len() == bytes.len(),
        forall|k: int| 0 <= k < bytes.len() ==> (#[trigger] decode(bytes)->Ok_0[k]).0 == k,
{
    lemma_no_push_from(bytes, 0);
    assert forall|k: int| 0 <= k < bytes.len() implies (#[trigger] decode(bytes)->Ok_0[k]).0 == k by {
        assert(decode_from(bytes, 0)->Ok_0[k] == ((0 + k) as nat, descriptor(bytes[0 + k])));
    }
}

proof fn lemma_pc_steps_from(bytes: Seq<u8>, i: nat)
    requires
        i <= bytes.len(),
        decode_from(bytes, i) is Ok,
    ensures
        ({
            let l = decode_from(bytes, i)->Ok_0;
            &&& l.len() == 0 <==> i == bytes.len()
            &&& l.len() > 0 ==> l[0].0 == i
            &&& l.len() > 0 ==> l.last().0 + 1 + operand_len(l.last().1) == bytes.len()
            &&& forall|k: int|
                0 <= k < l.len() - 1 ==> (#[trigger] l[k + 1]).0 == l[k].0 + 1 + operand_len(l[k].1)
        }),
    decreases bytes.len() - i,
{
    if i < bytes.len() {
        let end = i + 1 + push_width(bytes[i as int]);
        lemma_pc_steps_from(bytes, end);
        let item = decoded_at(bytes, i);
        let rest = decode_from(bytes, end)->Ok_0;
        let l = decode_from(bytes, i)->Ok_0;
        assert(l == seq![item] + rest);
        assert(item.0 + 1 + operand_len(item.1) == end);
        assert forall|k: int| 0 <= k < l.len() - 1 implies (#[trigger] l[k + 1]).0 == l[k].0 + 1
            + operand_len(l[k].1) by {
            if k > 0 {
                assert(rest[(k - 1) + 1] == l[k + 1]);
            }
        }
    }
}

/// The program counters of a disassembly start at 0, grow by one plus the
/// operand length of the instruction before, and the last instruction with
/// its operand ends at the end of the input.
pub proof fn lemma_pc_steps(bytes: Seq<u8>)
    requires
        decode(bytes) is Ok,
    ensures
        ({
            let l = decode(bytes)->Ok_0;
            &&& l.len() == 0 <==> bytes.len() == 0
            &&& l.len() > 0 ==> l[0].0 == 0
            &&& l.len() > 0 ==> l.last().0 + 1 + operand_len(l.last().1) == bytes.len()
            &&& forall|k: int|
                0 <= k < l.len() - 1 ==> (#[trigger] l[k + 1]).0 == l[k].0 + 1 + operand_len(l[k].1)
        }),
{
    lemma_pc_steps_from(bytes, 0);
}

proof fn lemma_decoded_descriptors_from(bytes: Seq<u8>, i: nat)
    requires
        decode_from(bytes, i) is Ok,
    ensures
        forall|k: int|
            0 <= k < decode_from(bytes, i)->Ok_0.len() ==> {
                let d = #[trigger] decode_from(bytes, i)->Ok_0[k];
                &&& d.0 < bytes.len()
                &&& (OpcodeView { push_bytes: None, ..d.1 }) == descriptor(bytes[d.0 as int])
            },
    decreases bytes.len() - i,
{
    if i < bytes.len() {
        let end = i + 1 + push_width(bytes[i as int]);
        lemma_decoded_descriptors_from(bytes, end);
        let rest = decode_from(bytes, end)->Ok_0;
        let l = decode_from(bytes, i)->Ok_0;
        assert forall|k: int| 0 <= k < l.len() implies {
            let d = #[trigger] l[k];
            &&& d.0 < bytes.len()
            &&& (OpcodeView { push_bytes: None, ..d.1 }) == descriptor(bytes[d.0 as int])
        } by {
            if k > 0 {
                assert(l[k] == rest[k - 1]);
            }
        }
    }
}

/// Each decoded instruction is described by the table entry of the byte at
/// its program counter.
pub proof fn lemma_decoded_descriptors(bytes: Seq<u8>)
    requires
        decode(bytes) is Ok,
    ensures
        forall|k: int|
            0 <= k < decode(bytes)->Ok_0.len() ==> {
                let d = #[trigger] decode(bytes)->Ok_0[k];
                &&& d.0 < bytes.len()
                &&& (OpcodeView { push_bytes: None, ..d.1 }) == descriptor(bytes[d.0 as int])
            },
{
    lemma_decoded_descriptors_from(bytes, 0);
}

/// The disassembly of one contract.
pub struct Processor {
    pub opcodes: Vec<Opcode>,
    pub program_counter: Vec<u16>,
    pub bytecode: Vec<u8>,
}

impl Processor {
    /// The decoded instructions, each with its program counter.
    pub open spec fn listing(&self) -> Seq<Decoded> {
        listing_of(self.opcodes@, self.program_counter@)
    }

    /// One program counter per instruction, and each push instruction
    /// carries exactly as many operand bytes as its opcode declares.
    pub open spec fn well_formed(&self) -> bool {
        &&& self.opcodes@.len() == self.program_counter@.len()
        &&& operands_fit(self.opcodes@)
    }

    /// Decodes `bytecode` in one pass, left to right. Program counters are
    /// 16 bits wide, which bounds the input length.
    pub fn new(bytecode: &Vec<u8>) -> (r: Result<Processor, DecodeError>)
        requires
            bytecode@.len() <= 0x10000,
        ensures
            match r {
                Ok(p) => {
                    &&& decode(bytecode@) == Ok::<Seq<Decoded>, DecodeError>(p.listing())
                    &&& p.bytecode@ == bytecode@
                    &&& p.well_formed()
                },
                Err(e) => decode(bytecode@) == Err::<Seq<Decoded>, DecodeError>(e),
            },
    {
        let mut opcodes: Vec<Opcode> = Vec::new();
        let mut program_cntr: Vec<u16> = Vec::new();
        let len = bytecode.len();
        let mut i: usize = 0;
        while i < len
            invariant
                len == bytecode@.len(),
                len <= 0x10000,
                i <= len,
                opcodes@.len() == program_cntr@.len(),
                prepend(
                    listing_of(opcodes@, program_cntr@),
                    decode_from(bytecode@, i as nat),
                ) == decode(bytecode@),
                operands_fit(opcodes@),
            decreases len - i,
        {
            let ghost cur = listing_of(opcodes@, program_cntr@);
            let b = bytecode[i];
            let opcode = Opcode::from_opcode(b);
            let next: usize;
            if b >= 0x60 && b <= 0x7f {
                let n = (b - 0x5f) as usize;
                if n > len - 1 - i {
                    return Err(DecodeError::MalformedPush { offset: i, missing: n - (len - 1 - i) });
                }
                let mut push_bytes: Vec<u8> = Vec::new();
                let mut j: usize = i + 1;
                while j < i + 1 + n
                    invariant
                        len == bytecode@.len(),
                        i + 1 <= j <= i + 1 + n <= len,
                        push_bytes@ == bytecode@.subrange(i + 1, j as int),
                    decreases i + 1 + n - j,
                {
                    push_bytes.push(bytecode[j]);
                    j += 1;
                }
                opcodes.push(opcode.push_bytes(push_bytes));
                next = i + 1 + n;
            } else {
                opcodes.push(opcode);
                next = i + 1;
            }
            program_cntr.push(i as u16);
            proof {
                let item = decoded_at(bytecode@, i as nat);
                assert(listing_of(opcodes@, program_cntr@) =~= cur + seq![item]);
                let r = decode_from(bytecode@, next as nat);
                assert(decode_from(bytecode@, i as nat) == prepend(seq![item], r));
                if r is Ok {
                    assert(cur + (seq![item] + r->Ok_0) =~= (cur + seq![item]) + r->Ok_0);
                }
            }
            i = next;
        }
        proof {
            let l = listing_of(opcodes@, program_cntr@);
            assert(l + Seq::<Decoded>::empty() =~= l);
        }
        Ok(Processor { opcodes, program_counter: program_cntr, bytecode: bytecode.clone() })
    }

    /// The function-selector candidates: the PUSH4 operands read big-endian,
    /// in order of occurrence, without 0xffffffff.
    pub fn func_sigs(&self) -> (r: Vec<u32>)
        requires
            self.well_formed(),
        ensures
            r@ == selectors(self.listing()),
    {
        let mut sigs: Vec<u32> = Vec::new();
        let mut k: usize = 0;
        while k < self.opcodes.len()
            invariant
                self.well_formed(),
                k <= self.opcodes@.len(),
                sigs@ == selectors(self.listing().subrange(0, k as int)),
            decreases self.opcodes@.len() - k,
        {
            let ghost l = self.listing().subrange(0, k as int + 1);
            assert(l.drop_last() =~= self.listing().subrange(0, k as int));
            let opcode = &self.opcodes[k];
            if opcode.get_opcode() == 0x63 {
                assert(is_push(self.opcodes@[k as int]@.opcode));
                match opcode.get_push_bytes() {
                    Some(v) => {
                        let sig: u32 = (v[0] as u32) * 0x1000000 + (v[1] as u32) * 0x10000
                            + (v[2] as u32) * 0x100 + v[3] as u32;
                        if sig != 0xffffffff {
                            sigs.push(sig);
                        }
                    },
                    None => {},
                }
            }
            k += 1;
        }
        assert(self.listing().subrange(0, k as int) =~= self.listing());
        sigs
    }
}

} // verus!
