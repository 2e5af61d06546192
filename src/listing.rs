use vstd::prelude::*;
use vstd::string::*;
use crate::opcode::{is_mnemonic, lemma_descriptor_names, descriptor};
use crate::processor::{decode, lemma_decoded_descriptors, Decoded, Processor};

verus! {

/// The lowercase hexadecimal digit of `d`, for `d < 16`.
pub open spec fn hex_digit(d: nat) -> char {
    if d == 0 { '0' } else if d == 1 { '1' } else if d == 2 { '2' } else if d == 3 { '3' }
    else if d == 4 { '4' } else if d == 5 { '5' } else if d == 6 { '6' } else if d == 7 { '7' }
    else if d == 8 { '8' } else if d == 9 { '9' } else if d == 10 { 'a' } else if d == 11 { 'b' }
    else if d == 12 { 'c' } else if d == 13 { 'd' } else if d == 14 { 'e' } else { 'f' }
}

/// Two lowercase hexadecimal digits per byte, high nibble first.
pub open spec fn hex_bytes(b: Seq<u8>) -> Seq<char>
    decreases b.len(),
{
    if b.len() == 0 {
        Seq::empty()
    } else {
        seq![hex_digit(b[0] as nat / 16), hex_digit(b[0] as nat % 16)] + hex_bytes(b.drop_first())
    }
}

/// The lowercase hexadecimal numeral of `n`, without leading zeros.
pub open spec fn hex_nat(n: nat) -> Seq<char>
    decreases n,
{
    if n < 16 {
        seq![hex_digit(n)]
    } else {
        hex_nat(n / 16).push(hex_digit(n % 16))
    }
}

/// The operand part of a listing line: ` 0x<operand>` for a push, else empty.
pub open spec fn operand_text(op: Option<Seq<u8>>) -> Seq<char> {
    match op {
        Some(o) => " 0x"@ + hex_bytes(o),
        None => Seq::empty(),
    }
}

/// A listing line without its newline: `PC[<pc>]: <NAME>` and the operand part.
pub open spec fn line_body(d: Decoded) -> Seq<char> {
    "PC["@ + hex_nat(d.0) + "]: "@ + d.1.name + operand_text(d.1.push_bytes)
}

/// The listing line of one instruction, ended by a newline.
pub open spec fn line_text(d: Decoded) -> Seq<char> {
    line_body(d) + "\n"@
}

/// The listing of a disassembly: its lines, in order.
pub open spec fn listing_text(l: Seq<Decoded>) -> Seq<char> {
    l.map_values(|d: Decoded| line_text(d)).flatten()
}

/// Relies on hex::encode: two lowercase digits per byte, high nibble first.
#[verifier::external_body]
fn encode_hex(b: &Vec<u8>) -> (r: String)
    ensures
        r@ == hex_bytes(b@),
{
    hex::encode(b)
}

fn hex_digit_str(d: u16) -> (r: &'static str)
    requires
        d < 16,
    ensures
        r@ == seq![hex_digit(d as nat)],
{
    proof {
        reveal_strlit("0"); reveal_strlit("1"); reveal_strlit("2"); reveal_strlit("3");
        reveal_strlit("4"); reveal_strlit("5"); reveal_strlit("6"); reveal_strlit("7");
        reveal_strlit("8"); reveal_strlit("9"); reveal_strlit("a"); reveal_strlit("b");
        reveal_strlit("c"); reveal_strlit("d"); reveal_strlit("e"); reveal_strlit("f");
    }
    match d {
        0 => "0", 1 => "1", 2 => "2", 3 => "3", 4 => "4", 5 => "5", 6 => "6", 7 => "7",
        8 => "8", 9 => "9", 10 => "a", 11 => "b", 12 => "c", 13 => "d", 14 => "e", _ => "f",
    }
}

fn append_hex(s: &mut String, v: u16)
    ensures
        final(s)@ == old(s)@ + hex_nat(v as nat),
    decreases v,
{
    if v >= 16 {
        append_hex(s, v / 16);
    }
    s.append(hex_digit_str(v % 16));
    assert(old(s)@ + hex_nat(v as nat) =~= final(s)@) by {
        if v >= 16 {
            assert(hex_nat(v as nat) == hex_nat((v / 16) as nat).push(hex_digit((v % 16) as nat)));
        }
    }
}

impl Processor {
    /// The textual listing, one line per instruction.
    pub fn render(&self) -> (r: String)
        requires
            self.opcodes@.len() == self.program_counter@.len(),
        ensures
            r@ == listing_text(self.listing()),
    {
        let mut s = String::new();
        let mut k: usize = 0;
        while k < self.opcodes.len()
            invariant
                self.opcodes@.len() == self.program_counter@.len(),
                k <= self.opcodes@.len(),
                s@ == listing_text(self.listing().subrange(0, k as int)),
            decreases self.opcodes@.len() - k,
        {
            let ghost before = s@;
            let opcode = &self.opcodes[k];
            s.append("PC[");
            append_hex(&mut s, self.program_counter[k]);
            s.append("]: ");
            s.append(opcode.get_name());
            let ghost mid = s@;
            match opcode.get_push_bytes() {
                Some(v) => {
                    s.append(" 0x");
                    let h = encode_hex(v);
                    s.append(h.as_str());
                },
                None => {},
            }
            s.append("\n");
            proof {
                assert(s@ =~= before + line_body(self.listing()[k as int]) + "\n"@) by {
                    assert(mid =~= before + "PC["@ + hex_nat(self.program_counter@[k as int] as nat) + "]: "@
                        + self.opcodes@[k as int]@.name);
                }
                let l = self.listing();
                let f = |d: Decoded| line_text(d);
                let prev = l.subrange(0, k as int);
                assert(l.subrange(0, k as int + 1).map_values(f) =~= prev.map_values(f).push(line_text(l[k as int])));
                prev.map_values(f).lemma_flatten_push(line_text(l[k as int]));
                assert(s@ =~= before + line_text(l[k as int]));
            }
            k += 1;
        }
        assert(self.listing().subrange(0, k as int) =~= self.listing());
        s
    }
}

// Reading a listing back.

/// What a listing line tells of an instruction: program counter, mnemonic
/// and operand.
pub type Record = (nat, Seq<char>, Option<Seq<u8>>);

pub open spec fn record(d: Decoded) -> Record {
    (d.0, d.1.name, d.1.push_bytes)
}

pub open spec fn records(l: Seq<Decoded>) -> Seq<Record> {
    l.map_values(|d: Decoded| record(d))
}

/// The position of the first `c` in `s`, or the length of `s` if there is none.
pub open spec fn first_index(s: Seq<char>, c: char) -> nat
    decreases s.len(),
{
    if s.len() == 0 {
        0
    } else if s[0] == c {
        0
    } else {
        1 + first_index(s.drop_first(), c)
    }
}

/// The value of a lowercase hexadecimal digit.
pub open spec fn digit_value(c: char) -> Option<nat> {
    if c == '0' { Some(0) } else if c == '1' { Some(1) } else if c == '2' { Some(2) }
    else if c == '3' { Some(3) } else if c == '4' { Some(4) } else if c == '5' { Some(5) }
    else if c == '6' { Some(6) } else if c == '7' { Some(7) } else if c == '8' { Some(8) }
    else if c == '9' { Some(9) } else if c == 'a' { Some(10) } else if c == 'b' { Some(11) }
    else if c == 'c' { Some(12) } else if c == 'd' { Some(13) } else if c == 'e' { Some(14) }
    else if c == 'f' { Some(15) } else { None }
}

/// The value of a nonempty hexadecimal numeral.
pub open spec fn parse_hex_nat(s: Seq<char>) -> Option<nat>
    decreases s.len(),
{
    if s.len() <= 1 {
        if s.len() == 0 { None } else { digit_value(s[0]) }
    } else {
        match (parse_hex_nat(s.drop_last()), digit_value(s.last())) {
            (Some(h), Some(d)) => Some(h * 16 + d),
            _ => None,
        }
    }
}

/// The bytes that pairs of hexadecimal digits stand for.
pub open spec fn parse_hex_bytes(s: Seq<char>) -> Option<Seq<u8>>
    decreases s.len(),
{
    if s.len() == 0 {
        Some(Seq::empty())
    } else if s.len() == 1 {
        None
    } else {
        match (digit_value(s[0]), digit_value(s[1]), parse_hex_bytes(s.subrange(2, s.len() as int))) {
            (Some(h), Some(l), Some(rest)) => Some(seq![(h * 16 + l) as u8] + rest),
            _ => None,
        }
    }
}

/// Reads one listing line (without its newline) back into a record.
pub open spec fn parse_line(l: Seq<char>) -> Option<Record> {
    if l.len() < 3 || l[0] != 'P' || l[1] != 'C' || l[2] != '[' {
        None
    } else {
        let r = l.subrange(3, l.len() as int);
        let k = first_index(r, ']') as int;
        if k + 2 >= r.len() || r[k + 1] != ':' || r[k + 2] != ' ' {
            None
        } else {
            let body = r.subrange(k + 3, r.len() as int);
            let j = first_index(body, ' ') as int;
            match parse_hex_nat(r.subrange(0, k)) {
                None => None,
                Some(pc) => if j >= body.len() {
                    Some((pc, body, None))
                } else {
                    let tail = body.subrange(j + 1, body.len() as int);
                    if tail.len() < 2 || tail[0] != '0' || tail[1] != 'x' {
                        None
                    } else {
                        match parse_hex_bytes(tail.subrange(2, tail.len() as int)) {
                            Some(o) => Some((pc, body.subrange(0, j), Some(o))),
                            None => None,
                        }
                    }
                },
            }
        }
    }
}

/// Reads a listing, line by line, back into records.
pub open spec fn parse_listing(t: Seq<char>) -> Option<Seq<Record>>
    decreases t.len(),
{
    if t.len() == 0 {
        Some(Seq::empty())
    } else {
        let k = first_index(t, '\n') as int;
        if k >= t.len() {
            None
        } else {
            match (parse_line(t.subrange(0, k)), parse_listing(t.subrange(k + 1, t.len() as int))) {
                (Some(r), Some(rs)) => Some(seq![r] + rs),
                _ => None,
            }
        }
    }
}

proof fn lemma_first_index(a: Seq<char>, rest: Seq<char>, c: char)
    requires
        forall|i: int| 0 <= i < a.len() ==> a[i] != c,
        rest.len() == 0 || rest[0] == c,
    ensures
        first_index(a + rest, c) == a.len(),
    decreases a.len(),
{
    if a.len() == 0 {
        assert(a + rest =~= rest);
    } else {
        assert((a + rest).drop_first() =~= a.drop_first() + rest);
        lemma_first_index(a.drop_first(), rest, c);
    }
}

proof fn lemma_hex_digit(d: nat)
    requires
        d < 16,
    ensures
        digit_value(hex_digit(d)) == Some(d),
        ('0' <= hex_digit(d) <= '9') || ('a' <= hex_digit(d) <= 'f'),
{
}

/// Characters of hexadecimal text: digits and the letters a to f.
pub open spec fn is_hex_text(s: Seq<char>) -> bool {
    forall|i: int| 0 <= i < s.len() ==> ('0' <= #[trigger] s[i] <= '9' || 'a' <= s[i] <= 'f')
}

proof fn lemma_hex_nat(n: nat)
    ensures
        parse_hex_nat(hex_nat(n)) == Some(n),
        is_hex_text(hex_nat(n)),
    decreases n,
{
    if n < 16 {
        lemma_hex_digit(n);
    } else {
        lemma_hex_nat(n / 16);
        lemma_hex_digit(n % 16);
        let h = hex_nat(n);
        assert(h.drop_last() =~= hex_nat(n / 16));
        assert(h.len() >= 2);
        assert((n / 16) * 16 + n % 16 == n);
    }
}

proof fn lemma_hex_bytes(b: Seq<u8>)
    ensures
        parse_hex_bytes(hex_bytes(b)) == Some(b),
        is_hex_text(hex_bytes(b)),
    decreases b.len(),
{
    if b.len() > 0 {
        lemma_hex_bytes(b.drop_first());
        let x = b[0] as nat;
        lemma_hex_digit(x / 16);
        lemma_hex_digit(x % 16);
        let h = hex_bytes(b);
        assert(h.subrange(2, h.len() as int) =~= hex_bytes(b.drop_first()));
        assert((x / 16) * 16 + x % 16 == x);
        assert(seq![b[0]] + b.drop_first() =~= b);
        assert forall|i: int| 0 <= i < h.len() implies ('0' <= #[trigger] h[i] <= '9' || 'a' <= h[i] <= 'f') by {
            if i >= 2 {
                assert(h[i] == hex_bytes(b.drop_first())[i - 2]);
            }
        }
    }
}

proof fn lemma_line(d: Decoded)
    requires
        is_mnemonic(d.1.name),
    ensures
        parse_line(line_body(d)) == Some(record(d)),
        forall|i: int| 0 <= i < line_body(d).len() ==> line_body(d)[i] != '\n',
{
    reveal_strlit("PC[");
    reveal_strlit("]: ");
    reveal_strlit(" 0x");
    lemma_hex_nat(d.0);
    let h = hex_nat(d.0);
    let name = d.1.name;
    let op = operand_text(d.1.push_bytes);
    let l = line_body(d);
    let r = l.subrange(3, l.len() as int);
    assert(r =~= h + ("]: "@ + name + op));
    lemma_first_index(h, "]: "@ + name + op, ']');
    let k = h.len() as int;
    assert(r.subrange(0, k) =~= h);
    let body = r.subrange(k + 3, r.len() as int);
    assert(body =~= name + op);
    lemma_first_index(name, op, ' ');
    match d.1.push_bytes {
        Some(o) => {
            lemma_hex_bytes(o);
            let tail = body.subrange(name.len() + 1int, body.len() as int);
            assert(tail.subrange(2, tail.len() as int) =~= hex_bytes(o));
            assert(body.subrange(0, name.len() as int) =~= name);
        },
        None => {
            assert(body =~= name);
        },
    }
    assert forall|i: int| 0 <= i < l.len() implies l[i] != '\n' by {
        if 3 <= i < 3 + k {
            assert(l[i] == h[i - 3]);
        } else if 3 + k + 3 <= i < 3 + k + 3 + name.len() {
            assert(l[i] == name[i - 6 - k]);
        } else if i >= 3 + k + 3 + name.len() + 3 {
            assert(l[i] == hex_bytes(d.1.push_bytes->Some_0)[i - 9 - k - name.len()]);
        }
    }
}

/// Reading a rendered listing back, line by line, gives the program
/// counter, mnemonic and operand of each instruction, in order.
#[verifier::spinoff_prover]
#[verifier::rlimit(40)]
pub proof fn lemma_listing_round_trip(l: Seq<Decoded>)
    requires
        forall|k: int| 0 <= k < l.len() ==> is_mnemonic(#[trigger] l[k].1.name),
    ensures
        parse_listing(listing_text(l)) == Some(records(l)),
    decreases l.len(),
{
    reveal_strlit("\n");
    if l.len() > 0 {
        let f = |d: Decoded| line_text(d);
        let rest = l.drop_first();
        assert(l.map_values(f).drop_first() =~= rest.map_values(f));
        assert forall|k: int| 0 <= k < rest.len() implies is_mnemonic(#[trigger] rest[k].1.name) by {
            assert(rest[k] == l[k + 1]);
        }
        lemma_listing_round_trip(rest);
        lemma_line(l[0]);
        let b = line_body(l[0]);
        let t = listing_text(l);
        assert(t =~= b + ("\n"@ + listing_text(rest)));
        lemma_first_index(b, "\n"@ + listing_text(rest), '\n');
        assert(t.subrange(0, b.len() as int) =~= b);
        assert(t.subrange(b.len() + 1int, t.len() as int) =~= listing_text(rest));
        assert(records(l) =~= seq![record(l[0])] + records(rest));
    } else {
        assert(records(l) =~= Seq::empty());
    }
}

/// Reading back the rendered listing of any successful disassembly gives
/// the program counter, mnemonic and operand of each instruction, in order.
pub proof fn lemma_render_round_trip(bytes: Seq<u8>)
    requires
        decode(bytes) is Ok,
    ensures
        parse_listing(listing_text(decode(bytes)->Ok_0)) == Some(records(decode(bytes)->Ok_0)),
{
    let l = decode(bytes)->Ok_0;
    lemma_decoded_descriptors(bytes);
    assert forall|k: int| 0 <= k < l.len() implies is_mnemonic(#[trigger] l[k].1.name) by {
        lemma_descriptor_names(bytes[l[k].0 as int]);
        assert(l[k].1.name == descriptor(bytes[l[k].0 as int]).name);
    }
    lemma_listing_round_trip(l);
}

} // verus!
