//! Linear disassembly: one cursor walks a code slice from its first byte to
//! its last, asks the instruction decoder for the instruction at the cursor,
//! keeps the valid ones and steps over the invalid ones.

use crate::text::{hex16, push_hex16};
use iced_x86::{Decoder, DecoderOptions, Formatter, IntelFormatter};
use vstd::prelude::*;
use vstd::slice::slice_subrange;

verus! {

/// The width of the instruction set that a slice is decoded as.
#[derive(Clone, Copy, Debug, PartialEq, Eq, Structural)]
pub enum Bitness {
    Bits16,
    Bits32,
    Bits64,
}

impl Bitness {
    /// The width in bits.
    pub open spec fn width(self) -> u32 {
        match self {
            Bitness::Bits16 => 16,
            Bitness::Bits32 => 32,
            Bitness::Bits64 => 64,
        }
    }

    /// The width in bits.
    pub fn bits(self) -> (w: u32)
        ensures
            w == self.width(),
    {
        match self {
            Bitness::Bits16 => 16,
            Bitness::Bits32 => 32,
            Bitness::Bits64 => 64,
        }
    }
}

/// What one decoding attempt yields, as mathematical values.
pub struct StepView {
    /// How many bytes the attempt consumed, as the decoder reports it.
    pub length: nat,
    /// Whether the bytes at the cursor are no valid encoding.
    pub invalid: bool,
    /// The instruction in Intel syntax.
    pub text: Seq<char>,
}

/// What one decoding attempt yields.
pub struct Step {
    pub length: usize,
    pub invalid: bool,
    pub text: String,
}

impl View for Step {
    type V = StepView;

    open spec fn view(&self) -> StepView {
        StepView { length: self.length as nat, invalid: self.invalid, text: self.text@ }
    }
}

/// One disassembled instruction, as mathematical values.
pub struct InstructionView {
    pub address: u64,
    pub text: Seq<char>,
}

/// One disassembled instruction: its absolute virtual address and its text.
#[derive(Debug)]
pub struct DecodedInstruction {
    pub address: u64,
    pub text: String,
}

impl View for DecodedInstruction {
    type V = InstructionView;

    open spec fn view(&self) -> InstructionView {
        InstructionView { address: self.address, text: self.text@ }
    }
}

/// The display line of an instruction: the address as sixteen hexadecimal
/// digits, two spaces, the text.
pub open spec fn instruction_line(instruction: InstructionView) -> Seq<char> {
    hex16(instruction.address) + "  "@ + instruction.text
}

impl DecodedInstruction {
    /// The display line of this instruction.
    pub fn display_line(&self) -> (line: String)
        ensures
            line@ == instruction_line(self@),
    {
        let mut line = String::new();
        push_hex16(&mut line, self.address);
        line.append("  ");
        line.append(self.text.as_str());
        line
    }
}

/// The views of a sequence of instructions, in order.
pub open spec fn instruction_views(list: Seq<DecodedInstruction>) -> Seq<InstructionView> {
    Seq::new(list.len(), |i: int| list[i]@)
}

/// The outcome of decoding, with the default decoder options, the instruction
/// that starts at the first byte of `code` when that byte lies at address
/// `ip`, and of formatting it in Intel syntax with the default options.
pub uninterp spec fn decoded(bitness: u32, code: Seq<u8>, ip: u64) -> StepView;

/// `Decoder::with_ip` and `Decoder::decode` of iced-x86, then
/// `Formatter::format` of a new `IntelFormatter` on the instruction: decodes
/// the one instruction at the start of `code`, taken to lie at address `ip`,
/// and gives its length, whether it is invalid, and its text. The contract
/// claims that these depend on `bitness`, `code` and `ip` alone; it promises
/// nothing about their values. `Decoder::with_ip` panics on a width other
/// than 16, 32 and 64.
#[verifier::external_body]
fn decode_one(bitness: u32, code: &[u8], ip: u64) -> (step: Step)
    requires
        bitness == 16 || bitness == 32 || bitness == 64,
    ensures
        step@ == decoded(bitness, code@, ip),
{
    let instruction = Decoder::with_ip(bitness, code, ip, DecoderOptions::NONE).decode();
    let mut text = String::new();
    IntelFormatter::new().format(&instruction, &mut text);
    Step { length: instruction.len(), invalid: instruction.is_invalid(), text }
}

/// The address of the byte at `offset` in a slice whose first byte lies at
/// `start`, in 64-bit address arithmetic.
pub open spec fn address_at(start: u64, offset: nat) -> u64 {
    ((start as int + offset as int) % 0x1_0000_0000_0000_0000) as u64
}

/// How far the cursor moves after an attempt that reports `reported` bytes
/// with `remaining` bytes left: as reported, but at least one byte while any
/// is left, and never past the end.
pub open spec fn advance(reported: nat, remaining: nat) -> nat {
    if reported > remaining {
        remaining
    } else if reported == 0 && remaining > 0 {
        1
    } else {
        reported
    }
}

/// The list after an attempt at `address`: a valid instruction is appended,
/// an invalid one leaves the list as it is.
pub open spec fn kept(list: Seq<InstructionView>, address: u64, step: StepView) -> Seq<
    InstructionView,
> {
    if step.invalid {
        list
    } else {
        list.push(InstructionView { address, text: step.text })
    }
}

/// The instructions produced from `cursor` on.
pub open spec fn decode_from(bitness: u32, bytes: Seq<u8>, start: u64, cursor: nat) -> Seq<
    InstructionView,
>
    decreases bytes.len() - cursor,
{
    if cursor >= bytes.len() {
        Seq::empty()
    } else {
        let ip = address_at(start, cursor);
        let step = decoded(bitness, bytes.skip(cursor as int), ip);
        let next = cursor + advance(step.length, (bytes.len() - cursor) as nat);
        kept(Seq::empty(), ip, step) + decode_from(bitness, bytes, start, next)
    }
}

/// The disassembly of `bytes` when its first byte lies at `start`.
pub open spec fn disassembly(bitness: u32, bytes: Seq<u8>, start: u64) -> Seq<InstructionView> {
    decode_from(bitness, bytes, start, 0)
}

/// Takes one decoding attempt at `address` into account, with `remaining`
/// bytes left from the cursor on: appends the instruction if it is valid,
/// and gives the number of bytes by which the cursor moves. Whatever length
/// the attempt reports, the cursor moves on while bytes are left and never
/// past the last of them.
pub fn take_step(
    list: &mut Vec<DecodedInstruction>,
    address: u64,
    step: Step,
    remaining: usize,
) -> (moved: usize)
    ensures
        moved == advance(step@.length, remaining as nat),
        instruction_views(final(list)@) == kept(instruction_views(old(list)@), address, step@),
{
    let moved: usize = if step.length > remaining {
        remaining
    } else if step.length == 0 && remaining > 0 {
        1
    } else {
        step.length
    };
    if !step.invalid {
        list.push(DecodedInstruction { address, text: step.text });
    }
    assert(instruction_views(list@) =~= kept(instruction_views(old(list)@), address, step@));
    moved
}

/// Disassembles `bytes`, whose first byte lies at virtual address `start`.
///
/// An empty slice gives an empty sequence. Invalid encodings are skipped and
/// never reported as errors. There are never more instructions than bytes.
pub fn decode(bytes: &[u8], start: u64, bitness: Bitness) -> (list: Vec<DecodedInstruction>)
    ensures
        instruction_views(list@) == disassembly(bitness.width(), bytes@, start),
        list@.len() <= bytes@.len(),
{
    let width: u32 = bitness.bits();
    let len: usize = bytes.len();
    let mut list: Vec<DecodedInstruction> = Vec::new();
    let mut cursor: usize = 0;
    assert(instruction_views(list@) =~= Seq::empty());
    while cursor < len
        invariant
            len == bytes@.len(),
            cursor <= len,
            width == bitness.width(),
            disassembly(width, bytes@, start) == instruction_views(list@) + decode_from(
                width,
                bytes@,
                start,
                cursor as nat,
            ),
        decreases len - cursor,
    {
        let address: u64 = start.wrapping_add(cursor as u64);
        let code: &[u8] = slice_subrange(bytes, cursor, len);
        assert(code@ =~= bytes@.skip(cursor as int));
        let step: Step = decode_one(width, code, address);
        let ghost before = instruction_views(list@);
        let ghost seen = step@;
        let moved: usize = take_step(&mut list, address, step, len - cursor);
        assert(kept(before, address, seen) + decode_from(
            width,
            bytes@,
            start,
            (cursor + moved) as nat,
        ) =~= before + decode_from(width, bytes@, start, cursor as nat));
        cursor = cursor + moved;
    }
    assert(instruction_views(list@) + Seq::<InstructionView>::empty() =~= instruction_views(
        list@,
    ));
    proof {
        lemma_attempts_bound(width, bytes@, start, 0);
        assert(instruction_views(list@).len() == list@.len());
    }
    list
}

/// How many decoding attempts the walk makes from `cursor` on.
pub open spec fn attempts_from(bitness: u32, bytes: Seq<u8>, start: u64, cursor: nat) -> nat
    decreases bytes.len() - cursor,
{
    if cursor >= bytes.len() {
        0
    } else {
        let step = decoded(bitness, bytes.skip(cursor as int), address_at(start, cursor));
        let next = cursor + advance(step.length, (bytes.len() - cursor) as nat);
        1 + attempts_from(bitness, bytes, start, next)
    }
}

/// Whether no cursor position of the slice holds a valid encoding.
pub open spec fn all_invalid(bitness: u32, bytes: Seq<u8>, start: u64) -> bool {
    forall|cursor: nat|
        cursor < bytes.len() ==> (#[trigger] decoded(
            bitness,
            bytes.skip(cursor as int),
            address_at(start, cursor),
        )).invalid
}

proof fn lemma_from_bounds(bitness: u32, bytes: Seq<u8>, start: u64, cursor: nat)
    requires
        start + bytes.len() <= 0x1_0000_0000_0000_0000,
        cursor <= bytes.len(),
    ensures
        forall|i: int|
            0 <= i < decode_from(bitness, bytes, start, cursor).len() ==> start + cursor <= (
            #[trigger] decode_from(bitness, bytes, start, cursor)[i]).address < start
                + bytes.len(),
        forall|i: int, j: int|
            0 <= i < j < decode_from(bitness, bytes, start, cursor).len() ==> (
            #[trigger] decode_from(bitness, bytes, start, cursor)[i]).address < (
            #[trigger] decode_from(bitness, bytes, start, cursor)[j]).address,
    decreases bytes.len() - cursor,
{
    if cursor < bytes.len() {
        let ip = address_at(start, cursor);
        let step = decoded(bitness, bytes.skip(cursor as int), ip);
        let next = cursor + advance(step.length, (bytes.len() - cursor) as nat);
        let rest = decode_from(bitness, bytes, start, next);
        lemma_from_bounds(bitness, bytes, start, next);
        assert(ip == start + cursor);
        if !step.invalid {
            let list = decode_from(bitness, bytes, start, cursor);
            assert(list == seq![InstructionView { address: ip, text: step.text }] + rest);
            assert forall|i: int| 0 <= i < list.len() implies start + cursor <= (
            #[trigger] list[i]).address < start + bytes.len() by {
                if i > 0 {
                    assert(list[i] == rest[i - 1]);
                }
            }
            assert forall|i: int, j: int| 0 <= i < j < list.len() implies (#[trigger] list[i]).address
                < (#[trigger] list[j]).address by {
                assert(list[j] == rest[j - 1]);
                if i > 0 {
                    assert(list[i] == rest[i - 1]);
                }
            }
        }
    }
}

proof fn lemma_attempts_bound(bitness: u32, bytes: Seq<u8>, start: u64, cursor: nat)
    requires
        cursor <= bytes.len(),
    ensures
        decode_from(bitness, bytes, start, cursor).len() <= attempts_from(
            bitness,
            bytes,
            start,
            cursor,
        ) <= bytes.len() - cursor,
    decreases bytes.len() - cursor,
{
    if cursor < bytes.len() {
        let step = decoded(bitness, bytes.skip(cursor as int), address_at(start, cursor));
        let next = cursor + advance(step.length, (bytes.len() - cursor) as nat);
        lemma_attempts_bound(bitness, bytes, start, next);
    }
}

proof fn lemma_all_invalid_from(bitness: u32, bytes: Seq<u8>, start: u64, cursor: nat)
    requires
        all_invalid(bitness, bytes, start),
    ensures
        decode_from(bitness, bytes, start, cursor) == Seq::<InstructionView>::empty(),
    decreases bytes.len() - cursor,
{
    if cursor < bytes.len() {
        let step = decoded(bitness, bytes.skip(cursor as int), address_at(start, cursor));
        let next = cursor + advance(step.length, (bytes.len() - cursor) as nat);
        assert(step.invalid);
        lemma_all_invalid_from(bitness, bytes, start, next);
    }
}

/// Decoding is deterministic: two results of decoding the same slice at the
/// same start address with the same width hold the same addresses and the same
/// text, instruction by instruction.
pub proof fn law_decoding_is_deterministic(
    first: Seq<DecodedInstruction>,
    second: Seq<DecodedInstruction>,
    bitness: Bitness,
    bytes: Seq<u8>,
    start: u64,
)
    requires
        instruction_views(first) == disassembly(bitness.width(), bytes, start),
        instruction_views(second) == disassembly(bitness.width(), bytes, start),
    ensures
        first.len() == second.len(),
        forall|i: int|
            0 <= i < first.len() ==> (#[trigger] first[i]).address == second[i].address
                && first[i].text@ == second[i].text@,
{
    assert(instruction_views(first).len() == first.len());
    assert(instruction_views(second).len() == second.len());
    assert forall|i: int| 0 <= i < first.len() implies (#[trigger] first[i]).address
        == second[i].address && first[i].text@ == second[i].text@ by {
        assert(instruction_views(first)[i] == first[i]@);
        assert(instruction_views(second)[i] == second[i]@);
    }
}

/// Addresses rise along the disassembly, and each lies within the slice:
/// where the slice does not run past the end of the 64-bit address space,
/// every address is at least `start` and below `start` plus the slice's
/// length, and an earlier instruction has the lower address.
pub proof fn law_addresses_rise_within_slice(bitness: Bitness, bytes: Seq<u8>, start: u64)
    requires
        start + bytes.len() <= 0x1_0000_0000_0000_0000,
    ensures
        forall|i: int|
            0 <= i < disassembly(bitness.width(), bytes, start).len() ==> start <= (
            #[trigger] disassembly(bitness.width(), bytes, start)[i]).address < start
                + bytes.len(),
        forall|i: int, j: int|
            0 <= i < j < disassembly(bitness.width(), bytes, start).len() ==> (
            #[trigger] disassembly(bitness.width(), bytes, start)[i]).address < (
            #[trigger] disassembly(bitness.width(), bytes, start)[j]).address,
{
    lemma_from_bounds(bitness.width(), bytes, start, 0);
}

/// Forward progress: the walk over a slice of length `L` makes at most `L`
/// decoding attempts, and produces at most one instruction per attempt.
pub proof fn law_attempts_bounded_by_length(bitness: Bitness, bytes: Seq<u8>, start: u64)
    ensures
        attempts_from(bitness.width(), bytes, start, 0) <= bytes.len(),
        disassembly(bitness.width(), bytes, start).len() <= attempts_from(
            bitness.width(),
            bytes,
            start,
            0,
        ),
{
    lemma_attempts_bound(bitness.width(), bytes, start, 0);
}

/// A slice in which no cursor position holds a valid encoding disassembles to
/// nothing.
pub proof fn law_invalid_bytes_give_nothing(bitness: Bitness, bytes: Seq<u8>, start: u64)
    requires
        all_invalid(bitness.width(), bytes, start),
    ensures
        disassembly(bitness.width(), bytes, start) == Seq::<InstructionView>::empty(),
{
    lemma_all_invalid_from(bitness.width(), bytes, start, 0);
}

} // verus!
