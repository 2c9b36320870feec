//! Declarative instruction encodings and their expansion into decode tables.
//!
//! An encoding is a fixed base bit pattern plus an ordered list of operand
//! bit-fields. Expanding it enumerates every legal combination of operand
//! values, packs each combination into an opcode and fills the matching fields
//! of a blank instruction. A full table is then written pair by pair in catalog
//! order, so a later encoding overrides an earlier one on a shared opcode.

use vstd::prelude::*;
use vstd::arithmetic::power2::pow2;
use vstd::string::StringExecFns;

use crate::instructions::{Field, InstrThumb16, NUM_TH16_INSTRUCTIONS};

verus! {

/// How an operand's raw bits are meant to be read. Expansion always runs
/// over the raw bits, `[0, 2^width - 1]`, whatever the representation.
#[derive(Clone, Copy, Debug, PartialEq, Eq, Structural)]
pub enum OperandRepr {
    SignedByte,
    SignedShort,
    SignedWord,
    UnsignedByte,
    UnsignedShort,
    UnsignedWord,
}

/// One bit-field of an encoding.
///
/// Without a `default` the field takes every value in `[0, 2^width - 1]` and is
/// packed at `shift`; with one it takes that value alone and is not packed.
#[derive(Debug)]
pub struct Operand {
    pub name: String,
    pub width: usize,
    pub shift: usize,
    pub repr: OperandRepr,
    pub default: Option<u8>,
    pub map: Option<Field>,
}

impl Operand {
    /// Starts an unsigned operand of width zero at shift zero.
    pub fn new() -> (r: OperandBuilder)
        ensures
            r.inner.name@ == Seq::<char>::empty(),
            r.inner.width == 0,
            r.inner.shift == 0,
            r.inner.repr == OperandRepr::UnsignedByte,
            r.inner.default.is_none(),
            r.inner.map.is_none(),
    {
        OperandBuilder {
            inner: Operand {
                name: String::new(),
                width: 0,
                shift: 0,
                repr: OperandRepr::UnsignedByte,
                default: None,
                map: None,
            },
        }
    }

    /// Fits an 8-bit field inside a halfword and names the field it fills.
    pub open spec fn wf(self) -> bool {
        &&& self.width <= 8
        &&& self.shift < 16
        &&& self.width + self.shift <= 16
        &&& self.map.is_some()
    }

    /// How many values the operand takes.
    pub open spec fn count(self) -> nat {
        if self.default.is_some() {
            1
        } else {
            pow2(self.width as nat)
        }
    }

    /// The smallest value the operand takes.
    pub open spec fn low(self) -> nat {
        match self.default {
            Some(d) => d as nat,
            None => 0,
        }
    }

    /// The largest value the operand takes.
    pub open spec fn high(self) -> nat {
        (self.low() + self.count() - 1) as nat
    }

    /// Whether `v` lies in the operand's range.
    pub open spec fn admits(self, v: u8) -> bool {
        self.low() <= v <= self.high()
    }

    /// The `k`-th value of the operand's range.
    pub open spec fn value(self, k: nat) -> u8 {
        (self.low() + k) as u8
    }

    /// Packs `v` into the opcode bits gathered so far.
    pub open spec fn pack(self, code: u16, v: u8) -> u16 {
        if self.default.is_some() {
            code
        } else {
            code | ((v as u16) << (self.shift as u16))
        }
    }

    /// Stores `v` in the field the operand maps to.
    pub open spec fn apply(self, instr: InstrThumb16, v: u8) -> InstrThumb16 {
        match self.map {
            Some(f) => instr.with_field(f, v),
            None => instr,
        }
    }

    /// The inclusive range `(low, high)` of the operand's values.
    pub fn permutations(&self) -> (r: (u32, u32))
        requires
            self.width <= 16,
        ensures
            r.0 == self.low(),
            r.1 == self.high(),
            self.width <= 8 ==> self.high() <= 255,
    {
        match self.default {
            Some(d) => (d as u32, d as u32),
            None => {
                let mut range: u32 = 1;
                let mut i: usize = 0;
                proof {
                    vstd::arithmetic::power2::lemma2_to64();
                }
                while i < self.width
                    invariant
                        i <= self.width <= 16,
                        range == pow2(i as nat),
                    decreases self.width - i,
                {
                    proof {
                        vstd::arithmetic::power2::lemma_pow2_unfold((i + 1) as nat);
                        vstd::arithmetic::power2::lemma_pow2_strictly_increases(i as nat, 16);
                        vstd::arithmetic::power2::lemma2_to64();
                    }
                    range = range * 2;
                    i = i + 1;
                }
                proof {
                    vstd::arithmetic::power2::lemma_pow2_pos(i as nat);
                    if i < 8 {
                        vstd::arithmetic::power2::lemma_pow2_strictly_increases(i as nat, 8);
                    }
                    vstd::arithmetic::power2::lemma2_to64();
                }
                (0, range - 1)
            },
        }
    }
}

/// The builder of an `Operand`.
#[derive(Debug)]
pub struct OperandBuilder {
    pub inner: Operand,
}

impl OperandBuilder {
    pub fn name(self, name: &str) -> (r: OperandBuilder)
        ensures
            r.inner.name@ == name@,
            r.inner.width == self.inner.width,
            r.inner.shift == self.inner.shift,
            r.inner.repr == self.inner.repr,
            r.inner.default == self.inner.default,
            r.inner.map == self.inner.map,
    {
        let mut s = self;
        s.inner.name = String::from_str(name);
        s
    }

    pub fn width(self, width: usize) -> (r: OperandBuilder)
        ensures
            r.inner.name == self.inner.name,
            r.inner.width == width,
            r.inner.shift == self.inner.shift,
            r.inner.repr == self.inner.repr,
            r.inner.default == self.inner.default,
            r.inner.map == self.inner.map,
    {
        let mut s = self;
        s.inner.width = width;
        s
    }

    pub fn shift(self, shift: usize) -> (r: OperandBuilder)
        ensures
            r.inner.name == self.inner.name,
            r.inner.width == self.inner.width,
            r.inner.shift == shift,
            r.inner.repr == self.inner.repr,
            r.inner.default == self.inner.default,
            r.inner.map == self.inner.map,
    {
        let mut s = self;
        s.inner.shift = shift;
        s
    }

    pub fn repr(self, repr: OperandRepr) -> (r: OperandBuilder)
        ensures
            r.inner.name == self.inner.name,
            r.inner.width == self.inner.width,
            r.inner.shift == self.inner.shift,
            r.inner.repr == repr,
            r.inner.default == self.inner.default,
            r.inner.map == self.inner.map,
    {
        let mut s = self;
        s.inner.repr = repr;
        s
    }

    /// Forces the operand to `value`: it is then neither iterated nor packed.
    pub fn default_value(self, value: u8) -> (r: OperandBuilder)
        ensures
            r.inner.name == self.inner.name,
            r.inner.width == self.inner.width,
            r.inner.shift == self.inner.shift,
            r.inner.repr == self.inner.repr,
            r.inner.default == Some(value),
            r.inner.map == self.inner.map,
    {
        let mut s = self;
        s.inner.default = Some(value);
        s
    }

    /// Names the instruction field that receives the operand's value.
    pub fn map(self, field: Field) -> (r: OperandBuilder)
        ensures
            r.inner.name == self.inner.name,
            r.inner.width == self.inner.width,
            r.inner.shift == self.inner.shift,
            r.inner.repr == self.inner.repr,
            r.inner.default == self.inner.default,
            r.inner.map == Some(field),
    {
        let mut s = self;
        s.inner.map = Some(field);
        s
    }

    pub fn build(self) -> (r: Operand)
        ensures
            r == self.inner,
    {
        self.inner
    }
}

/// Stores an operand's value in an instruction.
pub trait OperandMap {
    /// The instruction with `value` stored.
    spec fn mapped(&self, instr: InstrThumb16, value: u8) -> InstrThumb16;

    fn map_operand(&self, instr: InstrThumb16, value: u8) -> (r: InstrThumb16)
        ensures
            r == self.mapped(instr, value),
    ;
}

impl OperandMap for Field {
    open spec fn mapped(&self, instr: InstrThumb16, value: u8) -> InstrThumb16 {
        instr.with_field(*self, value)
    }

    fn map_operand(&self, instr: InstrThumb16, value: u8) -> (r: InstrThumb16) {
        instr.set_field(*self, value)
    }
}

/// Produces the blank instruction that an encoding fills.
pub trait VariantCtor {
    /// The instruction produced.
    spec fn constructed(&self) -> InstrThumb16;

    fn construct(&self) -> (r: InstrThumb16)
        ensures
            r == self.constructed(),
    ;
}

impl VariantCtor for InstrThumb16 {
    open spec fn constructed(&self) -> InstrThumb16 {
        *self
    }

    fn construct(&self) -> (r: InstrThumb16) {
        *self
    }
}

/// A decoded table entry: an opcode and the instruction it stands for.
#[derive(Clone, Copy, Debug, PartialEq, Eq, Structural)]
pub struct InstructionCodecPair {
    pub encoded: u16,
    pub decoded: InstrThumb16,
}

impl InstructionCodecPair {
    pub fn new(encoded: u16, decoded: InstrThumb16) -> (r: InstructionCodecPair)
        ensures
            r.encoded == encoded,
            r.decoded == decoded,
    {
        InstructionCodecPair { encoded, decoded }
    }
}

/// The pairs produced by one encoding, or by a whole catalog, in write order.
pub type DecodeTable = Vec<InstructionCodecPair>;

/// The pairs produced from operand `i` onwards, with `code` and `instr`
/// holding what the earlier operands packed and filled.
pub open spec fn expand(ops: Seq<Operand>, i: nat, code: u16, instr: InstrThumb16) -> Seq<
    InstructionCodecPair,
>
    decreases ops.len() - i, 1int, 0int,
{
    if i >= ops.len() {
        seq![InstructionCodecPair { encoded: code, decoded: instr }]
    } else {
        expand_values(ops, i, code, instr, ops[i as int].count())
    }
}

/// The pairs produced from operand `i` onwards when operand `i` runs through
/// its first `n` values.
pub open spec fn expand_values(
    ops: Seq<Operand>,
    i: nat,
    code: u16,
    instr: InstrThumb16,
    n: nat,
) -> Seq<InstructionCodecPair>
    decreases ops.len() - i, 0int, n,
{
    if i >= ops.len() || n == 0 {
        seq![]
    } else {
        let op = ops[i as int];
        let v = op.value((n - 1) as nat);
        expand_values(ops, i, code, instr, (n - 1) as nat) + expand(
            ops,
            i + 1,
            op.pack(code, v),
            op.apply(instr, v),
        )
    }
}

/// One bit layout of an instruction: a base pattern, its operand fields in
/// enumeration order, and the blank instruction that expansion fills.
#[derive(Debug)]
pub struct Encoding {
    pub parent: String,
    pub name: String,
    pub desc: String,
    pub base: u16,
    pub operands: Vec<Operand>,
    pub ctor: Option<InstrThumb16>,
}

impl Encoding {
    /// Has a blank instruction and well-formed operands.
    pub open spec fn wf(self) -> bool {
        &&& self.ctor.is_some()
        &&& forall|i: int| 0 <= i < self.operands@.len() ==> #[trigger] self.operands@[i].wf()
    }

    /// Every pair the encoding produces, in enumeration order: the first
    /// operand varies slowest.
    pub open spec fn expansion(self) -> Seq<InstructionCodecPair> {
        expand(self.operands@, 0, self.base, self.ctor.unwrap())
    }

    /// Starts an encoding with no operands, base pattern zero and no blank
    /// instruction.
    pub fn new() -> (r: EncodingBuilder)
        ensures
            r.inner.parent@ == Seq::<char>::empty(),
            r.inner.name@ == Seq::<char>::empty(),
            r.inner.desc@ == Seq::<char>::empty(),
            r.inner.base == 0,
            r.inner.operands@ == Seq::<Operand>::empty(),
            r.inner.ctor.is_none(),
    {
        EncodingBuilder {
            inner: Encoding {
                parent: String::new(),
                name: String::new(),
                desc: String::new(),
                base: 0,
                operands: Vec::new(),
                ctor: None,
            },
        }
    }

    /// The number of operands.
    pub fn arity(&self) -> (r: usize)
        ensures
            r == self.operands@.len(),
    {
        self.operands.len()
    }

    /// Expands the encoding into every pair it produces.
    pub fn generate_decode_table(&self) -> (r: DecodeTable)
        requires
            self.wf(),
        ensures
            r@ == self.expansion(),
            self.operands@.len() == 0 ==> r@ == seq![
                (InstructionCodecPair { encoded: self.base, decoded: self.ctor.unwrap() }),
            ],
    {
        let rdb = RecursiveDecoderBuilder::new(self);
        rdb.build_decode_table()
    }
}

/// Expands one encoding by a walk that fixes one operand per level.
pub struct RecursiveDecoderBuilder<'a> {
    pub encoding: &'a Encoding,
}

impl<'a> RecursiveDecoderBuilder<'a> {
    pub fn new(encoding: &'a Encoding) -> (r: RecursiveDecoderBuilder<'a>)
        ensures
            r.encoding == encoding,
    {
        RecursiveDecoderBuilder { encoding }
    }

    /// Every pair the encoding produces, in enumeration order.
    pub fn build_decode_table(self) -> (r: DecodeTable)
        requires
            self.encoding.wf(),
        ensures
            r@ == self.encoding.expansion(),
    {
        let blank = match &self.encoding.ctor {
            Some(c) => c.construct(),
            None => InstrThumb16::Undefined,
        };
        let mut table: DecodeTable = Vec::new();
        self.build_decode_table_recursive(0, self.encoding.base, blank, &mut table);
        proof {
            assert(table@ =~= self.encoding.expansion());
        }
        table
    }

    /// Appends the pairs produced from operand `idx` onwards.
    fn build_decode_table_recursive(
        &self,
        idx: usize,
        code: u16,
        state: InstrThumb16,
        output: &mut DecodeTable,
    )
        requires
            self.encoding.wf(),
            idx <= self.encoding.operands@.len(),
        ensures
            final(output)@ == old(output)@ + expand(self.encoding.operands@, idx as nat, code, state),
        decreases self.encoding.operands@.len() - idx,
    {
        let ghost ops = self.encoding.operands@;
        if idx < self.encoding.operands.len() {
            let op = &self.encoding.operands[idx];
            assert(op.wf());
            let (low, high) = op.permutations();
            proof {
                vstd::arithmetic::power2::lemma_pow2_pos(op.width as nat);
            }
            let next_idx = idx + 1;
            let mut v: u32 = low;
            while v <= high
                invariant
                    self.encoding.wf(),
                    idx < ops.len(),
                    next_idx == idx + 1,
                    ops == self.encoding.operands@,
                    *op == ops[idx as int],
                    op.wf(),
                    low == op.low(),
                    high == op.high(),
                    high <= 255,
                    op.count() >= 1,
                    low <= v <= high + 1,
                    output@ == old(output)@ + expand_values(
                        ops,
                        idx as nat,
                        code,
                        state,
                        (v - low) as nat,
                    ),
                decreases high + 1 - v,
            {
                let val = v as u8;
                let next_code = match op.default {
                    Some(_) => code,
                    None => code | ((val as u16) << (op.shift as u16)),
                };
                let next_state = match op.map {
                    Some(f) => f.map_operand(state, val),
                    None => state,
                };
                let ghost before = output@;
                self.build_decode_table_recursive(next_idx, next_code, next_state, output);
                proof {
                    let n = (v - low) as nat;
                    assert(op.value(n) == val);
                    assert(expand_values(ops, idx as nat, code, state, n + 1) == expand_values(
                        ops,
                        idx as nat,
                        code,
                        state,
                        n,
                    ) + expand(ops, (idx + 1) as nat, next_code, next_state));
                    assert(output@ =~= old(output)@ + expand_values(
                        ops,
                        idx as nat,
                        code,
                        state,
                        n + 1,
                    ));
                }
                v = v + 1;
            }
        } else {
            output.push(InstructionCodecPair::new(code, state));
        }
    }
}

/// The builder of an `Encoding`.
#[derive(Debug)]
pub struct EncodingBuilder {
    pub inner: Encoding,
}

impl EncodingBuilder {
    pub fn name(self, name: &str) -> (r: EncodingBuilder)
        ensures
            r.inner.name@ == name@,
            r.inner.parent == self.inner.parent,
            r.inner.desc == self.inner.desc,
            r.inner.base == self.inner.base,
            r.inner.operands == self.inner.operands,
            r.inner.ctor == self.inner.ctor,
    {
        let mut s = self;
        s.inner.name = String::from_str(name);
        s
    }

    pub fn desc(self, desc: &str) -> (r: EncodingBuilder)
        ensures
            r.inner.desc@ == desc@,
            r.inner.parent == self.inner.parent,
            r.inner.name == self.inner.name,
            r.inner.base == self.inner.base,
            r.inner.operands == self.inner.operands,
            r.inner.ctor == self.inner.ctor,
    {
        let mut s = self;
        s.inner.desc = String::from_str(desc);
        s
    }

    /// Appends an operand after those added so far.
    pub fn operand(self, op: Operand) -> (r: EncodingBuilder)
        ensures
            r.inner.operands@ == self.inner.operands@.push(op),
            r.inner.parent == self.inner.parent,
            r.inner.name == self.inner.name,
            r.inner.desc == self.inner.desc,
            r.inner.base == self.inner.base,
            r.inner.ctor == self.inner.ctor,
    {
        let mut s = self;
        s.inner.operands.push(op);
        s
    }

    /// Sets the base bit pattern.
    pub fn base(self, base: u16) -> (r: EncodingBuilder)
        ensures
            r.inner.base == base,
            r.inner.parent == self.inner.parent,
            r.inner.name == self.inner.name,
            r.inner.desc == self.inner.desc,
            r.inner.operands == self.inner.operands,
            r.inner.ctor == self.inner.ctor,
    {
        let mut s = self;
        s.inner.base = base;
        s
    }

    /// Sets the blank instruction that expansion fills.
    pub fn ctor(self, blank: InstrThumb16) -> (r: EncodingBuilder)
        ensures
            r.inner.ctor == Some(blank),
            r.inner.parent == self.inner.parent,
            r.inner.name == self.inner.name,
            r.inner.desc == self.inner.desc,
            r.inner.base == self.inner.base,
            r.inner.operands == self.inner.operands,
    {
        let mut s = self;
        s.inner.ctor = Some(blank);
        s
    }

    pub fn build(self) -> (r: Encoding)
        ensures
            r == self.inner,
    {
        self.inner
    }
}

/// An instruction with every encoding it may be written in.
#[derive(Debug)]
pub struct InstrDesc {
    pub name: String,
    pub desc: String,
    pub encodings: Vec<Encoding>,
}

impl InstrDesc {
    /// Every encoding is well formed.
    pub open spec fn wf(self) -> bool {
        forall|i: int| 0 <= i < self.encodings@.len() ==> #[trigger] self.encodings@[i].wf()
    }

    /// Starts an unnamed description with no encodings.
    pub fn new() -> (r: InstrDescBuilder)
        ensures
            r.name.is_none(),
            r.inner.name@ == Seq::<char>::empty(),
            r.inner.desc@ == Seq::<char>::empty(),
            r.inner.encodings@ == Seq::<Encoding>::empty(),
    {
        InstrDescBuilder {
            name: None,
            inner: InstrDesc { name: String::new(), desc: String::new(), encodings: Vec::new() },
        }
    }
}

/// The builder of an `InstrDesc`.
#[derive(Debug)]
pub struct InstrDescBuilder {
    pub name: Option<String>,
    pub inner: InstrDesc,
}

impl InstrDescBuilder {
    pub fn name(self, name: &str) -> (r: InstrDescBuilder)
        ensures
            r.name.is_some(),
            r.name.unwrap()@ == name@,
            r.inner == self.inner,
    {
        let mut s = self;
        s.name = Some(String::from_str(name));
        s
    }

    pub fn desc(self, desc: &str) -> (r: InstrDescBuilder)
        ensures
            r.name == self.name,
            r.inner.name == self.inner.name,
            r.inner.desc@ == desc@,
            r.inner.encodings == self.inner.encodings,
    {
        let mut s = self;
        s.inner.desc = String::from_str(desc);
        s
    }

    /// Appends an encoding, recording the instruction's name as its parent.
    pub fn encoding(self, encoding: Encoding) -> (r: InstrDescBuilder)
        requires
            self.name.is_some(),
        ensures
            r.name == self.name,
            r.inner.name == self.inner.name,
            r.inner.desc == self.inner.desc,
            r.inner.encodings@ == self.inner.encodings@.push(
                Encoding { parent: self.name.unwrap(), ..encoding },
            ),
    {
        let mut s = self;
        let mut temp = encoding;
        match &s.name {
            Some(name) => {
                temp.parent = name.clone();
            },
            None => {},
        }
        s.inner.encodings.push(temp);
        s
    }

    pub fn build(self) -> (r: InstrDesc)
        requires
            self.name.is_some(),
        ensures
            r.name == self.name.unwrap(),
            r.desc == self.inner.desc,
            r.encodings == self.inner.encodings,
    {
        let mut s = self;
        match s.name {
            Some(name) => {
                s.inner.name = name;
            },
            None => {},
        }
        s.inner
    }
}

/// The pairs of a list of encodings, written one encoding after another.
pub open spec fn encodings_pairs(encs: Seq<Encoding>) -> Seq<InstructionCodecPair>
    decreases encs.len(),
{
    if encs.len() == 0 {
        seq![]
    } else {
        encodings_pairs(encs.drop_last()) + encs.last().expansion()
    }
}

/// The pairs of a whole catalog, in the order they are written to the table.
pub open spec fn catalog_pairs(descs: Seq<InstrDesc>) -> Seq<InstructionCodecPair>
    decreases descs.len(),
{
    if descs.len() == 0 {
        seq![]
    } else {
        catalog_pairs(descs.drop_last()) + encodings_pairs(descs.last().encodings@)
    }
}

/// The instruction of the last pair written at opcode `x`, if any is.
pub open spec fn last_write(ps: Seq<InstructionCodecPair>, x: u16) -> Option<InstrThumb16>
    decreases ps.len(),
{
    if ps.len() == 0 {
        None
    } else if ps.last().encoded == x {
        Some(ps.last().decoded)
    } else {
        last_write(ps.drop_last(), x)
    }
}

/// What a table written with the pairs `ps` holds at opcode `x`.
pub open spec fn entry(ps: Seq<InstructionCodecPair>, x: u16) -> InstrThumb16 {
    match last_write(ps, x) {
        Some(i) => i,
        None => InstrThumb16::Undefined,
    }
}

/// What the table compiled from the catalog `descs` holds at opcode `x`.
pub open spec fn decoded_at(descs: Seq<InstrDesc>, x: u16) -> InstrThumb16 {
    entry(catalog_pairs(descs), x)
}

/// What expansion reads of an operand: its width, shift, forced value and field.
pub type OperandLayout = (usize, usize, Option<u8>, Option<Field>);

/// What expansion reads of an encoding: its base pattern, blank instruction
/// and operands.
pub type EncodingLayout = (u16, Option<InstrThumb16>, Seq<OperandLayout>);

pub open spec fn operand_layout(op: Operand) -> OperandLayout {
    (op.width, op.shift, op.default, op.map)
}

pub open spec fn encoding_layout(e: Encoding) -> EncodingLayout {
    (e.base, e.ctor, e.operands@.map_values(|op: Operand| operand_layout(op)))
}

pub open spec fn desc_layout(d: InstrDesc) -> Seq<EncodingLayout> {
    d.encodings@.map_values(|e: Encoding| encoding_layout(e))
}

/// The layout of every encoding of a catalog, instruction by instruction.
pub open spec fn catalog_layout(descs: Seq<InstrDesc>) -> Seq<Seq<EncodingLayout>> {
    descs.map_values(|d: InstrDesc| desc_layout(d))
}

/// Every instruction of the catalog is well formed.
pub open spec fn catalog_wf(descs: Seq<InstrDesc>) -> bool {
    forall|i: int| 0 <= i < descs.len() ==> #[trigger] descs[i].wf()
}

/// `table` is the dense table compiled from `descs`.
pub open spec fn compiled_from(table: Seq<InstrThumb16>, descs: Seq<InstrDesc>) -> bool {
    &&& table.len() == NUM_TH16_INSTRUCTIONS
    &&& forall|x: int| 0 <= x < NUM_TH16_INSTRUCTIONS ==> #[trigger] table[x] == decoded_at(descs, x as u16)
}

proof fn lemma_entry_push(ps: Seq<InstructionCodecPair>, p: InstructionCodecPair, x: u16)
    ensures
        entry(ps.push(p), x) == (if p.encoded == x {
            p.decoded
        } else {
            entry(ps, x)
        }),
{
    assert(ps.push(p).drop_last() =~= ps);
}

/// Compiles a catalog into the dense table of all 65,536 opcodes.
///
/// The table starts as `Undefined` everywhere; then every pair of every
/// encoding is written in catalog order, so the last write at an opcode wins.
pub fn compile_decode_table(descs: &Vec<InstrDesc>) -> (r: Vec<InstrThumb16>)
    requires
        catalog_wf(descs@),
    ensures
        compiled_from(r@, descs@),
{
    let mut table: Vec<InstrThumb16> = Vec::new();
    let mut n: usize = 0;
    while n < NUM_TH16_INSTRUCTIONS
        invariant
            n <= NUM_TH16_INSTRUCTIONS,
            table@.len() == n,
            forall|x: int| 0 <= x < n ==> #[trigger] table@[x] == InstrThumb16::Undefined,
        decreases NUM_TH16_INSTRUCTIONS - n,
    {
        table.push(InstrThumb16::Undefined);
        n = n + 1;
    }
    proof {
        assert(descs@.take(0) =~= Seq::<InstrDesc>::empty());
    }
    let mut i: usize = 0;
    while i < descs.len()
        invariant
            forall|i: int| 0 <= i < descs@.len() ==> #[trigger] descs@[i].wf(),
            i <= descs@.len(),
            table@.len() == NUM_TH16_INSTRUCTIONS,
            forall|x: int|
                0 <= x < NUM_TH16_INSTRUCTIONS ==> #[trigger] table@[x] == entry(
                    catalog_pairs(descs@.take(i as int)),
                    x as u16,
                ),
        decreases descs@.len() - i,
    {
        let desc = &descs[i];
        let ghost done = catalog_pairs(descs@.take(i as int));
        assert(desc.wf());
        proof {
            assert(desc.encodings@.take(0) =~= Seq::<Encoding>::empty());
            assert(done + encodings_pairs(desc.encodings@.take(0)) =~= done);
        }
        let mut j: usize = 0;
        while j < desc.encodings.len()
            invariant
                desc.wf(),
                j <= desc.encodings@.len(),
                table@.len() == NUM_TH16_INSTRUCTIONS,
                forall|x: int|
                    0 <= x < NUM_TH16_INSTRUCTIONS ==> #[trigger] table@[x] == entry(
                        done + encodings_pairs(desc.encodings@.take(j as int)),
                        x as u16,
                    ),
            decreases desc.encodings@.len() - j,
        {
            let enc = &desc.encodings[j];
            assert(enc.wf());
            let pairs = enc.generate_decode_table();
            let ghost before = done + encodings_pairs(desc.encodings@.take(j as int));
            proof {
                assert(before + pairs@.take(0) =~= before);
            }
            let mut k: usize = 0;
            while k < pairs.len()
                invariant
                    k <= pairs@.len(),
                    table@.len() == NUM_TH16_INSTRUCTIONS,
                    forall|x: int|
                        0 <= x < NUM_TH16_INSTRUCTIONS ==> #[trigger] table@[x] == entry(
                            before + pairs@.take(k as int),
                            x as u16,
                        ),
                decreases pairs@.len() - k,
            {
                let p = pairs[k];
                let ghost prev = table@;
                table.set(p.encoded as usize, p.decoded);
                proof {
                    let ps = before + pairs@.take(k as int);
                    assert(before + pairs@.take(k + 1) =~= ps.push(p));
                    assert forall|x: int| 0 <= x < NUM_TH16_INSTRUCTIONS implies #[trigger] table@[x]
                        == entry(before + pairs@.take(k + 1), x as u16) by {
                        lemma_entry_push(ps, p, x as u16);
                    }
                }
                k = k + 1;
            }
            proof {
                assert(pairs@.take(k as int) =~= pairs@);
                assert(desc.encodings@.take(j + 1).drop_last() =~= desc.encodings@.take(j as int));
                assert(before + pairs@ =~= done + encodings_pairs(desc.encodings@.take(j + 1)));
            }
            j = j + 1;
        }
        proof {
            assert(desc.encodings@.take(j as int) =~= desc.encodings@);
            assert(descs@.take(i + 1).drop_last() =~= descs@.take(i as int));
        }
        i = i + 1;
    }
    proof {
        assert(descs@.take(i as int) =~= descs@);
    }
    table
}

/// `vals` gives every operand from `i` onwards a value in its range.
pub open spec fn legal_from(ops: Seq<Operand>, i: nat, vals: Seq<u8>) -> bool {
    &&& vals.len() == ops.len()
    &&& forall|j: int| i <= j < ops.len() ==> #[trigger] ops[j].admits(vals[j])
}

/// The opcode bits after packing the values of operands `i` onwards.
pub open spec fn pack_from(ops: Seq<Operand>, i: nat, code: u16, vals: Seq<u8>) -> u16
    decreases ops.len() - i,
{
    if i >= ops.len() {
        code
    } else {
        pack_from(ops, i + 1, ops[i as int].pack(code, vals[i as int]), vals)
    }
}

/// The instruction after storing the values of operands `i` onwards.
pub open spec fn fill_from(ops: Seq<Operand>, i: nat, instr: InstrThumb16, vals: Seq<u8>) -> InstrThumb16
    decreases ops.len() - i,
{
    if i >= ops.len() {
        instr
    } else {
        fill_from(ops, i + 1, ops[i as int].apply(instr, vals[i as int]), vals)
    }
}

impl Encoding {
    /// `vals` is a legal combination of the operands' values.
    pub open spec fn legal(self, vals: Seq<u8>) -> bool {
        legal_from(self.operands@, 0, vals)
    }

    /// The opcode that packs the combination `vals`.
    pub open spec fn packed(self, vals: Seq<u8>) -> u16 {
        pack_from(self.operands@, 0, self.base, vals)
    }

    /// The instruction that carries the combination `vals`.
    pub open spec fn filled(self, vals: Seq<u8>) -> InstrThumb16 {
        fill_from(self.operands@, 0, self.ctor.unwrap(), vals)
    }

    /// No two operands fill the same field, and the blank instruction has
    /// every field they fill.
    pub open spec fn fields_match(self) -> bool {
        &&& forall|a: int, b: int|
            0 <= a < b < self.operands@.len() ==> #[trigger] self.operands@[a].map
                != #[trigger] self.operands@[b].map
        &&& forall|a: int|
            0 <= a < self.operands@.len() ==> (#[trigger] self.operands@[a]).map.is_some()
                && self.ctor.unwrap().field(self.operands@[a].map.unwrap()).is_some()
    }
}

proof fn lemma_from_ignores_earlier(
    ops: Seq<Operand>,
    i: nat,
    code: u16,
    instr: InstrThumb16,
    vals: Seq<u8>,
    j: int,
    v: u8,
)
    requires
        0 <= j < i,
        vals.len() == ops.len(),
    ensures
        pack_from(ops, i, code, vals.update(j, v)) == pack_from(ops, i, code, vals),
        fill_from(ops, i, instr, vals.update(j, v)) == fill_from(ops, i, instr, vals),
    decreases ops.len() - i,
{
    if i < ops.len() {
        let op = ops[i as int];
        assert(vals.update(j, v)[i as int] == vals[i as int]);
        lemma_from_ignores_earlier(ops, i + 1, op.pack(code, vals[i as int]), instr, vals, j, v);
        lemma_from_ignores_earlier(ops, i + 1, code, op.apply(instr, vals[i as int]), vals, j, v);
    }
}

proof fn lemma_operand_range(op: Operand)
    requires
        op.wf(),
    ensures
        op.count() >= 1,
        op.high() <= 255,
{
    vstd::arithmetic::power2::lemma2_to64();
    vstd::arithmetic::power2::lemma_pow2_pos(op.width as nat);
    if op.width < 8 {
        vstd::arithmetic::power2::lemma_pow2_strictly_increases(op.width as nat, 8);
    }
}

/// Every legal combination of the values of operands `i` onwards appears in
/// the expansion, as the opcode that packs it and the instruction that
/// carries it.
pub proof fn lemma_expand_complete(
    ops: Seq<Operand>,
    i: nat,
    code: u16,
    instr: InstrThumb16,
    vals: Seq<u8>,
)
    requires
        i <= ops.len(),
        forall|j: int| 0 <= j < ops.len() ==> #[trigger] ops[j].wf(),
        legal_from(ops, i, vals),
    ensures
        expand(ops, i, code, instr).contains(
            InstructionCodecPair {
                encoded: pack_from(ops, i, code, vals),
                decoded: fill_from(ops, i, instr, vals),
            },
        ),
    decreases ops.len() - i, 1int, 0int,
{
    if i < ops.len() {
        let op = ops[i as int];
        assert(op.admits(vals[i as int]));
        lemma_operand_range(op);
        lemma_expand_values_complete(ops, i, code, instr, op.count(), vals);
    } else {
        assert(expand(ops, i, code, instr)[0] == InstructionCodecPair {
            encoded: pack_from(ops, i, code, vals),
            decoded: fill_from(ops, i, instr, vals),
        });
    }
}

proof fn lemma_expand_values_complete(
    ops: Seq<Operand>,
    i: nat,
    code: u16,
    instr: InstrThumb16,
    n: nat,
    vals: Seq<u8>,
)
    requires
        i < ops.len(),
        forall|j: int| 0 <= j < ops.len() ==> #[trigger] ops[j].wf(),
        legal_from(ops, i, vals),
        n <= ops[i as int].count(),
        vals[i as int] < ops[i as int].low() + n,
    ensures
        expand_values(ops, i, code, instr, n).contains(
            InstructionCodecPair {
                encoded: pack_from(ops, i, code, vals),
                decoded: fill_from(ops, i, instr, vals),
            },
        ),
    decreases ops.len() - i, 0int, n,
{
    let op = ops[i as int];
    assert(op.admits(vals[i as int]));
    lemma_operand_range(op);
    let k = (n - 1) as nat;
    let v = op.value(k);
    let target = InstructionCodecPair {
        encoded: pack_from(ops, i, code, vals),
        decoded: fill_from(ops, i, instr, vals),
    };
    let prev = expand_values(ops, i, code, instr, k);
    let rest = expand(ops, i + 1, op.pack(code, v), op.apply(instr, v));
    assert(expand_values(ops, i, code, instr, n) == prev + rest);
    if vals[i as int] == op.low() + k {
        assert(v == vals[i as int]);
        lemma_expand_complete(ops, i + 1, op.pack(code, v), op.apply(instr, v), vals);
        let idx = choose|idx: int| 0 <= idx < rest.len() && rest[idx] == target;
        assert((prev + rest)[prev.len() + idx] == target);
    } else {
        lemma_expand_values_complete(ops, i, code, instr, k, vals);
        let idx = choose|idx: int| 0 <= idx < prev.len() && prev[idx] == target;
        assert((prev + rest)[idx] == target);
    }
}

/// Every pair of the expansion from operand `i` onwards is the opcode and
/// instruction of some legal combination of those operands' values.
pub proof fn lemma_expand_sound(ops: Seq<Operand>, i: nat, code: u16, instr: InstrThumb16, k: int)
    requires
        i <= ops.len(),
        forall|j: int| 0 <= j < ops.len() ==> #[trigger] ops[j].wf(),
        0 <= k < expand(ops, i, code, instr).len(),
    ensures
        exists|vals: Seq<u8>|
            #[trigger] legal_from(ops, i, vals) && expand(ops, i, code, instr)[k] == (InstructionCodecPair {
                encoded: pack_from(ops, i, code, vals),
                decoded: fill_from(ops, i, instr, vals),
            }),
    decreases ops.len() - i, 1int, 0int,
{
    if i < ops.len() {
        lemma_expand_values_sound(ops, i, code, instr, ops[i as int].count(), k);
    } else {
        let vals = Seq::new(ops.len(), |j: int| 0u8);
        assert(legal_from(ops, i, vals));
        assert(expand(ops, i, code, instr)[k] == InstructionCodecPair {
            encoded: pack_from(ops, i, code, vals),
            decoded: fill_from(ops, i, instr, vals),
        });
    }
}

proof fn lemma_expand_values_sound(
    ops: Seq<Operand>,
    i: nat,
    code: u16,
    instr: InstrThumb16,
    n: nat,
    k: int,
)
    requires
        i < ops.len(),
        forall|j: int| 0 <= j < ops.len() ==> #[trigger] ops[j].wf(),
        n <= ops[i as int].count(),
        0 <= k < expand_values(ops, i, code, instr, n).len(),
    ensures
        exists|vals: Seq<u8>|
            #[trigger] legal_from(ops, i, vals) && expand_values(ops, i, code, instr, n)[k] == (InstructionCodecPair {
                encoded: pack_from(ops, i, code, vals),
                decoded: fill_from(ops, i, instr, vals),
            }),
    decreases ops.len() - i, 0int, n,
{
    let op = ops[i as int];
    lemma_operand_range(op);
    let m = (n - 1) as nat;
    let v = op.value(m);
    let prev = expand_values(ops, i, code, instr, m);
    let rest = expand(ops, i + 1, op.pack(code, v), op.apply(instr, v));
    assert(expand_values(ops, i, code, instr, n) == prev + rest);
    if k < prev.len() {
        lemma_expand_values_sound(ops, i, code, instr, m, k);
        let vals = choose|vals: Seq<u8>|
            #[trigger] legal_from(ops, i, vals) && prev[k] == (InstructionCodecPair {
                encoded: pack_from(ops, i, code, vals),
                decoded: fill_from(ops, i, instr, vals),
            });
        assert((prev + rest)[k] == prev[k]);
    } else {
        lemma_expand_sound(ops, i + 1, op.pack(code, v), op.apply(instr, v), k - prev.len());
        let w = choose|w: Seq<u8>|
            #[trigger] legal_from(ops, i + 1, w) && rest[k - prev.len()] == (InstructionCodecPair {
                encoded: pack_from(ops, i + 1, op.pack(code, v), w),
                decoded: fill_from(ops, i + 1, op.apply(instr, v), w),
            });
        let vals = w.update(i as int, v);
        lemma_from_ignores_earlier(ops, i + 1, op.pack(code, v), op.apply(instr, v), w, i as int, v);
        assert(vals[i as int] == v);
        assert(op.admits(v));
        assert forall|j: int| i <= j < ops.len() implies #[trigger] ops[j].admits(vals[j]) by {
            if j > i {
                assert(vals[j] == w[j]);
            }
        }
        assert(legal_from(ops, i, vals));
        assert((prev + rest)[k] == rest[k - prev.len()]);
        assert(pack_from(ops, i, code, vals) == pack_from(ops, i + 1, op.pack(code, v), vals));
        assert(fill_from(ops, i, instr, vals) == fill_from(ops, i + 1, op.apply(instr, v), vals));
    }
}

proof fn lemma_last_write_present(ps: Seq<InstructionCodecPair>, x: u16, k: int)
    requires
        0 <= k < ps.len(),
        ps[k].encoded == x,
    ensures
        last_write(ps, x).is_some(),
    decreases ps.len(),
{
    if ps.last().encoded != x {
        lemma_last_write_present(ps.drop_last(), x, k);
    }
}

proof fn lemma_last_write_found(ps: Seq<InstructionCodecPair>, x: u16)
    requires
        last_write(ps, x).is_some(),
    ensures
        exists|k: int|
            0 <= k < ps.len() && #[trigger] ps[k] == (InstructionCodecPair {
                encoded: x,
                decoded: last_write(ps, x).unwrap(),
            }),
    decreases ps.len(),
{
    if ps.last().encoded != x {
        lemma_last_write_found(ps.drop_last(), x);
        let k = choose|k: int|
            0 <= k < ps.drop_last().len() && #[trigger] ps.drop_last()[k] == (InstructionCodecPair {
                encoded: x,
                decoded: last_write(ps.drop_last(), x).unwrap(),
            });
        assert(ps[k] == ps.drop_last()[k]);
    } else {
        assert(ps[ps.len() - 1] == ps.last());
    }
}

proof fn lemma_fill_keeps(ops: Seq<Operand>, i: nat, instr: InstrThumb16, vals: Seq<u8>, g: Field)
    requires
        forall|m: int| i <= m < ops.len() ==> #[trigger] ops[m].map != Some(g),
    ensures
        fill_from(ops, i, instr, vals).field(g) == instr.field(g),
    decreases ops.len() - i,
{
    if i < ops.len() {
        let op = ops[i as int];
        if let Some(f) = op.map {
            instr.lemma_with_field(f, g, vals[i as int]);
        }
        lemma_fill_keeps(ops, i + 1, op.apply(instr, vals[i as int]), vals, g);
    }
}

proof fn lemma_fill_fields(ops: Seq<Operand>, i: nat, instr: InstrThumb16, vals: Seq<u8>, j: int)
    requires
        i <= j < ops.len(),
        forall|a: int, b: int| 0 <= a < b < ops.len() ==> #[trigger] ops[a].map != #[trigger] ops[b].map,
        forall|a: int|
            i <= a < ops.len() ==> (#[trigger] ops[a]).map.is_some() && instr.field(
                ops[a].map.unwrap(),
            ).is_some(),
    ensures
        fill_from(ops, i, instr, vals).field(ops[j].map.unwrap()) == Some(vals[j]),
    decreases ops.len() - i,
{
    let op = ops[i as int];
    let f = op.map.unwrap();
    let next = op.apply(instr, vals[i as int]);
    if i == j {
        instr.lemma_with_field(f, f, vals[i as int]);
        assert forall|m: int| i + 1 <= m < ops.len() implies #[trigger] ops[m].map != Some(f) by {
            assert(ops[i as int].map != ops[m].map);
        }
        lemma_fill_keeps(ops, i + 1, next, vals, f);
    } else {
        assert forall|a: int| i + 1 <= a < ops.len() implies (#[trigger] ops[a]).map.is_some()
            && next.field(ops[a].map.unwrap()).is_some() by {
            instr.lemma_with_field(f, ops[a].map.unwrap(), vals[i as int]);
        }
        lemma_fill_fields(ops, i + 1, next, vals, j);
    }
}

/// Round trip: a legal combination of operand values, packed into an opcode
/// and looked up in the table that the encoding writes, gives back an
/// instruction whose fields hold the combination, and a forced operand's
/// field holds its default. It holds where the combination's opcode is
/// packed by no other legal combination, as operands that do not overlap
/// ensure.
pub proof fn lemma_round_trip(enc: Encoding, vals: Seq<u8>)
    requires
        enc.wf(),
        enc.fields_match(),
        enc.legal(vals),
        forall|w: Seq<u8>| enc.legal(w) && #[trigger] enc.packed(w) == enc.packed(vals) ==> w == vals,
    ensures
        entry(enc.expansion(), enc.packed(vals)) == enc.filled(vals),
        forall|j: int|
            0 <= j < enc.operands@.len() ==> enc.filled(vals).field(
                (#[trigger] enc.operands@[j]).map.unwrap(),
            ) == Some(vals[j]),
        forall|j: int|
            0 <= j < enc.operands@.len() && (#[trigger] enc.operands@[j]).default.is_some()
                ==> enc.filled(vals).field(enc.operands@[j].map.unwrap())
                == enc.operands@[j].default,
{
    let ops = enc.operands@;
    let ps = enc.expansion();
    let x = enc.packed(vals);
    assert forall|j: int| 0 <= j < ops.len() implies #[trigger] ops[j].wf() by {
        assert(enc.operands@[j].wf());
    }
    lemma_expand_complete(ops, 0, enc.base, enc.ctor.unwrap(), vals);
    let k0 = choose|k: int| 0 <= k < ps.len() && ps[k] == (InstructionCodecPair {
        encoded: x,
        decoded: enc.filled(vals),
    });
    lemma_last_write_present(ps, x, k0);
    lemma_last_write_found(ps, x);
    let k = choose|k: int|
        0 <= k < ps.len() && #[trigger] ps[k] == (InstructionCodecPair {
            encoded: x,
            decoded: last_write(ps, x).unwrap(),
        });
    lemma_expand_sound(ops, 0, enc.base, enc.ctor.unwrap(), k);
    let w = choose|w: Seq<u8>|
        #[trigger] legal_from(ops, 0, w) && ps[k] == (InstructionCodecPair {
            encoded: pack_from(ops, 0, enc.base, w),
            decoded: fill_from(ops, 0, enc.ctor.unwrap(), w),
        });
    assert(enc.legal(w) && enc.packed(w) == x);
    assert(w == vals);
    assert forall|j: int| 0 <= j < ops.len() implies enc.filled(vals).field(
        (#[trigger] enc.operands@[j]).map.unwrap(),
    ) == Some(vals[j]) by {
        lemma_fill_fields(ops, 0, enc.ctor.unwrap(), vals, j);
    }
    assert forall|j: int|
        0 <= j < ops.len() && (#[trigger] enc.operands@[j]).default.is_some() implies enc.filled(
        vals,
    ).field(enc.operands@[j].map.unwrap()) == enc.operands@[j].default by {
        lemma_fill_fields(ops, 0, enc.ctor.unwrap(), vals, j);
        assert(ops[j].admits(vals[j]));
    }
}

/// An encoding without operands writes exactly one pair: its blank
/// instruction at its base pattern.
pub proof fn lemma_zero_operand_singleton(enc: Encoding)
    requires
        enc.wf(),
        enc.operands@.len() == 0,
    ensures
        enc.expansion() == seq![
            (InstructionCodecPair { encoded: enc.base, decoded: enc.ctor.unwrap() }),
        ],
        entry(enc.expansion(), enc.base) == enc.ctor.unwrap(),
        forall|x: u16| #[trigger] last_write(enc.expansion(), x).is_some() <==> x == enc.base,
{
    let ps = enc.expansion();
    let p = InstructionCodecPair { encoded: enc.base, decoded: enc.ctor.unwrap() };
    assert(ps == seq![p]);
    assert(ps.last() == p);
    assert(ps.drop_last() =~= Seq::<InstructionCodecPair>::empty());
    assert forall|x: u16| #[trigger] last_write(ps, x).is_some() <==> x == enc.base by {
        assert(last_write(ps.drop_last(), x).is_none());
    }
}

proof fn lemma_last_write_concat(p: Seq<InstructionCodecPair>, q: Seq<InstructionCodecPair>, x: u16)
    ensures
        last_write(p + q, x) == (if last_write(q, x).is_some() {
            last_write(q, x)
        } else {
            last_write(p, x)
        }),
    decreases q.len(),
{
    if q.len() == 0 {
        assert(p + q =~= p);
    } else {
        assert((p + q).drop_last() =~= p + q.drop_last());
        assert((p + q).last() == q.last());
        lemma_last_write_concat(p, q.drop_last(), x);
    }
}

proof fn lemma_catalog_pairs_concat(a: Seq<InstrDesc>, b: Seq<InstrDesc>)
    ensures
        catalog_pairs(a + b) == catalog_pairs(a) + catalog_pairs(b),
    decreases b.len(),
{
    if b.len() == 0 {
        assert(a + b =~= a);
        assert(catalog_pairs(a) + catalog_pairs(b) =~= catalog_pairs(a));
    } else {
        assert((a + b).drop_last() =~= a + b.drop_last());
        assert((a + b).last() == b.last());
        lemma_catalog_pairs_concat(a, b.drop_last());
        assert(catalog_pairs(a + b) =~= catalog_pairs(a) + catalog_pairs(b));
    }
}

/// Last write wins: where a later part of a catalog writes an opcode, the
/// table compiled from the whole catalog holds there what the later part
/// alone would give, whatever the earlier part writes.
pub proof fn lemma_last_write_wins(earlier: Seq<InstrDesc>, later: Seq<InstrDesc>, x: u16)
    requires
        exists|k: int| 0 <= k < catalog_pairs(later).len() && (#[trigger] catalog_pairs(later)[k]).encoded == x,
    ensures
        decoded_at(earlier + later, x) == decoded_at(later, x),
{
    let k = choose|k: int| 0 <= k < catalog_pairs(later).len() && (#[trigger] catalog_pairs(later)[k]).encoded == x;
    lemma_last_write_present(catalog_pairs(later), x, k);
    lemma_catalog_pairs_concat(earlier, later);
    lemma_last_write_concat(catalog_pairs(earlier), catalog_pairs(later), x);
}

/// An opcode that no encoding of the catalog produces decodes to `Undefined`.
pub proof fn lemma_unmapped_is_undefined(descs: Seq<InstrDesc>, x: u16)
    requires
        forall|k: int| 0 <= k < catalog_pairs(descs).len() ==> (#[trigger] catalog_pairs(descs)[k]).encoded != x,
    ensures
        decoded_at(descs, x) == InstrThumb16::Undefined,
{
    if last_write(catalog_pairs(descs), x).is_some() {
        lemma_last_write_found(catalog_pairs(descs), x);
    }
}

proof fn lemma_expand_layout(ops1: Seq<Operand>, ops2: Seq<Operand>, i: nat, code: u16, instr: InstrThumb16)
    requires
        ops1.map_values(|op: Operand| operand_layout(op)) == ops2.map_values(|op: Operand| operand_layout(op)),
    ensures
        expand(ops1, i, code, instr) == expand(ops2, i, code, instr),
    decreases ops1.len() - i, 1int, 0int,
{
    assert(ops1.len() == ops1.map_values(|op: Operand| operand_layout(op)).len());
    if i < ops1.len() {
        assert(operand_layout(ops1[i as int]) == ops1.map_values(|op: Operand| operand_layout(op))[i as int]);
        assert(operand_layout(ops2[i as int]) == ops2.map_values(|op: Operand| operand_layout(op))[i as int]);
        lemma_expand_values_layout(ops1, ops2, i, code, instr, ops1[i as int].count());
    }
}

proof fn lemma_expand_values_layout(
    ops1: Seq<Operand>,
    ops2: Seq<Operand>,
    i: nat,
    code: u16,
    instr: InstrThumb16,
    n: nat,
)
    requires
        ops1.map_values(|op: Operand| operand_layout(op)) == ops2.map_values(|op: Operand| operand_layout(op)),
    ensures
        expand_values(ops1, i, code, instr, n) == expand_values(ops2, i, code, instr, n),
    decreases ops1.len() - i, 0int, n,
{
    assert(ops1.len() == ops1.map_values(|op: Operand| operand_layout(op)).len());
    if i < ops1.len() && n > 0 {
        assert(operand_layout(ops1[i as int]) == ops1.map_values(|op: Operand| operand_layout(op))[i as int]);
        assert(operand_layout(ops2[i as int]) == ops2.map_values(|op: Operand| operand_layout(op))[i as int]);
        let op = ops1[i as int];
        let v = op.value((n - 1) as nat);
        lemma_expand_values_layout(ops1, ops2, i, code, instr, (n - 1) as nat);
        lemma_expand_layout(ops1, ops2, i + 1, op.pack(code, v), op.apply(instr, v));
    }
}

proof fn lemma_encodings_pairs_layout(a: Seq<Encoding>, b: Seq<Encoding>)
    requires
        a.map_values(|e: Encoding| encoding_layout(e)) == b.map_values(|e: Encoding| encoding_layout(e)),
    ensures
        encodings_pairs(a) == encodings_pairs(b),
    decreases a.len(),
{
    assert(a.len() == a.map_values(|e: Encoding| encoding_layout(e)).len());
    if a.len() > 0 {
        let n = a.len() - 1;
        assert(encoding_layout(a[n]) == a.map_values(|e: Encoding| encoding_layout(e))[n]);
        assert(encoding_layout(b[n]) == b.map_values(|e: Encoding| encoding_layout(e))[n]);
        assert(a.drop_last().map_values(|e: Encoding| encoding_layout(e)) =~= a.map_values(
            |e: Encoding| encoding_layout(e),
        ).drop_last());
        assert(b.drop_last().map_values(|e: Encoding| encoding_layout(e)) =~= b.map_values(
            |e: Encoding| encoding_layout(e),
        ).drop_last());
        lemma_encodings_pairs_layout(a.drop_last(), b.drop_last());
        lemma_expand_layout(a.last().operands@, b.last().operands@, 0, a.last().base, a.last().ctor.unwrap());
    }
}

proof fn lemma_catalog_pairs_layout(a: Seq<InstrDesc>, b: Seq<InstrDesc>)
    requires
        catalog_layout(a) == catalog_layout(b),
    ensures
        catalog_pairs(a) == catalog_pairs(b),
    decreases a.len(),
{
    assert(a.len() == catalog_layout(a).len());
    if a.len() > 0 {
        let n = a.len() - 1;
        assert(desc_layout(a[n]) == catalog_layout(a)[n]);
        assert(desc_layout(b[n]) == catalog_layout(b)[n]);
        assert(catalog_layout(a.drop_last()) =~= catalog_layout(a).drop_last());
        assert(catalog_layout(b.drop_last()) =~= catalog_layout(b).drop_last());
        lemma_catalog_pairs_layout(a.drop_last(), b.drop_last());
        lemma_encodings_pairs_layout(a.last().encodings@, b.last().encodings@);
    }
}

/// The table compiled from a catalog depends on the catalog's layout alone:
/// names and descriptions play no part in it.
pub proof fn lemma_layout_determines_table(a: Seq<InstrDesc>, b: Seq<InstrDesc>, x: u16)
    requires
        catalog_layout(a) == catalog_layout(b),
    ensures
        decoded_at(a, x) == decoded_at(b, x),
{
    lemma_catalog_pairs_layout(a, b);
}

/// Encoding `e` writes a pair at opcode `x`.
pub open spec fn writes(e: Encoding, x: u16) -> bool {
    exists|k: int| 0 <= k < e.expansion().len() && (#[trigger] e.expansion()[k]).encoded == x
}

/// No encoding processed after encoding `j` of instruction `i` writes opcode `x`.
pub open spec fn unwritten_after(descs: Seq<InstrDesc>, i: int, j: int, x: u16) -> bool {
    &&& forall|j2: int|
        j < j2 < descs[i].encodings@.len() ==> !writes(#[trigger] descs[i].encodings@[j2], x)
    &&& forall|i2: int, j2: int|
        i < i2 < descs.len() && 0 <= j2 < descs[i2].encodings@.len() ==> !writes(
            #[trigger] descs[i2].encodings@[j2],
            x,
        )
}

proof fn lemma_writes_last_write(e: Encoding, x: u16)
    ensures
        writes(e, x) <==> last_write(e.expansion(), x).is_some(),
{
    if writes(e, x) {
        let k = choose|k: int| 0 <= k < e.expansion().len() && (#[trigger] e.expansion()[k]).encoded == x;
        lemma_last_write_present(e.expansion(), x, k);
    }
    if last_write(e.expansion(), x).is_some() {
        lemma_last_write_found(e.expansion(), x);
        let k = choose|k: int|
            0 <= k < e.expansion().len() && #[trigger] e.expansion()[k] == (InstructionCodecPair {
                encoded: x,
                decoded: last_write(e.expansion(), x).unwrap(),
            });
        assert(e.expansion()[k].encoded == x);
    }
}

proof fn lemma_encodings_pairs_concat(a: Seq<Encoding>, b: Seq<Encoding>)
    ensures
        encodings_pairs(a + b) == encodings_pairs(a) + encodings_pairs(b),
    decreases b.len(),
{
    if b.len() == 0 {
        assert(a + b =~= a);
        assert(encodings_pairs(a) + encodings_pairs(b) =~= encodings_pairs(a));
    } else {
        assert((a + b).drop_last() =~= a + b.drop_last());
        assert((a + b).last() == b.last());
        lemma_encodings_pairs_concat(a, b.drop_last());
        assert(encodings_pairs(a + b) =~= encodings_pairs(a) + encodings_pairs(b));
    }
}

proof fn lemma_encodings_pairs_unwritten(es: Seq<Encoding>, x: u16)
    requires
        forall|m: int| 0 <= m < es.len() ==> !writes(#[trigger] es[m], x),
    ensures
        last_write(encodings_pairs(es), x).is_none(),
    decreases es.len(),
{
    if es.len() > 0 {
        lemma_encodings_pairs_unwritten(es.drop_last(), x);
        lemma_writes_last_write(es.last(), x);
        lemma_last_write_concat(encodings_pairs(es.drop_last()), es.last().expansion(), x);
    }
}

proof fn lemma_catalog_pairs_unwritten(descs: Seq<InstrDesc>, x: u16)
    requires
        forall|m: int, n: int|
            0 <= m < descs.len() && 0 <= n < descs[m].encodings@.len() ==> !writes(
                #[trigger] descs[m].encodings@[n],
                x,
            ),
    ensures
        last_write(catalog_pairs(descs), x).is_none(),
    decreases descs.len(),
{
    if descs.len() > 0 {
        let d = descs.last();
        assert forall|n: int| 0 <= n < d.encodings@.len() implies !writes(#[trigger] d.encodings@[n], x) by {
            assert(descs[descs.len() - 1] == d);
        }
        lemma_encodings_pairs_unwritten(d.encodings@, x);
        assert forall|m: int, n: int|
            0 <= m < descs.drop_last().len() && 0 <= n < descs.drop_last()[m].encodings@.len()
                implies !writes(#[trigger] descs.drop_last()[m].encodings@[n], x) by {
            assert(descs.drop_last()[m] == descs[m]);
        }
        lemma_catalog_pairs_unwritten(descs.drop_last(), x);
        lemma_last_write_concat(catalog_pairs(descs.drop_last()), encodings_pairs(d.encodings@), x);
    }
}

/// Last write wins within a whole catalog: where encoding `j` of instruction
/// `i` writes opcode `x` and no encoding processed after it does, the
/// compiled table holds at `x` what that encoding alone writes there,
/// whatever the encodings before it write.
pub proof fn lemma_encoding_wins(descs: Seq<InstrDesc>, i: int, j: int, x: u16)
    requires
        0 <= i < descs.len(),
        0 <= j < descs[i].encodings@.len(),
        writes(descs[i].encodings@[j], x),
        unwritten_after(descs, i, j, x),
    ensures
        decoded_at(descs, x) == entry(descs[i].encodings@[j].expansion(), x),
{
    let d = descs[i];
    let es = d.encodings@;
    let e = es[j];
    let tail_es = es.subrange(j + 1, es.len() as int);
    let tail_ds = descs.subrange(i + 1, descs.len() as int);
    assert(es =~= es.take(j) + seq![e] + tail_es);
    assert(descs =~= descs.take(i) + seq![d] + tail_ds);
    lemma_encodings_pairs_concat(es.take(j) + seq![e], tail_es);
    lemma_encodings_pairs_concat(es.take(j), seq![e]);
    assert(seq![e].drop_last() =~= Seq::<Encoding>::empty());
    assert(seq![e].last() == e);
    assert(encodings_pairs(seq![e].drop_last()).len() == 0);
    assert(encodings_pairs(seq![e]) =~= e.expansion());
    lemma_catalog_pairs_concat(descs.take(i) + seq![d], tail_ds);
    lemma_catalog_pairs_concat(descs.take(i), seq![d]);
    assert(seq![d].drop_last() =~= Seq::<InstrDesc>::empty());
    assert(seq![d].last() == d);
    assert(catalog_pairs(seq![d].drop_last()).len() == 0);
    assert(catalog_pairs(seq![d]) =~= encodings_pairs(es));
    assert forall|m: int| 0 <= m < tail_es.len() implies !writes(#[trigger] tail_es[m], x) by {
        assert(tail_es[m] == es[j + 1 + m]);
    }
    lemma_encodings_pairs_unwritten(tail_es, x);
    assert forall|m: int, n: int|
        0 <= m < tail_ds.len() && 0 <= n < tail_ds[m].encodings@.len() implies !writes(
        #[trigger] tail_ds[m].encodings@[n],
        x,
    ) by {
        assert(tail_ds[m] == descs[i + 1 + m]);
    }
    lemma_catalog_pairs_unwritten(tail_ds, x);
    lemma_writes_last_write(e, x);
    let before = catalog_pairs(descs.take(i)) + encodings_pairs(es.take(j));
    lemma_last_write_concat(encodings_pairs(es.take(j)), e.expansion(), x);
    lemma_last_write_concat(encodings_pairs(es.take(j)) + e.expansion(), encodings_pairs(tail_es), x);
    lemma_last_write_concat(catalog_pairs(descs.take(i)), encodings_pairs(es), x);
    lemma_last_write_concat(catalog_pairs(descs.take(i) + seq![d]), catalog_pairs(tail_ds), x);
}

/// Round trip within a whole catalog: a legal combination of encoding `j`
/// of instruction `i`, packed into an opcode that no other combination of
/// that encoding packs and no later encoding writes, decodes in the compiled
/// table to the instruction carrying the combination, forced fields holding
/// their defaults.
pub proof fn lemma_catalog_round_trip(descs: Seq<InstrDesc>, i: int, j: int, vals: Seq<u8>)
    requires
        0 <= i < descs.len(),
        0 <= j < descs[i].encodings@.len(),
        descs[i].encodings@[j].wf(),
        descs[i].encodings@[j].fields_match(),
        descs[i].encodings@[j].legal(vals),
        forall|w: Seq<u8>|
            descs[i].encodings@[j].legal(w) && #[trigger] descs[i].encodings@[j].packed(w)
                == descs[i].encodings@[j].packed(vals) ==> w == vals,
        unwritten_after(descs, i, j, descs[i].encodings@[j].packed(vals)),
    ensures
        decoded_at(descs, descs[i].encodings@[j].packed(vals)) == descs[i].encodings@[j].filled(vals),
        forall|m: int|
            0 <= m < descs[i].encodings@[j].operands@.len() ==> descs[i].encodings@[j].filled(
                vals,
            ).field((#[trigger] descs[i].encodings@[j].operands@[m]).map.unwrap()) == Some(vals[m]),
{
    let e = descs[i].encodings@[j];
    let x = e.packed(vals);
    lemma_round_trip(e, vals);
    assert forall|k: int| 0 <= k < e.operands@.len() implies #[trigger] e.operands@[k].wf() by {
        assert(e.operands@[k].wf());
    }
    lemma_expand_complete(e.operands@, 0, e.base, e.ctor.unwrap(), vals);
    let k = choose|k: int| 0 <= k < e.expansion().len() && e.expansion()[k] == (InstructionCodecPair {
        encoded: x,
        decoded: e.filled(vals),
    });
    assert(e.expansion()[k].encoded == x);
    lemma_encoding_wins(descs, i, j, x);
}

/// A zero-operand encoding within a whole catalog writes its base pattern
/// and no other opcode; where no later encoding writes that pattern, the
/// compiled table holds its blank instruction there, wherever the encoding
/// stands in the catalog.
pub proof fn lemma_catalog_zero_operand(descs: Seq<InstrDesc>, i: int, j: int)
    requires
        0 <= i < descs.len(),
        0 <= j < descs[i].encodings@.len(),
        descs[i].encodings@[j].wf(),
        descs[i].encodings@[j].operands@.len() == 0,
        unwritten_after(descs, i, j, descs[i].encodings@[j].base),
    ensures
        decoded_at(descs, descs[i].encodings@[j].base) == descs[i].encodings@[j].ctor.unwrap(),
        forall|x: u16| #[trigger] writes(descs[i].encodings@[j], x) <==> x == descs[i].encodings@[j].base,
{
    let e = descs[i].encodings@[j];
    lemma_zero_operand_singleton(e);
    assert forall|x: u16| #[trigger] writes(e, x) <==> x == e.base by {
        lemma_writes_last_write(e, x);
    }
    lemma_writes_last_write(e, e.base);
    lemma_encoding_wins(descs, i, j, e.base);
}

} // verus!
