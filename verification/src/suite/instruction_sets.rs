//! The catalogue of instruction probes.
//!
//! Each probe names one instruction together with the operands to load. The
//! machine executes it and hands back a [`Reading`]; the functions here decide
//! whether that reading is what the reference computation asks for.

use vstd::arithmetic::power2::lemma2_to64;
use vstd::prelude::*;

use crate::suite::reference::{
    bit_and, bit_or, bit_xor, carry_flag, carry_flag_set, difference, high_half, high_word,
    low_half, low_word, product, quotient_and_remainder, shift_left, shifted_left, sum,
    wide_product, wrapped_difference, wrapped_sum, zero_flag, zero_flag_set,
};

verus! {

/// Length in bytes of the buffers of the string-move probe.
pub const BLOCK_LEN: usize = 4;

/// The architecture family of a host, as far as the catalogue cares: every
/// probe is written for one instruction encoding of x86-64.
#[derive(Clone, Copy, Debug, PartialEq, Eq, Structural)]
pub enum Architecture {
    X86_64,
    Other,
}

/// An instruction under test, with the operands the probe loads.
#[derive(Clone, Copy, Debug, PartialEq, Eq)]
pub enum Probe {
    /// 32-bit addition of `a` and `b`.
    Add { a: u32, b: u32 },
    /// 32-bit subtraction of `b` from `a`.
    Sub { a: u32, b: u32 },
    /// Unsigned multiplication of `a` by `b` into a 64-bit result.
    Mul { a: u32, b: u32 },
    /// Unsigned division of `dividend` by `divisor`.
    Div { dividend: u32, divisor: u32 },
    /// Bitwise AND of `a` and `b`.
    And { a: u32, b: u32 },
    /// Bitwise OR of `a` and `b`.
    Or { a: u32, b: u32 },
    /// Bitwise XOR of `a` and `b`.
    Xor { a: u32, b: u32 },
    /// Left shift of `value` by `count` bits.
    Shl { value: u32, count: u8 },
    /// Comparison of `a` with `b`, read back through the zero flag.
    Compare { a: u32, b: u32 },
    /// Logical comparison (AND without result) of `a` with `b`, read back
    /// through the zero flag.
    Test { a: u32, b: u32 },
    /// Block copy of `source` into a zeroed destination buffer.
    MoveString { source: [u8; BLOCK_LEN] },
    /// Set-carry followed by clear-carry, the flags read back after each.
    CarryFlag,
}

/// What the machine handed back after executing a probe.
#[derive(Clone, Copy, Debug, PartialEq, Eq)]
pub enum Reading {
    /// The result register of an arithmetic, logic or shift instruction.
    Register(u32),
    /// The two result registers of a multiplication.
    Product { low: u32, high: u32 },
    /// The two result registers of a division.
    Division { quotient: u32, remainder: u32 },
    /// The flags word after a comparison.
    Flags(u64),
    /// The flags words after setting and after clearing the carry flag.
    CarryFlags { after_set: u64, after_clear: u64 },
    /// The destination buffer after a block copy.
    Buffer([u8; BLOCK_LEN]),
}

/// ADD: the register has to hold the wrapped sum of the operands.
pub fn test_add(a: u32, b: u32, result: u32) -> (pass: bool)
    ensures
        pass == (result == wrapped_sum(a, b)),
{
    result == sum(a, b)
}

/// SUB: the register has to hold the wrapped difference of the operands.
pub fn test_sub(a: u32, b: u32, result: u32) -> (pass: bool)
    ensures
        pass == (result == wrapped_difference(a, b)),
{
    result == difference(a, b)
}

/// MUL: the two result registers have to hold the low and the high half of
/// the 64-bit product.
pub fn test_mul(a: u32, b: u32, result_low: u32, result_high: u32) -> (pass: bool)
    ensures
        pass == {
            &&& result_low == low_half(wide_product(a, b))
            &&& result_high == high_half(wide_product(a, b))
        },
{
    let expected: u64 = product(a, b);
    result_low == low_word(expected) && result_high == high_word(expected)
}

/// DIV: quotient and remainder both have to match. With a zero divisor the
/// instruction faults, so no reading can be right.
pub fn test_div(dividend: u32, divisor: u32, quotient: u32, remainder: u32) -> (pass: bool)
    ensures
        pass == {
            &&& divisor != 0
            &&& quotient == dividend as int / divisor as int
            &&& remainder == dividend as int % divisor as int
        },
{
    match quotient_and_remainder(dividend, divisor) {
        Some((expected_quotient, expected_remainder)) => {
            quotient == expected_quotient && remainder == expected_remainder
        },
        None => false,
    }
}

/// AND: the register has to hold the bitwise AND of the operands.
pub fn test_and(a: u32, b: u32, result: u32) -> (pass: bool)
    ensures
        pass == (result == a & b),
{
    result == bit_and(a, b)
}

/// OR: the register has to hold the bitwise OR of the operands.
pub fn test_or(a: u32, b: u32, result: u32) -> (pass: bool)
    ensures
        pass == (result == a | b),
{
    result == bit_or(a, b)
}

/// XOR: the register has to hold the bitwise XOR of the operands.
pub fn test_xor(a: u32, b: u32, result: u32) -> (pass: bool)
    ensures
        pass == (result == a ^ b),
{
    result == bit_xor(a, b)
}

/// SHL: the register has to hold the operand shifted left by the count.
pub fn test_shl(a: u32, count: u8, result: u32) -> (pass: bool)
    ensures
        pass == (result == shifted_left(a, count)),
{
    result == shift_left(a, count)
}

/// CMP: the zero flag has to be set exactly when the operands are equal.
pub fn test_cmp(a: u32, b: u32, flags: u64) -> (pass: bool)
    ensures
        pass == (zero_flag(flags) == (a == b)),
{
    zero_flag_set(flags) == (a == b)
}

/// TEST: the zero flag has to be set exactly when the operands share no set
/// bit.
pub fn test_test(a: u32, b: u32, flags: u64) -> (pass: bool)
    ensures
        pass == (zero_flag(flags) == (a & b == 0)),
{
    zero_flag_set(flags) == (bit_and(a, b) == 0)
}

/// MOVS: the destination buffer has to equal the source buffer byte for byte.
pub fn test_movs(source: &[u8; BLOCK_LEN], destination: &[u8; BLOCK_LEN]) -> (pass: bool)
    ensures
        pass == (destination@ == source@),
{
    let mut i: usize = 0;
    while i < BLOCK_LEN
        invariant
            i <= BLOCK_LEN,
            forall|j: int| 0 <= j < i ==> destination@[j] == source@[j],
        decreases BLOCK_LEN - i,
    {
        if destination[i] != source[i] {
            return false;
        }
        i += 1;
    }
    assert(destination@ =~= source@);
    true
}

/// FLAGS: the carry flag has to be set after set-carry and clear after
/// clear-carry.
pub fn test_flags(flags_after_stc: u64, flags_after_clc: u64) -> (pass: bool)
    ensures
        pass == (carry_flag(flags_after_stc) && !carry_flag(flags_after_clc)),
{
    carry_flag_set(flags_after_stc) && !carry_flag_set(flags_after_clc)
}

impl Probe {
    /// Whether `reading` is what a correct machine hands back for this probe:
    /// it has the shape the instruction produces and agrees with the reference
    /// computation on the probe's own operands.
    pub open spec fn confirmed_by(self, reading: Reading) -> bool {
        match (self, reading) {
            (Probe::Add { a, b }, Reading::Register(result)) => result == wrapped_sum(a, b),
            (Probe::Sub { a, b }, Reading::Register(result)) => result == wrapped_difference(a, b),
            (Probe::Mul { a, b }, Reading::Product { low, high }) => {
                &&& low == low_half(wide_product(a, b))
                &&& high == high_half(wide_product(a, b))
            },
            (Probe::Div { dividend, divisor }, Reading::Division { quotient, remainder }) => {
                &&& divisor != 0
                &&& quotient == dividend as int / divisor as int
                &&& remainder == dividend as int % divisor as int
            },
            (Probe::And { a, b }, Reading::Register(result)) => result == a & b,
            (Probe::Or { a, b }, Reading::Register(result)) => result == a | b,
            (Probe::Xor { a, b }, Reading::Register(result)) => result == a ^ b,
            (Probe::Shl { value, count }, Reading::Register(result)) => {
                result == shifted_left(value, count)
            },
            (Probe::Compare { a, b }, Reading::Flags(flags)) => zero_flag(flags) == (a == b),
            (Probe::Test { a, b }, Reading::Flags(flags)) => zero_flag(flags) == (a & b == 0),
            (Probe::MoveString { source }, Reading::Buffer(destination)) => {
                destination@ == source@
            },
            (Probe::CarryFlag, Reading::CarryFlags { after_set, after_clear }) => {
                carry_flag(after_set) && !carry_flag(after_clear)
            },
            _ => false,
        }
    }

    /// Whether a host of the given architecture can execute this probe.
    pub open spec fn spec_runs_on(self, architecture: Architecture) -> bool {
        architecture == Architecture::X86_64
    }

    /// Whether a host of the given architecture can execute this probe.
    #[verifier::when_used_as_spec(spec_runs_on)]
    pub fn runs_on(self, architecture: Architecture) -> (runs: bool)
        ensures
            runs == self.spec_runs_on(architecture),
    {
        architecture == Architecture::X86_64
    }

    /// Compares what the machine handed back against the reference computation
    /// on the probe's operands. A reading of another shape than the instruction
    /// produces never passes.
    pub fn check(self, reading: Reading) -> (pass: bool)
        ensures
            pass == self.confirmed_by(reading),
    {
        match (self, reading) {
            (Probe::Add { a, b }, Reading::Register(result)) => test_add(a, b, result),
            (Probe::Sub { a, b }, Reading::Register(result)) => test_sub(a, b, result),
            (Probe::Mul { a, b }, Reading::Product { low, high }) => test_mul(a, b, low, high),
            (Probe::Div { dividend, divisor }, Reading::Division { quotient, remainder }) => {
                test_div(dividend, divisor, quotient, remainder)
            },
            (Probe::And { a, b }, Reading::Register(result)) => test_and(a, b, result),
            (Probe::Or { a, b }, Reading::Register(result)) => test_or(a, b, result),
            (Probe::Xor { a, b }, Reading::Register(result)) => test_xor(a, b, result),
            (Probe::Shl { value, count }, Reading::Register(result)) => {
                test_shl(value, count, result)
            },
            (Probe::Compare { a, b }, Reading::Flags(flags)) => test_cmp(a, b, flags),
            (Probe::Test { a, b }, Reading::Flags(flags)) => test_test(a, b, flags),
            (Probe::MoveString { source }, Reading::Buffer(destination)) => {
                test_movs(&source, &destination)
            },
            (Probe::CarryFlag, Reading::CarryFlags { after_set, after_clear }) => {
                test_flags(after_set, after_clear)
            },
            _ => false,
        }
    }
}

/// An arithmetic probe passes on one reading only: the one that the reference
/// computation gives for the operands that the probe itself carries. A
/// division by zero passes on none.
pub proof fn lemma_arithmetic_probes_follow_reference(a: u32, b: u32, reading: Reading)
    ensures
        (Probe::Add { a, b }).confirmed_by(reading) <==> {
            reading == Reading::Register(wrapped_sum(a, b) as u32)
        },
        (Probe::Sub { a, b }).confirmed_by(reading) <==> {
            reading == Reading::Register(wrapped_difference(a, b) as u32)
        },
        (Probe::Mul { a, b }).confirmed_by(reading) <==> {
            reading == (Reading::Product {
                low: low_half(wide_product(a, b)) as u32,
                high: high_half(wide_product(a, b)) as u32,
            })
        },
        (Probe::Div { dividend: a, divisor: b }).confirmed_by(reading) <==> {
            &&& b != 0
            &&& reading == (Reading::Division {
                quotient: (a as int / b as int) as u32,
                remainder: (a as int % b as int) as u32,
            })
        },
{
    assert(0 <= wide_product(a, b) <= 0xFFFF_FFFF * 0xFFFF_FFFF) by (nonlinear_arith)
        requires
            0 <= a <= 0xFFFF_FFFF,
            0 <= b <= 0xFFFF_FFFF,
    ;
    if b != 0 {
        assert(0 <= a as int / b as int <= a) by (nonlinear_arith)
            requires
                0 <= a,
                0 < b,
        ;
    }
}

/// One entry of the catalogue: a probe under a unique, stable name, with a
/// description for the reader.
#[derive(Debug, PartialEq, Eq)]
pub struct InstructionSet {
    pub name: String,
    pub description: String,
    pub probe: Probe,
}

/// What a catalogue entry holds, as mathematical values.
pub struct CatalogueEntry {
    pub name: Seq<char>,
    pub description: Seq<char>,
    pub probe: Probe,
}

impl View for InstructionSet {
    type V = CatalogueEntry;

    open spec fn view(&self) -> CatalogueEntry {
        CatalogueEntry { name: self.name@, description: self.description@, probe: self.probe }
    }
}

impl Clone for InstructionSet {
    fn clone(&self) -> (copy: InstructionSet)
        ensures
            copy@ == self@,
    {
        InstructionSet {
            name: self.name.clone(),
            description: self.description.clone(),
            probe: self.probe,
        }
    }
}

impl InstructionSet {
    /// A catalogue entry for `probe` under the given name and description.
    pub fn new(name: &str, description: &str, probe: Probe) -> (set: InstructionSet)
        ensures
            set@ == (CatalogueEntry { name: name@, description: description@, probe }),
    {
        InstructionSet { name: name.to_owned(), description: description.to_owned(), probe }
    }
}

/// The entries of a catalogue, in order.
pub open spec fn entries(catalogue: Seq<InstructionSet>) -> Seq<CatalogueEntry> {
    catalogue.map_values(|set: InstructionSet| set@)
}

/// No two entries carry the same name.
pub open spec fn names_distinct(catalogue: Seq<CatalogueEntry>) -> bool {
    forall|i: int, j: int|
        0 <= i < j < catalogue.len() ==> {
            #[trigger] catalogue[i].name != #[trigger] catalogue[j].name
        }
}

/// Tells whether no two entries of `sets` carry the same name.
pub fn has_distinct_names(sets: &Vec<InstructionSet>) -> (distinct: bool)
    ensures
        distinct == names_distinct(entries(sets@)),
{
    let ghost catalogue = entries(sets@);
    let mut i: usize = 0;
    while i < sets.len()
        invariant
            i <= sets.len(),
            catalogue == entries(sets@),
            forall|a: int, b: int|
                0 <= a < b < catalogue.len() && a < i ==> {
                    #[trigger] catalogue[a].name != #[trigger] catalogue[b].name
                },
        decreases sets.len() - i,
    {
        let mut j: usize = i + 1;
        while j < sets.len()
            invariant
                i < j <= sets.len(),
                catalogue == entries(sets@),
                forall|b: int|
                    i < b < j ==> catalogue[i as int].name != (#[trigger] catalogue[b]).name,
            decreases sets.len() - j,
        {
            if sets[i].name == sets[j].name {
                assert(catalogue[i as int].name == catalogue[j as int].name);
                return false;
            }
            j += 1;
        }
        i += 1;
    }
    true
}

/// The catalogue of probes: twelve instructions with fixed operands, in the
/// order in which they run.
pub open spec fn standard_catalogue() -> Seq<CatalogueEntry> {
    seq![
        CatalogueEntry {
            name: "ADD"@,
            description: "Basic integer addition"@,
            probe: Probe::Add { a: 10, b: 20 },
        },
        CatalogueEntry {
            name: "SUB"@,
            description: "Basic integer subtraction"@,
            probe: Probe::Sub { a: 30, b: 20 },
        },
        CatalogueEntry {
            name: "MUL"@,
            description: "Unsigned multiplication"@,
            probe: Probe::Mul { a: 100, b: 200 },
        },
        CatalogueEntry {
            name: "DIV"@,
            description: "Unsigned division"@,
            probe: Probe::Div { dividend: 100, divisor: 3 },
        },
        CatalogueEntry {
            name: "AND"@,
            description: "Logical AND operation"@,
            probe: Probe::And { a: 0xFF00, b: 0x0FF0 },
        },
        CatalogueEntry {
            name: "OR"@,
            description: "Logical OR operation"@,
            probe: Probe::Or { a: 0xFF00, b: 0x0FF0 },
        },
        CatalogueEntry {
            name: "XOR"@,
            description: "Logical XOR operation"@,
            probe: Probe::Xor { a: 0xFF00, b: 0x0FF0 },
        },
        CatalogueEntry {
            name: "SHL"@,
            description: "Shift left"@,
            probe: Probe::Shl { value: 0x1, count: 4 },
        },
        CatalogueEntry {
            name: "CMP"@,
            description: "Compare two values"@,
            probe: Probe::Compare { a: 20, b: 20 },
        },
        CatalogueEntry {
            name: "TEST"@,
            description: "Logical compare"@,
            probe: Probe::Test { a: 0xFF00, b: 0x0F00 },
        },
        CatalogueEntry {
            name: "MOVS"@,
            description: "Move string"@,
            probe: Probe::MoveString { source: [1, 2, 3, 4] },
        },
        CatalogueEntry {
            name: "FLAGS"@,
            description: "Flags operations (STC/CLC)"@,
            probe: Probe::CarryFlag,
        },
    ]
}

/// The names of the catalogue are pairwise different.
pub proof fn lemma_standard_names_distinct()
    ensures
        names_distinct(standard_catalogue()),
{
    reveal_strlit("ADD");
    reveal_strlit("SUB");
    reveal_strlit("MUL");
    reveal_strlit("DIV");
    reveal_strlit("AND");
    reveal_strlit("OR");
    reveal_strlit("XOR");
    reveal_strlit("SHL");
    reveal_strlit("CMP");
    reveal_strlit("TEST");
    reveal_strlit("MOVS");
    reveal_strlit("FLAGS");
    let catalogue = standard_catalogue();
    assert forall|i: int, j: int| 0 <= i < j < catalogue.len() implies {
        #[trigger] catalogue[i].name != #[trigger] catalogue[j].name
    } by {
        let first = catalogue[i].name;
        let second = catalogue[j].name;
        // Two names of the catalogue differ in length or in one of their
        // first two letters.
        assert(first.len() != second.len() || first[0] != second[0] || first[1] != second[1]);
    }
}

/// The probe at `position` of the catalogue passes on the reading `expected`
/// and on no other.
pub open spec fn passes_only_on(position: int, expected: Reading) -> bool {
    forall|reading: Reading| #[trigger]
        standard_catalogue()[position].probe.confirmed_by(reading) <==> reading == expected
}

/// What each probe of the catalogue asks of the machine, worked out from its
/// operands. The arithmetic, logic, shift and string probes each pass on one
/// reading only. The comparison probes pass on a flags word by its zero flag
/// alone, the carry probe on its two flags words by their carry flags alone.
pub proof fn lemma_catalogue_expectations()
    ensures
        passes_only_on(0, Reading::Register(30)),
        passes_only_on(1, Reading::Register(10)),
        passes_only_on(2, (Reading::Product { low: 20000, high: 0 })),
        passes_only_on(3, (Reading::Division { quotient: 33, remainder: 1 })),
        passes_only_on(4, Reading::Register(0x0F00)),
        passes_only_on(5, Reading::Register(0xFFF0)),
        passes_only_on(6, Reading::Register(0xF0F0)),
        passes_only_on(7, Reading::Register(0x10)),
        forall|flags: u64| #[trigger]
            standard_catalogue()[8].probe.confirmed_by(Reading::Flags(flags)) <==> {
                zero_flag(flags)
            },
        forall|flags: u64| #[trigger]
            standard_catalogue()[9].probe.confirmed_by(Reading::Flags(flags)) <==> {
                !zero_flag(flags)
            },
        passes_only_on(10, Reading::Buffer([1, 2, 3, 4])),
        forall|after_set: u64, after_clear: u64| #[trigger]
            standard_catalogue()[11].probe.confirmed_by(
                (Reading::CarryFlags { after_set, after_clear }),
            ) <==> {
                carry_flag(after_set) && !carry_flag(after_clear)
            },
{
    assert(100int / 3int == 33 && 100int % 3int == 1);
    assert(0xFF00u32 & 0x0FF0u32 == 0x0F00u32) by (bit_vector);
    assert(0xFF00u32 | 0x0FF0u32 == 0xFFF0u32) by (bit_vector);
    assert(0xFF00u32 ^ 0x0FF0u32 == 0xF0F0u32) by (bit_vector);
    assert(0xFF00u32 & 0x0F00u32 != 0u32) by (bit_vector);
    assert(shifted_left(0x1, 4) == 0x10) by {
        lemma2_to64();
    }
    let source: [u8; BLOCK_LEN] = [1, 2, 3, 4];
    assert forall|reading: Reading| #[trigger]
        standard_catalogue()[10].probe.confirmed_by(reading) <==> {
            reading == Reading::Buffer(source)
        } by {
        if let Reading::Buffer(destination) = reading {
            if destination@ == source@ {
                assert(destination =~= source);
            }
        }
    }
}

/// Builds the catalogue. Every call gives the same twelve probes in the same
/// order, under twelve different names.
pub fn get_instruction_sets() -> (sets: Vec<InstructionSet>)
    ensures
        sets@.len() == 12,
        entries(sets@) == standard_catalogue(),
        names_distinct(entries(sets@)),
{
    let mut sets: Vec<InstructionSet> = Vec::new();
    // Arithmetic instructions
    sets.push(
        InstructionSet::new("ADD", "Basic integer addition", Probe::Add { a: 10, b: 20 }),
    );
    sets.push(
        InstructionSet::new("SUB", "Basic integer subtraction", Probe::Sub { a: 30, b: 20 }),
    );
    sets.push(
        InstructionSet::new("MUL", "Unsigned multiplication", Probe::Mul { a: 100, b: 200 }),
    );
    sets.push(
        InstructionSet::new("DIV", "Unsigned division", Probe::Div { dividend: 100, divisor: 3 }),
    );
    // Logical operation instructions
    sets.push(
        InstructionSet::new("AND", "Logical AND operation", Probe::And { a: 0xFF00, b: 0x0FF0 }),
    );
    sets.push(
        InstructionSet::new("OR", "Logical OR operation", Probe::Or { a: 0xFF00, b: 0x0FF0 }),
    );
    sets.push(
        InstructionSet::new("XOR", "Logical XOR operation", Probe::Xor { a: 0xFF00, b: 0x0FF0 }),
    );
    // Shift instructions
    sets.push(InstructionSet::new("SHL", "Shift left", Probe::Shl { value: 0x1, count: 4 }));
    // Compare instructions
    sets.push(
        InstructionSet::new("CMP", "Compare two values", Probe::Compare { a: 20, b: 20 }),
    );
    sets.push(
        InstructionSet::new("TEST", "Logical compare", Probe::Test { a: 0xFF00, b: 0x0F00 }),
    );
    // String operation instructions
    sets.push(
        InstructionSet::new("MOVS", "Move string", Probe::MoveString { source: [1, 2, 3, 4] }),
    );
    // Flag operation instructions
    sets.push(InstructionSet::new("FLAGS", "Flags operations (STC/CLC)", Probe::CarryFlag));
    proof {
        assert(entries(sets@) =~= standard_catalogue());
        lemma_standard_names_distinct();
    }
    sets
}

/// The test that keeps the catalogue entries a host of the given architecture
/// can execute.
pub open spec fn runs_on_host(architecture: Architecture) -> spec_fn(CatalogueEntry) -> bool {
    |entry: CatalogueEntry| entry.probe.spec_runs_on(architecture)
}

/// Builds the catalogue for a host of the given architecture: the probes of
/// `get_instruction_sets` that the host can execute, in the same order. A
/// probe that the host cannot execute is left out, not reported as failing.
pub fn get_instruction_sets_for(architecture: Architecture) -> (sets: Vec<InstructionSet>)
    ensures
        entries(sets@) == standard_catalogue().filter(runs_on_host(architecture)),
        architecture == Architecture::X86_64 ==> entries(sets@) == standard_catalogue(),
        architecture != Architecture::X86_64 ==> sets@.len() == 0,
        names_distinct(entries(sets@)),
{
    let all = get_instruction_sets();
    let ghost full = entries(all@);
    // `origin[m]` is the place in the full catalogue of the entry kept at `m`.
    let ghost mut origin: Seq<int> = Seq::empty();
    let mut sets: Vec<InstructionSet> = Vec::new();
    let mut i: usize = 0;
    proof {
        reveal(Seq::filter);
        assert(full.take(0) =~= Seq::<CatalogueEntry>::empty());
        assert(entries(sets@) =~= full.take(0).filter(runs_on_host(architecture)));
    }
    while i < all.len()
        invariant
            i <= all.len(),
            full == entries(all@),
            names_distinct(full),
            entries(sets@) == full.take(i as int).filter(runs_on_host(architecture)),
            architecture == Architecture::X86_64 ==> entries(sets@) == full.take(i as int),
            architecture != Architecture::X86_64 ==> sets@.len() == 0,
            origin.len() == sets@.len(),
            forall|m: int| 0 <= m < origin.len() ==> 0 <= #[trigger] origin[m] < i,
            forall|m: int, n: int| 0 <= m < n < origin.len() ==> origin[m] < origin[n],
            forall|m: int|
                0 <= m < origin.len() ==> entries(sets@)[m] == full[#[trigger] origin[m]],
        decreases all.len() - i,
    {
        let ghost kept = entries(sets@);
        proof {
            reveal(Seq::filter);
            assert(full.take(i as int + 1).drop_last() =~= full.take(i as int));
            assert(full.take(i as int + 1).last() == full[i as int]);
        }
        if all[i].probe.runs_on(architecture) {
            sets.push(all[i].clone());
            proof {
                origin = origin.push(i as int);
                assert(entries(sets@) =~= kept.push(full[i as int]));
                assert(full.take(i as int + 1) =~= full.take(i as int).push(full[i as int]));
            }
        }
        i += 1;
    }
    proof {
        assert(full.take(all@.len() as int) =~= full);
        let kept = entries(sets@);
        assert forall|m: int, n: int| 0 <= m < n < kept.len() implies {
            #[trigger] kept[m].name != #[trigger] kept[n].name
        } by {
            assert(full[origin[m]].name != full[origin[n]].name);
        }
    }
    sets
}

} // verus!
