//! The register file and its fixed-layout codec.
//!
//! The register-transfer format is positional: each general-purpose register
//! in declared order, then the program counter, each as a fixed-width
//! little-endian `u64`. Serialization and deserialization are exact inverses,
//! and a byte sequence of the wrong length is rejected without mutating the
//! target register file.

use vstd::prelude::*;
use vstd::bytes::{
    lemma_auto_spec_u64_to_from_le_bytes, spec_u64_from_le_bytes, spec_u64_to_le_bytes,
    u64_from_le_bytes, u64_to_le_bytes,
};
use vstd::slice::slice_subrange;
use crate::errors::AdapterError;

verus! {

/// Number of general-purpose registers.
pub const GP_REG_COUNT: usize = 11;

/// Total serialized width: the general-purpose registers plus the program
/// counter, eight bytes each.
pub const SERIALIZED_REG_LEN: usize = 96;

/// Register ids run from 0 up to (but excluding) this limit: the
/// general-purpose registers and the program counter, with room for one
/// reserved slot.
pub const REG_ID_LIMIT: usize = 13;

/// The VM's register file: general-purpose registers plus a distinguished
/// program counter.
#[derive(Debug, Clone, Copy, Default, PartialEq)]
#[verifier::ext_equal]
pub struct BpfRegs {
    pub regs: [u64; 11],
    pub pc: u64,
}

/// The serialization of the first `n` general-purpose registers, in declared
/// order, each as eight little-endian bytes.
pub open spec fn encoded_prefix(rs: Seq<u64>, n: int) -> Seq<u8>
    decreases n,
{
    if n <= 0 {
        Seq::empty()
    } else {
        encoded_prefix(rs, n - 1) + spec_u64_to_le_bytes(rs[n - 1])
    }
}

/// The full serialized register-transfer image: every general-purpose
/// register in order, then the program counter.
pub open spec fn spec_encode(r: BpfRegs) -> Seq<u8> {
    encoded_prefix(r.regs@, GP_REG_COUNT as int) + spec_u64_to_le_bytes(r.pc)
}

proof fn lemma_encoded_prefix_len(rs: Seq<u64>, n: int)
    requires
        0 <= n,
    ensures
        encoded_prefix(rs, n).len() == 8 * n,
    decreases n,
{
    lemma_auto_spec_u64_to_from_le_bytes();
    if n > 0 {
        lemma_encoded_prefix_len(rs, n - 1);
    }
}

/// Each register's eight bytes sit at their positional offset in the prefix.
proof fn lemma_encoded_prefix_index(rs: Seq<u64>, n: int, j: int)
    requires
        0 <= j < n,
    ensures
        encoded_prefix(rs, n).subrange(8 * j, 8 * j + 8) == spec_u64_to_le_bytes(rs[j]),
    decreases n,
{
    lemma_auto_spec_u64_to_from_le_bytes();
    lemma_encoded_prefix_len(rs, n - 1);
    if j == n - 1 {
        assert(encoded_prefix(rs, n).subrange(8 * j, 8 * j + 8) =~= spec_u64_to_le_bytes(rs[j]));
    } else {
        lemma_encoded_prefix_index(rs, n - 1, j);
        assert(encoded_prefix(rs, n).subrange(8 * j, 8 * j + 8) =~= encoded_prefix(rs, n - 1)
            .subrange(8 * j, 8 * j + 8));
    }
}

/// A prefix whose registers each match the corresponding eight-byte chunk of
/// `bytes` is exactly the corresponding prefix of `bytes`.
proof fn lemma_prefix_from_chunks(rs: Seq<u64>, bytes: Seq<u8>, n: int)
    requires
        0 <= n,
        8 * n <= bytes.len(),
        forall|j: int|
            0 <= j < n ==> spec_u64_to_le_bytes(rs[j]) == bytes.subrange(8 * j, 8 * j + 8),
    ensures
        encoded_prefix(rs, n) == bytes.subrange(0, 8 * n),
    decreases n,
{
    lemma_auto_spec_u64_to_from_le_bytes();
    lemma_encoded_prefix_len(rs, n);
    if n > 0 {
        lemma_prefix_from_chunks(rs, bytes, n - 1);
        lemma_encoded_prefix_len(rs, n - 1);
        assert(encoded_prefix(rs, n) =~= bytes.subrange(0, 8 * n));
    } else {
        assert(encoded_prefix(rs, 0) =~= bytes.subrange(0, 0));
    }
}

/// The serialization is injective: two register files with the same image
/// are the same register file. Together with the codec contracts this is the
/// round-trip law: deserializing the serialization of any register file
/// restores that register file exactly.
pub proof fn lemma_encode_injective(a: BpfRegs, b: BpfRegs)
    requires
        spec_encode(a) == spec_encode(b),
    ensures
        a == b,
{
    lemma_auto_spec_u64_to_from_le_bytes();
    lemma_encoded_prefix_len(a.regs@, GP_REG_COUNT as int);
    lemma_encoded_prefix_len(b.regs@, GP_REG_COUNT as int);
    assert forall|j: int| 0 <= j < GP_REG_COUNT implies a.regs@[j] == b.regs@[j] by {
        lemma_encoded_prefix_index(a.regs@, GP_REG_COUNT as int, j);
        lemma_encoded_prefix_index(b.regs@, GP_REG_COUNT as int, j);
        assert(encoded_prefix(a.regs@, GP_REG_COUNT as int).subrange(8 * j, 8 * j + 8)
            =~= spec_encode(a).subrange(8 * j, 8 * j + 8));
        assert(encoded_prefix(b.regs@, GP_REG_COUNT as int).subrange(8 * j, 8 * j + 8)
            =~= spec_encode(b).subrange(8 * j, 8 * j + 8));
        assert(spec_u64_from_le_bytes(spec_u64_to_le_bytes(a.regs@[j])) == a.regs@[j]);
        assert(spec_u64_from_le_bytes(spec_u64_to_le_bytes(b.regs@[j])) == b.regs@[j]);
    }
    assert(spec_u64_to_le_bytes(a.pc) =~= spec_encode(a).subrange(88, 96));
    assert(spec_u64_to_le_bytes(b.pc) =~= spec_encode(b).subrange(88, 96));
    assert(spec_u64_from_le_bytes(spec_u64_to_le_bytes(a.pc)) == a.pc);
    assert(spec_u64_from_le_bytes(spec_u64_to_le_bytes(b.pc)) == b.pc);
    assert(a.regs@ =~= b.regs@);
    assert(a.regs =~= b.regs);
    assert(a =~= b);
}

impl BpfRegs {
    /// The current program counter.
    pub fn pc(&self) -> (r: u64)
        ensures
            r == self.pc,
    {
        self.pc
    }

    /// Serialize the register file into the fixed positional layout.
    pub fn gdb_serialize(&self) -> (out: Vec<u8>)
        ensures
            out@ == spec_encode(*self),
            out@.len() == SERIALIZED_REG_LEN,
    {
        proof {
            lemma_auto_spec_u64_to_from_le_bytes();
        }
        let mut out: Vec<u8> = Vec::new();
        assert(out@ =~= encoded_prefix(self.regs@, 0));
        for i in 0..GP_REG_COUNT
            invariant
                out@ == encoded_prefix(self.regs@, i as int),
                out@.len() == 8 * i,
        {
            let mut chunk = u64_to_le_bytes(self.regs[i]);
            out.append(&mut chunk);
        }
        let mut chunk = u64_to_le_bytes(self.pc);
        out.append(&mut chunk);
        out
    }

    /// Deserialize an image into this register file. A byte sequence of the
    /// wrong width is rejected with `MalformedRegisterData` and the register
    /// file is left untouched (all-or-nothing).
    pub fn gdb_deserialize(&mut self, bytes: &[u8]) -> (r: Result<(), AdapterError>)
        ensures
            bytes@.len() == SERIALIZED_REG_LEN <==> r is Ok,
            r is Ok ==> spec_encode(*final(self)) == bytes@,
            r is Err ==> r == Err::<(), AdapterError>(AdapterError::MalformedRegisterData)
                && *final(self) == *old(self),
    {
        if bytes.len() != SERIALIZED_REG_LEN {
            return Err(AdapterError::MalformedRegisterData);
        }
        let mut i: usize = 0;
        while i < GP_REG_COUNT
            invariant
                i <= GP_REG_COUNT,
                bytes@.len() == SERIALIZED_REG_LEN,
                self.pc == old(self).pc,
                forall|j: int|
                    0 <= j < i ==> self.regs@[j] == spec_u64_from_le_bytes(
                        bytes@.subrange(8 * j, 8 * j + 8),
                    ),
            decreases GP_REG_COUNT - i,
        {
            let chunk = slice_subrange(bytes, 8 * i, 8 * i + 8);
            self.regs[i] = u64_from_le_bytes(chunk);
            i = i + 1;
        }
        let chunk = slice_subrange(bytes, 88, 96);
        self.pc = u64_from_le_bytes(chunk);
        proof {
            lemma_auto_spec_u64_to_from_le_bytes();
            assert forall|j: int|
                0 <= j < GP_REG_COUNT implies spec_u64_to_le_bytes(self.regs@[j]) == bytes@
                .subrange(8 * j, 8 * j + 8) by {
                assert(self.regs@[j] == spec_u64_from_le_bytes(bytes@.subrange(8 * j, 8 * j + 8)));
            }
            lemma_prefix_from_chunks(self.regs@, bytes@, GP_REG_COUNT as int);
            assert(spec_u64_to_le_bytes(self.pc) == bytes@.subrange(88, 96));
            assert(spec_encode(*self) =~= bytes@);
        }
        Ok(())
    }
}

/// Serialize one register value: eight little-endian bytes.
pub fn encode_one(value: u64) -> (out: Vec<u8>)
    ensures
        out@ == spec_u64_to_le_bytes(value),
        out@.len() == 8,
{
    u64_to_le_bytes(value)
}

/// Deserialize one register value from exactly eight little-endian bytes;
/// any other width is malformed.
pub fn decode_one(bytes: &[u8]) -> (r: Result<u64, AdapterError>)
    ensures
        bytes@.len() == 8 ==> r == Ok::<u64, AdapterError>(spec_u64_from_le_bytes(bytes@)),
        bytes@.len() != 8 ==> r == Err::<u64, AdapterError>(AdapterError::MalformedRegisterData),
{
    if bytes.len() != 8 {
        return Err(AdapterError::MalformedRegisterData);
    }
    Ok(u64_from_le_bytes(bytes))
}

/// A protocol-level register id, validated against the architecture's
/// declared id range before any use.
#[derive(Debug, Clone, Copy, PartialEq, Eq)]
pub struct BpfRegId(pub u8);

impl BpfRegId {
    /// Parse a raw protocol id. Ids below `REG_ID_LIMIT` are valid and carry
    /// the declared register width; anything else is rejected.
    pub fn from_raw_id(id: usize) -> (r: Option<(BpfRegId, usize)>)
        ensures
            id < REG_ID_LIMIT ==> r == Some((BpfRegId(id as u8), 64usize)),
            id >= REG_ID_LIMIT ==> r is None,
    {
        if id < REG_ID_LIMIT {
            Some((BpfRegId(id as u8), 64))
        } else {
            None
        }
    }

    /// The raw id value.
    pub fn raw(self) -> (r: u8)
        ensures
            r == self.0,
    {
        self.0
    }
}

/// The kinds of software breakpoint the architecture recognizes.
#[derive(Debug, Clone, Copy, PartialEq, Eq)]
pub enum BpfBreakpointKind {
    BpfBpKindBrkpt,
}

impl BpfBreakpointKind {
    /// Parse a protocol-level breakpoint kind; only one kind is recognized.
    pub fn from_usize(kind: usize) -> (r: Option<BpfBreakpointKind>)
        ensures
            kind == 0 ==> r == Some(BpfBreakpointKind::BpfBpKindBrkpt),
            kind != 0 ==> r is None,
    {
        if kind == 0 {
            Some(BpfBreakpointKind::BpfBpKindBrkpt)
        } else {
            None
        }
    }
}

/// The architecture marker: register layout, id range and target description
/// for the VM being debugged.
pub enum Bpf {
    Bpf,
}

impl Bpf {
    /// The architecture's target-description identifier.
    pub fn target_description_xml() -> (r: Option<&'static str>)
        ensures
            r is Some,
    {
        Some(r#"<target version="1.0"><architecture>bpf</architecture></target>"#)
    }
}

} // verus!
