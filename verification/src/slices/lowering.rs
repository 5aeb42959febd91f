//! The decisions of the slices lowering. A slice lives in a 16-byte stack
//! slot, passed as a 64-bit pointer, laid out as `{ ptr: i64 at offset 0,
//! len: i64 at offset 8 }`.
//!
//! - `cir.string_constant`: the string's bytes in a stack slot of their
//!   size, byte `i` at offset `i`, and a slice of that slot and the byte count
//! - `cir.slice_ptr`, `cir.slice_len`: load the pointer at 0, the length at 8
//! - `cir.slice_elem`: load the element at `ptr + index * elem_size`
//! - `cir.array_to_slice`: a slice of `base + start * elem_size` and
//!   `end - start`
use vstd::prelude::*;
use vstd::string::StringSliceAdditionalSpecFns;
use crate::ir::{arg_term, str_eq, stored_at, term_at, Arg, Instr, MachineType, Store, Term};
use crate::slices::ops::SliceOp;

verus! {

/// The lowering of the slices construct.
pub struct SlicesLowering;

impl SlicesLowering {
    /// The construct's name.
    pub fn name(&self) -> (r: &'static str)
        ensures
            r@ == "slices"@,
    {
        "slices"
    }

    /// The slice operation that `name` names, which this lowering lowers;
    /// `None` for any other name, left to other lowerings.
    pub fn lower_step(&self, name: &str) -> (r: Option<SliceOp>)
        ensures
            r == SliceOp::spec_from_name(name@),
    {
        SliceOp::from_name(name)
    }

    /// The machine type of the extension type `dialect`.`name`: a 64-bit
    /// pointer for `cir.slice`; `None` for any other type, left to other
    /// lowerings.
    pub fn map_type(&self, dialect: &str, name: &str) -> (r: Option<MachineType>)
        ensures
            r == (if dialect@ == "cir"@ && name@ == "slice"@ {
                Some(MachineType::I64)
            } else {
                None
            }),
    {
        if str_eq(dialect, "cir") && str_eq(name, "slice") {
            Some(MachineType::I64)
        } else {
            None
        }
    }
}

/// The byte size of a slice's stack slot.
pub const SLICE_SIZE: u32 = 16;

/// The offset of a slice's data pointer.
pub const PTR_OFFSET: u32 = 0;

/// The offset of a slice's length.
pub const LEN_OFFSET: u32 = 8;

/// The parts of a slice.
#[derive(Clone, Copy, Debug, PartialEq, Eq, Structural)]
pub enum SlicePart {
    DataPtr,
    Len,
}

/// The stores that fill a slice's slot, in order: the data pointer at its
/// offset, then the length at its offset. `cir.string_constant` and
/// `cir.array_to_slice` both build their slice so.
pub fn slice_stores() -> (r: Vec<Store<SlicePart>>)
    ensures
        r@ == seq![
            Store { what: SlicePart::DataPtr, offset: PTR_OFFSET },
            Store { what: SlicePart::Len, offset: LEN_OFFSET },
        ],
{
    let r = vec![
        Store { what: SlicePart::DataPtr, offset: PTR_OFFSET },
        Store { what: SlicePart::Len, offset: LEN_OFFSET },
    ];
    assert(r@ =~= seq![
        Store { what: SlicePart::DataPtr, offset: PTR_OFFSET },
        Store { what: SlicePart::Len, offset: LEN_OFFSET },
    ]);
    r
}

/// Reading back a slice: `cir.slice_ptr` loads the data pointer and
/// `cir.slice_len` the length that the slice's stores wrote, and both 8-byte
/// fields lie within the slot.
pub proof fn lemma_slice_read_back()
    ensures
        stored_at(
            seq![
                Store { what: SlicePart::DataPtr, offset: PTR_OFFSET },
                Store { what: SlicePart::Len, offset: LEN_OFFSET },
            ],
            PTR_OFFSET,
        ) == Some(SlicePart::DataPtr),
        stored_at(
            seq![
                Store { what: SlicePart::DataPtr, offset: PTR_OFFSET },
                Store { what: SlicePart::Len, offset: LEN_OFFSET },
            ],
            LEN_OFFSET,
        ) == Some(SlicePart::Len),
        PTR_OFFSET + 8 <= LEN_OFFSET,
        LEN_OFFSET + 8 <= SLICE_SIZE,
{
    let s = seq![
        Store { what: SlicePart::DataPtr, offset: PTR_OFFSET },
        Store { what: SlicePart::Len, offset: LEN_OFFSET },
    ];
    assert(s.drop_last() =~= seq![Store { what: SlicePart::DataPtr, offset: PTR_OFFSET }]);
    reveal_with_fuel(stored_at, 3);
}

/// The stores of the bytes of a string into its data slot: byte `k` at
/// offset `k`.
pub open spec fn byte_stores(bytes: Seq<u8>) -> Seq<Store<u8>> {
    Seq::new(bytes.len(), |k: int| Store { what: bytes[k], offset: k as u32 })
}

/// The data of a `cir.string_constant`: the byte size of its slot, the
/// stores of its bytes and its length.
pub struct StringData {
    pub size: u32,
    pub stores: Vec<Store<u8>>,
    pub len: i64,
}

/// The data of the string constant `text`: its UTF-8 bytes, stored at their
/// indices in a slot of their count, which is also the slice's length.
pub fn string_constant_data(text: &str) -> (r: StringData)
    requires
        text.spec_bytes().len() <= u32::MAX,
    ensures
        r.size == text.spec_bytes().len(),
        r.len == text.spec_bytes().len(),
        r.stores@ == byte_stores(text.spec_bytes()),
{
    let bytes = text.as_bytes();
    let n: usize = bytes.len();
    let mut stores: Vec<Store<u8>> = Vec::new();
    let mut i: usize = 0;
    while i < n
        invariant
            n == bytes@.len(),
            bytes@ == text.spec_bytes(),
            n <= u32::MAX,
            i <= n,
            stores@ =~= byte_stores(bytes@).take(i as int),
        decreases n - i,
    {
        stores.push(Store { what: bytes[i], offset: i as u32 });
        assert(byte_stores(bytes@).take(i + 1) =~= byte_stores(bytes@).take(i as int).push(
            Store { what: bytes@[i as int], offset: i as u32 },
        ));
        i = i + 1;
    }
    assert(byte_stores(bytes@).take(n as int) =~= byte_stores(bytes@));
    StringData { size: n as u32, stores, len: n as i64 }
}

/// Reading back a string constant: the byte at offset `i` of its data slot
/// is byte `i` of the string.
pub proof fn lemma_string_bytes_read_back(bytes: Seq<u8>, i: int)
    requires
        bytes.len() <= u32::MAX,
        0 <= i < bytes.len(),
    ensures
        stored_at(byte_stores(bytes), i as u32) == Some(bytes[i]),
    decreases bytes.len(),
{
    let s = byte_stores(bytes);
    let n: int = bytes.len() as int;
    assert(s.last() == Store { what: bytes[n - 1], offset: (n - 1) as u32 });
    if i != n - 1 {
        assert(s.drop_last() =~= byte_stores(bytes.drop_last()));
        lemma_string_bytes_read_back(bytes.drop_last(), i);
    }
}

/// The byte size of the elements of a slice, for `cir.slice_elem` or
/// `cir.array_to_slice`, given the byte size of the slice type's element
/// type (`None` when it has no element type parameter, an error that names
/// the operation).
pub fn element_size(op: SliceOp, elem_size: Option<u32>) -> (r: Result<i64, String>)
    requires
        op == SliceOp::SliceElem || op == SliceOp::ArrayToSlice,
    ensures
        match elem_size {
            Some(s) => r == Ok::<i64, String>(s as i64),
            None => r matches Err(msg) && msg@ == op.spec_name() + ": missing element type"@,
        },
{
    match elem_size {
        Some(s) => Ok(s as i64),
        None => {
            let mut msg = op.name().to_owned();
            msg.append(": missing element type");
            Err(msg)
        },
    }
}

/// The element of a slice: the value, of the result type, loaded at the
/// slice's data pointer (loaded at [`PTR_OFFSET`] of operand 0, the slice)
/// moved forward by operand 1 (the index) times the element size.
pub open spec fn slice_elem_term(elem_size: int) -> Term {
    Term::LoadResult(
        Box::new(Term::PtrAdd(
            Box::new(Term::LoadI64At(Box::new(Term::Operand(0)), PTR_OFFSET)),
            Box::new(Term::Imul(Box::new(Term::Operand(1)), Box::new(Term::Const(elem_size)))),
        )),
    )
}

/// The instructions that lower `cir.slice_elem` on a slice (operand 0) and
/// an index (operand 1), given the byte size of the slice type's element
/// type: load the data pointer, scale the index by the element size, add,
/// and load the element there, which is the last instruction's value. An
/// error that names the operation when the slice type has no element type.
pub fn slice_elem_plan(elem_size: Option<u32>) -> (r: Result<Vec<Instr>, String>)
    ensures
        match elem_size {
            Some(size) => r matches Ok(p) && p@ == seq![
                Instr::LoadI64At(Arg::Operand(0), PTR_OFFSET),
                Instr::Iconst(size as i64),
                Instr::Imul(Arg::Operand(1), Arg::Step(1)),
                Instr::PtrAdd(Arg::Step(0), Arg::Step(2)),
                Instr::LoadResult(Arg::Step(3)),
            ] && term_at(p@, 4) == slice_elem_term(size as int),
            None => r matches Err(msg) && msg@ == "cir.slice_elem: missing element type"@,
        },
{
    let checked = element_size(SliceOp::SliceElem, elem_size);
    let size = match checked {
        Ok(size) => size,
        Err(msg) => {
            proof {
                reveal_strlit("cir.slice_elem");
                reveal_strlit(": missing element type");
                reveal_strlit("cir.slice_elem: missing element type");
                assert("cir.slice_elem"@ + ": missing element type"@ =~= "cir.slice_elem: missing element type"@);
            }
            return Err(msg);
        },
    };
    let p = vec![
        Instr::LoadI64At(Arg::Operand(0), PTR_OFFSET),
        Instr::Iconst(size),
        Instr::Imul(Arg::Operand(1), Arg::Step(1)),
        Instr::PtrAdd(Arg::Step(0), Arg::Step(2)),
        Instr::LoadResult(Arg::Step(3)),
    ];
    proof {
        let q = p@;
        assert(q =~= seq![
            Instr::LoadI64At(Arg::Operand(0), PTR_OFFSET),
            Instr::Iconst(size),
            Instr::Imul(Arg::Operand(1), Arg::Step(1)),
            Instr::PtrAdd(Arg::Step(0), Arg::Step(2)),
            Instr::LoadResult(Arg::Step(3)),
        ]);
        let t0 = term_at(q, 0);
        assert(t0 == Term::LoadI64At(Box::new(Term::Operand(0)), PTR_OFFSET));
        let t1 = term_at(q, 1);
        assert(t1 == Term::Const(size as int));
        let t2 = term_at(q, 2);
        assert(arg_term(q, Arg::Step(1), 2) == t1);
        assert(t2 == Term::Imul(Box::new(Term::Operand(1)), Box::new(t1)));
        let t3 = term_at(q, 3);
        assert(arg_term(q, Arg::Step(0), 3) == t0);
        assert(arg_term(q, Arg::Step(2), 3) == t2);
        assert(t3 == Term::PtrAdd(Box::new(t0), Box::new(t2)));
        assert(arg_term(q, Arg::Step(3), 4) == t3);
    }
    Ok(p)
}

/// The instructions of a lowering plan, with the steps whose values are a
/// slice's data pointer and length.
pub struct SlicePlan {
    pub instrs: Vec<Instr>,
    pub data_ptr: usize,
    pub len: usize,
}

/// The data pointer of a slice of an array: the base pointer (operand 0)
/// moved forward by the start index (operand 1) times the element size.
pub open spec fn array_slice_ptr_term(elem_size: int) -> Term {
    Term::PtrAdd(
        Box::new(Term::Operand(0)),
        Box::new(Term::Imul(Box::new(Term::Operand(1)), Box::new(Term::Const(elem_size)))),
    )
}

/// The length of a slice of an array: the end index (operand 2) minus the
/// start index (operand 1), an element count.
pub open spec fn array_slice_len_term() -> Term {
    Term::Isub(Box::new(Term::Operand(2)), Box::new(Term::Operand(1)))
}

/// The instructions that lower `cir.array_to_slice` on a base pointer
/// (operand 0), a start index (operand 1) and an end index (operand 2),
/// given the byte size of the result slice type's element type: the data
/// pointer `base + start * elem_size` and the length `end - start`, which
/// then fill a new slice by [`slice_stores`]. An error that names the
/// operation when the slice type has no element type.
pub fn array_to_slice_plan(elem_size: Option<u32>) -> (r: Result<SlicePlan, String>)
    ensures
        match elem_size {
            Some(size) => r matches Ok(p) && p.instrs@ == seq![
                Instr::Iconst(size as i64),
                Instr::Imul(Arg::Operand(1), Arg::Step(0)),
                Instr::PtrAdd(Arg::Operand(0), Arg::Step(1)),
                Instr::Isub(Arg::Operand(2), Arg::Operand(1)),
            ] && p.data_ptr == 2 && p.len == 3 && term_at(p.instrs@, 2) == array_slice_ptr_term(
                size as int,
            ) && term_at(p.instrs@, 3) == array_slice_len_term(),
            None => r matches Err(msg) && msg@ == "cir.array_to_slice: missing element type"@,
        },
{
    let checked = element_size(SliceOp::ArrayToSlice, elem_size);
    let size = match checked {
        Ok(size) => size,
        Err(msg) => {
            proof {
                reveal_strlit("cir.array_to_slice");
                reveal_strlit(": missing element type");
                reveal_strlit("cir.array_to_slice: missing element type");
                assert("cir.array_to_slice"@ + ": missing element type"@ =~= "cir.array_to_slice: missing element type"@);
            }
            return Err(msg);
        },
    };
    let instrs = vec![
        Instr::Iconst(size),
        Instr::Imul(Arg::Operand(1), Arg::Step(0)),
        Instr::PtrAdd(Arg::Operand(0), Arg::Step(1)),
        Instr::Isub(Arg::Operand(2), Arg::Operand(1)),
    ];
    proof {
        let q = instrs@;
        assert(q =~= seq![
            Instr::Iconst(size),
            Instr::Imul(Arg::Operand(1), Arg::Step(0)),
            Instr::PtrAdd(Arg::Operand(0), Arg::Step(1)),
            Instr::Isub(Arg::Operand(2), Arg::Operand(1)),
        ]);
        let t0 = term_at(q, 0);
        assert(t0 == Term::Const(size as int));
        let t1 = term_at(q, 1);
        assert(arg_term(q, Arg::Step(0), 1) == t0);
        assert(t1 == Term::Imul(Box::new(Term::Operand(1)), Box::new(t0)));
        assert(arg_term(q, Arg::Step(1), 2) == t1);
        assert(term_at(q, 3) == array_slice_len_term());
    }
    Ok(SlicePlan { instrs, data_ptr: 2, len: 3 })
}

} // verus!
