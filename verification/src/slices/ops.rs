//! The 5 slice operations: `cir.string_constant` (a `!cir.slice<i8>` from a
//! string literal), `cir.slice_ptr` and `cir.slice_len` (the parts of a
//! slice), `cir.slice_elem` (an element by index) and `cir.array_to_slice`
//! (a range of an array as a slice).
use vstd::prelude::*;
use crate::ir::{name_key, str_eq};

verus! {

/// The 5 slice operations.
#[derive(Clone, Copy, Debug, PartialEq, Eq, Structural)]
pub enum SliceOp {
    StringConstant,
    SlicePtr,
    SliceLen,
    SliceElem,
    ArrayToSlice,
}

impl SliceOp {
    pub open spec fn spec_name(self) -> Seq<char> {
        match self {
            SliceOp::StringConstant => "cir.string_constant"@,
            SliceOp::SlicePtr => "cir.slice_ptr"@,
            SliceOp::SliceLen => "cir.slice_len"@,
            SliceOp::SliceElem => "cir.slice_elem"@,
            SliceOp::ArrayToSlice => "cir.array_to_slice"@,
        }
    }

    /// The operation's full name.
    pub fn name(self) -> (r: &'static str)
        ensures
            r@ == self.spec_name(),
    {
        match self {
            SliceOp::StringConstant => "cir.string_constant",
            SliceOp::SlicePtr => "cir.slice_ptr",
            SliceOp::SliceLen => "cir.slice_len",
            SliceOp::SliceElem => "cir.slice_elem",
            SliceOp::ArrayToSlice => "cir.array_to_slice",
        }
    }

    /// The operation named `name`, if any.
    pub open spec fn spec_from_name(name: Seq<char>) -> Option<SliceOp> {
        if name == "cir.string_constant"@ {
            Some(SliceOp::StringConstant)
        } else if name == "cir.slice_ptr"@ {
            Some(SliceOp::SlicePtr)
        } else if name == "cir.slice_len"@ {
            Some(SliceOp::SliceLen)
        } else if name == "cir.slice_elem"@ {
            Some(SliceOp::SliceElem)
        } else if name == "cir.array_to_slice"@ {
            Some(SliceOp::ArrayToSlice)
        } else {
            None
        }
    }

    /// The operation named `name`, if any.
    pub fn from_name(name: &str) -> (r: Option<SliceOp>)
        ensures
            r == SliceOp::spec_from_name(name@),
    {
        if str_eq(name, "cir.string_constant") {
            Some(SliceOp::StringConstant)
        } else if str_eq(name, "cir.slice_ptr") {
            Some(SliceOp::SlicePtr)
        } else if str_eq(name, "cir.slice_len") {
            Some(SliceOp::SliceLen)
        } else if str_eq(name, "cir.slice_elem") {
            Some(SliceOp::SliceElem)
        } else if str_eq(name, "cir.array_to_slice") {
            Some(SliceOp::ArrayToSlice)
        } else {
            None
        }
    }

    /// Every operation is found again by its name.
    pub proof fn lemma_from_name(self)
        ensures
            SliceOp::spec_from_name(self.spec_name()) == Some(self),
    {
        reveal_strlit("cir.string_constant");
        reveal_strlit("cir.slice_ptr");
        reveal_strlit("cir.slice_len");
        reveal_strlit("cir.slice_elem");
        reveal_strlit("cir.array_to_slice");
        assert(name_key("cir.string_constant"@).0 == 19);
        assert(name_key("cir.slice_ptr"@).0 == 13);
        assert(name_key("cir.slice_len"@).0 == 13);
        assert(name_key("cir.slice_elem"@).0 == 14);
        assert(name_key("cir.array_to_slice"@).0 == 18);
    }

}

} // verus!
