//! The tagged union type `!cir.tagged_union<"Name", "V0": T0, ...>`: a
//! discriminated union of named variants, each with a payload type, laid out
//! as `{ tag: i32, payload }`. Its name and variant names are its string
//! parameters, in that order; the payload types are its type parameters.
use vstd::prelude::*;
use crate::ir::{strings_view, ExtTypeSpec, ExtTypeView};

verus! {

/// The descriptor of `!cir.tagged_union<name, variant0: T0, ...>`.
pub open spec fn tagged_union_type_view<Ty>(name: Seq<char>, variant_names: Seq<Seq<char>>, variant_types: Seq<Ty>) -> ExtTypeView<Ty> {
    ExtTypeView {
        dialect: "cir"@,
        name: "tagged_union"@,
        int_params: Seq::empty(),
        type_params: variant_types,
        string_params: seq![name] + variant_names,
    }
}

/// The tagged_union type `!cir.tagged_union<"name", "variant0": T0, ...>`: a union whose
/// variant `i` is named `variant_names[i]` and carries a `variant_types[i]`.
pub struct TaggedUnionType<Ty> {
    pub name: String,
    pub variant_names: Vec<String>,
    pub variant_types: Vec<Ty>,
}

impl<Ty: Copy> TaggedUnionType<Ty> {
    /// The descriptor of this type: dialect `cir`, name `tagged_union`, string
    /// parameters [name, variant names...], type parameters [variant types...].
    pub fn descriptor(&self) -> (t: ExtTypeSpec<Ty>)
        ensures
            t@ == tagged_union_type_view(self.name@, strings_view(self.variant_names@), self.variant_types@),
    {
        let mut string_params: Vec<String> = vec![self.name.clone()];
        let mut i: usize = 0;
        while i < self.variant_names.len()
            invariant
                i <= self.variant_names@.len(),
                strings_view(string_params@) =~= seq![self.name@] + strings_view(
                    self.variant_names@.take(i as int),
                ),
            decreases self.variant_names@.len() - i,
        {
            let ghost before = string_params@;
            string_params.push(self.variant_names[i].clone());
            assert(strings_view(string_params@) =~= strings_view(before).push(self.variant_names@[i as int]@));
            assert(strings_view(self.variant_names@.take(i + 1)) =~= strings_view(
                self.variant_names@.take(i as int),
            ).push(self.variant_names@[i as int]@));
            i = i + 1;
        }
        assert(self.variant_names@.take(self.variant_names@.len() as int) =~= self.variant_names@);
        let mut type_params: Vec<Ty> = Vec::new();
        let mut j: usize = 0;
        while j < self.variant_types.len()
            invariant
                j <= self.variant_types@.len(),
                type_params@ =~= self.variant_types@.take(j as int),
            decreases self.variant_types@.len() - j,
        {
            type_params.push(self.variant_types[j]);
            assert(self.variant_types@.take(j + 1) =~= self.variant_types@.take(j as int).push(self.variant_types@[j as int]));
            j = j + 1;
        }
        assert(self.variant_types@.take(self.variant_types@.len() as int) =~= self.variant_types@);
        let t = ExtTypeSpec {
            dialect: "cir",
            name: "tagged_union",
            int_params: Vec::new(),
            type_params,
            string_params,
        };
        assert(t@.int_params =~= Seq::<i64>::empty());
        t
    }
}

} // verus!
