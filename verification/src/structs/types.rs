//! The struct type `!cir.struct<"Name", "field": T, ...>`: a named aggregate
//! with ordered, named fields. Its name and field names are its string
//! parameters, in that order; its field types are its type parameters.
use vstd::prelude::*;
use crate::ir::{strings_view, ExtTypeSpec, ExtTypeView};

verus! {

/// The descriptor of `!cir.struct<name, field0: T0, ...>`.
pub open spec fn struct_type_view<Ty>(name: Seq<char>, field_names: Seq<Seq<char>>, field_types: Seq<Ty>) -> ExtTypeView<Ty> {
    ExtTypeView {
        dialect: "cir"@,
        name: "struct"@,
        int_params: Seq::empty(),
        type_params: field_types,
        string_params: seq![name] + field_names,
    }
}

/// The struct type `!cir.struct<"name", "field0": T0, ...>`: a named aggregate
/// whose field `i` is named `field_names[i]` and has type `field_types[i]`.
pub struct StructType<Ty> {
    pub name: String,
    pub field_names: Vec<String>,
    pub field_types: Vec<Ty>,
}

impl<Ty: Copy> StructType<Ty> {
    /// The descriptor of this type: dialect `cir`, name `struct`, string
    /// parameters [name, field names...], type parameters [field types...].
    pub fn descriptor(&self) -> (t: ExtTypeSpec<Ty>)
        ensures
            t@ == struct_type_view(self.name@, strings_view(self.field_names@), self.field_types@),
    {
        let mut string_params: Vec<String> = vec![self.name.clone()];
        let mut i: usize = 0;
        while i < self.field_names.len()
            invariant
                i <= self.field_names@.len(),
                strings_view(string_params@) =~= seq![self.name@] + strings_view(
                    self.field_names@.take(i as int),
                ),
            decreases self.field_names@.len() - i,
        {
            let ghost before = string_params@;
            string_params.push(self.field_names[i].clone());
            assert(strings_view(string_params@) =~= strings_view(before).push(self.field_names@[i as int]@));
            assert(strings_view(self.field_names@.take(i + 1)) =~= strings_view(
                self.field_names@.take(i as int),
            ).push(self.field_names@[i as int]@));
            i = i + 1;
        }
        assert(self.field_names@.take(self.field_names@.len() as int) =~= self.field_names@);
        let mut type_params: Vec<Ty> = Vec::new();
        let mut j: usize = 0;
        while j < self.field_types.len()
            invariant
                j <= self.field_types@.len(),
                type_params@ =~= self.field_types@.take(j as int),
            decreases self.field_types@.len() - j,
        {
            type_params.push(self.field_types[j]);
            assert(self.field_types@.take(j + 1) =~= self.field_types@.take(j as int).push(self.field_types@[j as int]));
            j = j + 1;
        }
        assert(self.field_types@.take(self.field_types@.len() as int) =~= self.field_types@);
        let t = ExtTypeSpec {
            dialect: "cir",
            name: "struct",
            int_params: Vec::new(),
            type_params,
            string_params,
        };
        assert(t@.int_params =~= Seq::<i64>::empty());
        t
    }
}

} // verus!
