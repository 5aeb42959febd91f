//! The enum type `!cir.enum<"Name", TagType, "V0", "V1", ...>`: a named
//! enumeration with an integer tag type and named variants, which lowers to
//! its tag type. The name and the variant names are its string parameters,
//! in that order; the tag type is its type parameter.
use vstd::prelude::*;
use crate::ir::{strings_view, strs_to_strings, strs_view, ExtTypeSpec, ExtTypeView};

verus! {

/// The descriptor of `!cir.enum<name, tag_ty, variants...>`.
pub open spec fn enum_type_view<Ty>(name: Seq<char>, tag_ty: Ty, variants: Seq<Seq<char>>) -> ExtTypeView<Ty> {
    ExtTypeView {
        dialect: "cir"@,
        name: "enum"@,
        int_params: Seq::empty(),
        type_params: seq![tag_ty],
        string_params: seq![name] + variants,
    }
}

/// The descriptor of `!cir.enum<name, tag_ty, variants...>`: dialect `cir`,
/// name `enum`, string parameters [name, variants...], type parameters
/// [tag_ty].
pub fn enum_type<Ty>(name: &str, tag_ty: Ty, variants: &[&str]) -> (t: ExtTypeSpec<Ty>)
    ensures
        t@ == enum_type_view(name@, tag_ty, strs_view(variants@)),
{
    let mut string_params: Vec<String> = vec![name.to_owned()];
    let mut rest = strs_to_strings(variants);
    let ghost first = string_params@;
    let ghost others = rest@;
    string_params.append(&mut rest);
    assert(strings_view(string_params@) =~= seq![name@] + strs_view(variants@)) by {
        assert(string_params@ =~= first + others);
    }
    let t = ExtTypeSpec {
        dialect: "cir",
        name: "enum",
        int_params: Vec::new(),
        type_params: vec![tag_ty],
        string_params,
    };
    assert(t@.int_params =~= Seq::<i64>::empty());
    assert(t@.type_params =~= seq![tag_ty]);
    t
}

/// Enum types are equal exactly when their names, tag types and variant
/// lists are.
pub proof fn lemma_enum_type_injective<Ty>(
    n1: Seq<char>,
    t1: Ty,
    v1: Seq<Seq<char>>,
    n2: Seq<char>,
    t2: Ty,
    v2: Seq<Seq<char>>,
)
    ensures
        enum_type_view(n1, t1, v1) == enum_type_view(n2, t2, v2) <==> (n1 == n2 && t1 == t2 && v1
            == v2),
{
    if enum_type_view(n1, t1, v1) == enum_type_view(n2, t2, v2) {
        let s1 = seq![n1] + v1;
        let s2 = seq![n2] + v2;
        assert(s1[0] == n1);
        assert(s2[0] == n2);
        assert(enum_type_view(n1, t1, v1).type_params[0] == t1);
        assert(enum_type_view(n2, t2, v2).type_params[0] == t2);
        assert(v1 =~= s1.drop_first());
        assert(v2 =~= s2.drop_first());
    }
}

} // verus!
