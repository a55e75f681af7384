//! The pinned facts about the two structural type-equivalence
//! relations.  Their asymmetry is deliberate and preserved: these laws
//! record exactly what holds, so that a change in either relation is
//! caught here.

use vstd::prelude::*;

verus! {

use crate::types::{spec_match_expected, spec_same_as, IdentV, TyKindV};

/// `Field` and `BigInt` are interchangeable under `same_as` in both
/// directions, while `match_expected` accepts only `BigInt` where
/// `Field` is expected — never the reverse.
pub proof fn lemma_field_bigint_interchangeable()
    ensures
        spec_match_expected(TyKindV::BigInt, TyKindV::Field),
        !spec_match_expected(TyKindV::Field, TyKindV::BigInt),
        spec_same_as(TyKindV::Field, TyKindV::BigInt),
        spec_same_as(TyKindV::BigInt, TyKindV::Field),
{
}

/// The size of an array type, and a placeholder for any other type.
pub open spec fn array_size_of(t: TyKindV) -> u32 {
    match t {
        TyKindV::Array(_, size) => size,
        _ => 0,
    }
}

/// Array equivalence requires exact size equality: arrays of different
/// sizes are never equivalent under either relation, whatever their
/// element types.
pub proof fn lemma_array_size_mismatch(a: TyKindV, b: TyKindV)
    requires
        a is Array,
        b is Array,
        array_size_of(a) != array_size_of(b),
    ensures
        !spec_match_expected(a, b),
        !spec_same_as(a, b),
{
}

/// When either side of a custom-type comparison omits its module, the
/// module is a wildcard: both relations reduce to name equality.
pub proof fn lemma_custom_module_wildcard(
    module: Option<IdentV>,
    name: IdentV,
    expected_module: Option<IdentV>,
    expected_name: IdentV,
)
    requires
        module is None || expected_module is None,
    ensures
        spec_match_expected(
            TyKindV::Custom { module, name },
            TyKindV::Custom { module: expected_module, name: expected_name },
        ) == (name.value == expected_name.value),
        spec_same_as(
            TyKindV::Custom { module, name },
            TyKindV::Custom { module: expected_module, name: expected_name },
        ) == (name.value == expected_name.value),
{
}

/// When both sides specify a module and the modules' names differ, the
/// custom types are not equivalent under either relation.
pub proof fn lemma_custom_module_mismatch(
    module: IdentV,
    name: IdentV,
    expected_module: IdentV,
    expected_name: IdentV,
)
    requires
        module.value != expected_module.value,
    ensures
        !spec_match_expected(
            TyKindV::Custom { module: Some(module), name },
            TyKindV::Custom { module: Some(expected_module), name: expected_name },
        ),
        !spec_same_as(
            TyKindV::Custom { module: Some(module), name },
            TyKindV::Custom { module: Some(expected_module), name: expected_name },
        ),
{
}

} // verus!
