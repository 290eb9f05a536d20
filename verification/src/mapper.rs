//! Type Mapper: the fixed table from semantic primitive type names to the
//! declaration keywords of the target language, with identity as the
//! deliberate fallback for every other name.

use vstd::prelude::*;

verus! {

/// The mapping table. Total for the six supported primitives; every other
/// name passes through unchanged, so aliases that are already valid in the
/// declaration language keep working.
pub open spec fn map_type_spec(name: Seq<char>) -> Seq<char> {
    if name == "int32"@ {
        "int32_t"@
    } else if name == "uint32"@ {
        "uint32_t"@
    } else if name == "int64"@ {
        "int64_t"@
    } else if name == "uint64"@ {
        "uint64_t"@
    } else if name == "float64"@ {
        "double"@
    } else if name == "float32"@ {
        "float"@
    } else {
        name
    }
}

/// Canonical declaration keyword for a semantic type name.
pub fn map_type(name: &str) -> (r: String)
    ensures
        r@ == map_type_spec(name@),
{
    let n: String = name.to_owned();
    if n == String::from_str("int32") {
        String::from_str("int32_t")
    } else if n == String::from_str("uint32") {
        String::from_str("uint32_t")
    } else if n == String::from_str("int64") {
        String::from_str("int64_t")
    } else if n == String::from_str("uint64") {
        String::from_str("uint64_t")
    } else if n == String::from_str("float64") {
        String::from_str("double")
    } else if n == String::from_str("float32") {
        String::from_str("float")
    } else {
        n
    }
}

/// Semantic name of a primitive as a host adapter's source language spells
/// it. Identity for every other spelling, so an unknown name flows through
/// to the identity fallback of the mapping table unchanged.
pub open spec fn semantic_type_name_spec(name: Seq<char>) -> Seq<char> {
    if name == "i32"@ {
        "int32"@
    } else if name == "u32"@ {
        "uint32"@
    } else if name == "i64"@ {
        "int64"@
    } else if name == "u64"@ {
        "uint64"@
    } else if name == "f64"@ {
        "float64"@
    } else if name == "f32"@ {
        "float32"@
    } else {
        name
    }
}

/// Canonical semantic name for a host-language primitive spelling.
pub fn semantic_type_name(name: &str) -> (r: String)
    ensures
        r@ == semantic_type_name_spec(name@),
{
    let n: String = name.to_owned();
    if n == String::from_str("i32") {
        String::from_str("int32")
    } else if n == String::from_str("u32") {
        String::from_str("uint32")
    } else if n == String::from_str("i64") {
        String::from_str("int64")
    } else if n == String::from_str("u64") {
        String::from_str("uint64")
    } else if n == String::from_str("f64") {
        String::from_str("float64")
    } else if n == String::from_str("f32") {
        String::from_str("float32")
    } else {
        n
    }
}

/// Mapping totality: each of the six supported primitive names maps to its
/// fixed keyword, and every name outside that set maps to itself.
pub proof fn lemma_map_totality()
    ensures
        map_type_spec("int32"@) == "int32_t"@,
        map_type_spec("uint32"@) == "uint32_t"@,
        map_type_spec("int64"@) == "int64_t"@,
        map_type_spec("uint64"@) == "uint64_t"@,
        map_type_spec("float64"@) == "double"@,
        map_type_spec("float32"@) == "float"@,
        forall|name: Seq<char>|
            name != "int32"@ && name != "uint32"@ && name != "int64"@ && name != "uint64"@
                && name != "float64"@ && name != "float32"@ ==> #[trigger] map_type_spec(name)
                == name,
{
    reveal_strlit("int32");
    reveal_strlit("uint32");
    reveal_strlit("int64");
    reveal_strlit("uint64");
    reveal_strlit("float64");
    reveal_strlit("float32");
    assert("uint32"@ != "int32"@) by {
        assert("uint32"@.len() != "int32"@.len());
    }
    assert("int64"@ != "int32"@) by {
        assert("int64"@[3] != "int32"@[3]);
    }
    assert("int64"@ != "uint32"@) by {
        assert("int64"@.len() != "uint32"@.len());
    }
    assert("uint64"@ != "int32"@) by {
        assert("uint64"@.len() != "int32"@.len());
    }
    assert("uint64"@ != "uint32"@) by {
        assert("uint64"@[4] != "uint32"@[4]);
    }
    assert("uint64"@ != "int64"@) by {
        assert("uint64"@.len() != "int64"@.len());
    }
    assert("float64"@ != "int32"@) by {
        assert("float64"@.len() != "int32"@.len());
    }
    assert("float64"@ != "uint32"@) by {
        assert("float64"@.len() != "uint32"@.len());
    }
    assert("float64"@ != "int64"@) by {
        assert("float64"@.len() != "int64"@.len());
    }
    assert("float64"@ != "uint64"@) by {
        assert("float64"@.len() != "uint64"@.len());
    }
    assert("float32"@ != "int32"@) by {
        assert("float32"@.len() != "int32"@.len());
    }
    assert("float32"@ != "uint32"@) by {
        assert("float32"@.len() != "uint32"@.len());
    }
    assert("float32"@ != "int64"@) by {
        assert("float32"@.len() != "int64"@.len());
    }
    assert("float32"@ != "uint64"@) by {
        assert("float32"@.len() != "uint64"@.len());
    }
    assert("float32"@ != "float64"@) by {
        assert("float32"@[5] != "float64"@[5]);
    }
}

} // verus!
