use vstd::prelude::*;
use vstd::string::StringExecFns;

verus! {

/// The globals every compiled program starts with: the fully qualified core
/// path of each permanent-space singleton, paired with the bare name the
/// program refers to it by — the seven core classes and the three value
/// singletons.
pub fn default_globals() -> (r: Vec<(String, String)>)
    ensures
        r@.len() == 10,
        r@[0].0@ == "core::string::String"@ && r@[0].1@ == "String"@,
        r@[1].0@ == "core::array::Array"@ && r@[1].1@ == "Array"@,
        r@[2].0@ == "core::integer::Integer"@ && r@[2].1@ == "Integer"@,
        r@[3].0@ == "core::float::Float"@ && r@[3].1@ == "Float"@,
        r@[4].0@ == "core::object::Object"@ && r@[4].1@ == "Object"@,
        r@[5].0@ == "core::class::Class"@ && r@[5].1@ == "Class"@,
        r@[6].0@ == "core::trait::Trait"@ && r@[6].1@ == "Trait"@,
        r@[7].0@ == "core::nil::NilSingleton"@ && r@[7].1@ == "nil"@,
        r@[8].0@ == "core::boolean::TrueSingleton"@ && r@[8].1@ == "true"@,
        r@[9].0@ == "core::boolean::FalseSingleton"@ && r@[9].1@ == "false"@,
{
    let mut r: Vec<(String, String)> = Vec::new();
    r.push((String::from_str("core::string::String"), String::from_str("String")));
    r.push((String::from_str("core::array::Array"), String::from_str("Array")));
    r.push((String::from_str("core::integer::Integer"), String::from_str("Integer")));
    r.push((String::from_str("core::float::Float"), String::from_str("Float")));
    r.push((String::from_str("core::object::Object"), String::from_str("Object")));
    r.push((String::from_str("core::class::Class"), String::from_str("Class")));
    r.push((String::from_str("core::trait::Trait"), String::from_str("Trait")));
    r.push((String::from_str("core::nil::NilSingleton"), String::from_str("nil")));
    r.push((String::from_str("core::boolean::TrueSingleton"), String::from_str("true")));
    r.push((String::from_str("core::boolean::FalseSingleton"), String::from_str("false")));
    r
}

} // verus!
