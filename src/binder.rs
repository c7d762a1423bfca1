use vstd::prelude::*;
use vstd::string::StringSliceAdditionalSpecFns;

verus! {

/// The name under which the dynamic loader looks an export up: the name's
/// bytes followed by a terminating zero.
pub open spec fn symbol_bytes(name: &str) -> Seq<u8> {
    name.spec_bytes().push(0u8)
}

/// Builds the lookup key for the exported function `name`.
pub fn symbol_name(name: &str) -> (r: Vec<u8>)
    ensures
        r@ == symbol_bytes(name),
{
    let bytes = name.as_bytes();
    let mut r: Vec<u8> = Vec::new();
    let mut i: usize = 0;
    while i < bytes.len()
        invariant
            i <= bytes@.len(),
            bytes@ == name.spec_bytes(),
            r@ == bytes@.subrange(0, i as int),
        decreases bytes@.len() - i,
    {
        r.push(bytes[i]);
        i = i + 1;
        assert(r@ =~= bytes@.subrange(0, i as int));
    }
    r.push(0u8);
    assert(r@ =~= symbol_bytes(name));
    r
}

} // verus!
