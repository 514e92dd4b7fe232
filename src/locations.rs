use vstd::prelude::*;

verus! {

/// The friendly name of a location signature: a few known station codes map
/// to their names, every other code stands for itself.
pub open spec fn location_name(code: Seq<char>) -> Seq<char> {
    if code == "Sk"@ {
        "Skövde"@
    } else if code == "Tu"@ {
        "Tumba"@
    } else if code == "Tul"@ {
        "Tullinge"@
    } else {
        code
    }
}

/// Resolves a location signature to its friendly name.
pub fn name(location_signature: String) -> (r: String)
    ensures
        r@ == location_name(location_signature@),
{
    if location_signature == String::from_str("Sk") {
        String::from_str("Skövde")
    } else if location_signature == String::from_str("Tu") {
        String::from_str("Tumba")
    } else if location_signature == String::from_str("Tul") {
        String::from_str("Tullinge")
    } else {
        location_signature
    }
}

} // verus!
