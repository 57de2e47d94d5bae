//! The colour schemes to choose from.

use crate::text::same_text;
use vstd::prelude::*;

verus! {

/// A colour scheme.
#[derive(Clone, Copy, PartialEq, Eq, Structural, Debug)]
pub enum Brand {
    Tropical,
    Mango,
    Ocean,
    Pitahaya,
    Papaya,
    Balandra,
}

/// The colour scheme that a name stands for: an unknown name, or none, stands for
/// `Tropical`.
pub open spec fn brand_of(name: Option<Seq<char>>) -> Brand {
    match name {
        None => Brand::Tropical,
        Some(n) => if n == "mango"@ {
            Brand::Mango
        } else if n == "ocean"@ {
            Brand::Ocean
        } else if n == "pitahaya"@ {
            Brand::Pitahaya
        } else if n == "papaya"@ {
            Brand::Papaya
        } else if n == "balandra"@ {
            Brand::Balandra
        } else {
            Brand::Tropical
        },
    }
}

/// Each colour scheme but the first has one name, and any other name, or none, stands for the
/// first.
pub proof fn each_brand_has_its_name(name: Seq<char>)
    ensures
        brand_of(Some(name)) == Brand::Mango <==> name == "mango"@,
        brand_of(Some(name)) == Brand::Ocean <==> name == "ocean"@,
        brand_of(Some(name)) == Brand::Pitahaya <==> name == "pitahaya"@,
        brand_of(Some(name)) == Brand::Papaya <==> name == "papaya"@,
        brand_of(Some(name)) == Brand::Balandra <==> name == "balandra"@,
        brand_of(None) == Brand::Tropical,
{
    reveal_strlit("mango");
    reveal_strlit("ocean");
    reveal_strlit("pitahaya");
    reveal_strlit("papaya");
    reveal_strlit("balandra");
    assert("mango"@[0] == 'm' && "ocean"@[0] == 'o' && "balandra"@[0] == 'b');
    assert("pitahaya"@[1] == 'i' && "papaya"@[1] == 'a');
    assert("pitahaya"@[0] == 'p' && "papaya"@[0] == 'p');
}

/// The colour scheme that `name` stands for.
pub fn brand_from_name(name: Option<&str>) -> (r: Brand)
    ensures
        r == brand_of(
            match name {
                Some(n) => Some(n@),
                None => None,
            },
        ),
{
    match name {
        None => Brand::Tropical,
        Some(n) => if same_text(n, "mango") {
            Brand::Mango
        } else if same_text(n, "ocean") {
            Brand::Ocean
        } else if same_text(n, "pitahaya") {
            Brand::Pitahaya
        } else if same_text(n, "papaya") {
            Brand::Papaya
        } else if same_text(n, "balandra") {
            Brand::Balandra
        } else {
            Brand::Tropical
        },
    }
}

} // verus!
