use vstd::prelude::*;
use crate::text::{has_prefix, spec_has_prefix, str_eq};

verus! {

/// A function name belongs in the generated bindings exactly when it starts
/// with the `vm_` prefix, or is the allow-listed deallocation primitive.
pub open spec fn spec_symbol_is_selected(name: Seq<char>) -> bool {
    spec_has_prefix(name, "vm_"@) || name == "free"@
}

/// Whether a function of the given name is exposed by the bindings.
pub fn symbol_is_selected(name: &str) -> (r: bool)
    ensures
        r == spec_symbol_is_selected(name@),
{
    has_prefix(name, "vm_") || str_eq(name, "free")
}

/// The subsequence of names that the bindings expose, in their order of
/// appearance.
pub open spec fn spec_selected_symbols(names: Seq<Seq<char>>) -> Seq<Seq<char>>
    decreases names.len(),
{
    if names.len() == 0 {
        Seq::empty()
    } else {
        let rest = spec_selected_symbols(names.drop_last());
        if spec_symbol_is_selected(names.last()) {
            rest.push(names.last())
        } else {
            rest
        }
    }
}

/// Filters a header's function names down to the ones the bindings expose.
pub fn selected_symbols(names: &Vec<String>) -> (r: Vec<String>)
    ensures
        crate::builder::string_views(r@) == spec_selected_symbols(
            crate::builder::string_views(names@),
        ),
{
    let ghost all = crate::builder::string_views(names@);
    let mut r: Vec<String> = Vec::new();
    let mut i: usize = 0;
    while i < names.len()
        invariant
            i <= names.len(),
            all == crate::builder::string_views(names@),
            all.len() == names@.len(),
            crate::builder::string_views(r@) == spec_selected_symbols(all.subrange(0, i as int)),
        decreases names.len() - i,
    {
        let ghost prefix = all.subrange(0, i as int);
        let ghost next_prefix = all.subrange(0, i + 1 as int);
        proof {
            assert(next_prefix.drop_last() =~= prefix);
            assert(next_prefix.last() == names@[i as int]@);
        }
        if symbol_is_selected(names[i].as_str()) {
            r.push(names[i].clone());
            proof {
                assert(crate::builder::string_views(r@) =~= spec_selected_symbols(next_prefix));
            }
        } else {
            proof {
                assert(crate::builder::string_views(r@) =~= spec_selected_symbols(next_prefix));
            }
        }
        i += 1;
    }
    proof {
        assert(all.subrange(0, names@.len() as int) =~= all);
    }
    r
}

} // verus!
