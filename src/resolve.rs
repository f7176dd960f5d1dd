use vstd::prelude::*;

verus! {

/// Resolves an editor's command-line interface.
///
/// `on_search_path` is what a lookup on the system search path found, if
/// anything: it wins over every fallback. Otherwise the first of `fallbacks`
/// whose existence probe (`exists`, one entry per fallback, in the same
/// order) succeeded is taken, and where none did nothing is found.
pub fn resolve_cli(on_search_path: Option<String>, fallbacks: &Vec<String>, exists: &Vec<bool>) -> (r:
    Option<String>)
    requires
        fallbacks.len() == exists.len(),
    ensures
        on_search_path is Some ==> r == on_search_path,
        on_search_path is None ==> match r {
            Some(p) => exists|i: int|
                0 <= i < exists.len() && exists@[i] && p@ == fallbacks@[i]@ && forall|j: int|
                    0 <= j < i ==> !exists@[j],
            None => forall|i: int| 0 <= i < exists.len() ==> !exists@[i],
        },
{
    if let Some(p) = on_search_path {
        return Some(p);
    }
    let mut i: usize = 0;
    while i < fallbacks.len()
        invariant
            fallbacks.len() == exists.len(),
            on_search_path is None,
            0 <= i <= exists.len(),
            forall|j: int| 0 <= j < i ==> !exists@[j],
        decreases fallbacks.len() - i,
    {
        if exists[i] {
            return Some(fallbacks[i].clone());
        }
        i = i + 1;
    }
    None
}

} // verus!
