use vstd::prelude::*;
use crate::error::HcsError;

verus! {

/// The configuration: the store's endpoint and the named import sources.
#[derive(Debug, Clone)]
pub struct Config {
    pub hasura: Hasura,
    pub import: Vec<Import>,
}

/// The store's endpoint and its admin secret.
#[derive(Debug, Clone)]
pub struct Hasura {
    pub url: String,
    pub admin_key: String,
}

/// A named calendar feed.
#[derive(Debug, Clone)]
pub struct Import {
    pub name: String,
    pub url: String,
}

/// Whether `j` is the first position of `imports` whose name is `target`.
pub open spec fn is_first_named(imports: Seq<Import>, target: Seq<char>, j: int) -> bool {
    &&& 0 <= j < imports.len()
    &&& imports[j].name@ == target
    &&& forall|k: int| 0 <= k < j ==> (#[trigger] imports[k]).name@ != target
}

/// The first import source named `target`; an `ImportMissingKey` where none is.
pub fn find_import(import: Vec<Import>, target: String) -> (r: Result<Import, HcsError>)
    ensures
        match r {
            Ok(i) => exists|j: int| #[trigger] is_first_named(import@, target@, j) && import@[j] == i,
            Err(e) => e == HcsError::ImportMissingKey {  } && forall|k: int|
                0 <= k < import@.len() ==> (#[trigger] import@[k]).name@ != target@,
        },
{
    let mut j: usize = 0;
    while j < import.len()
        invariant
            j <= import@.len(),
            forall|k: int| 0 <= k < j ==> (#[trigger] import@[k]).name@ != target@,
        decreases import@.len() - j,
    {
        if import[j].name == target {
            let found = Import { name: import[j].name.clone(), url: import[j].url.clone() };
            assert(is_first_named(import@, target@, j as int) && import@[j as int] == found);
            return Ok(found);
        }
        j += 1;
    }
    Err(HcsError::ImportMissingKey {  })
}

} // verus!
