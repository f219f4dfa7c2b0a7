//! The artifacts a compilation reports, by kind.

use vstd::prelude::*;

verus! {

/// The path of the first artifact of kind `kind` among `artifacts`, given as
/// (kind, path) pairs.
pub open spec fn artifact_of(artifacts: Seq<(Seq<char>, Seq<char>)>, kind: Seq<char>) -> Option<
    Seq<char>,
>
    decreases artifacts.len(),
{
    if artifacts.len() == 0 {
        None
    } else if artifacts[0].0 == kind {
        Some(artifacts[0].1)
    } else {
        artifact_of(artifacts.drop_first(), kind)
    }
}

/// The path of the first artifact of kind `kind`, or none when the
/// compilation produced no artifact of that kind.
pub fn find_artifact(artifacts: &Vec<(String, String)>, kind: &String) -> (r: Option<String>)
    ensures
        r.deep_view() == artifact_of(artifacts.deep_view(), kind@),
{
    let n = artifacts.len();
    let mut i: usize = 0;
    assert(artifacts.deep_view().subrange(0, n as int) =~= artifacts.deep_view());
    while i < n
        invariant
            i <= n,
            n == artifacts@.len(),
            artifact_of(artifacts.deep_view(), kind@) == artifact_of(
                artifacts.deep_view().subrange(i as int, n as int),
                kind@,
            ),
        decreases n - i,
    {
        let ghost rest = artifacts.deep_view().subrange(i as int, n as int);
        assert(rest[0] == artifacts.deep_view()[i as int]);
        if artifacts[i].0 == *kind {
            return Some(artifacts[i].1.clone());
        }
        assert(rest.drop_first() =~= artifacts.deep_view().subrange(i + 1, n as int));
        i = i + 1;
    }
    None
}

} // verus!
