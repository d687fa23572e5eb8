//! Path normalization over plain components.
//!
//! A path is a sequence of components: parent references, current-directory
//! references, and normal parts. Normalization drops the current-directory
//! references and lets a parent reference consume the normal part before it,
//! leaving unmatched parent references at the front. The host glue converts
//! between this representation and its platform's path type.

use vstd::prelude::*;

verus! {

/// One component of a path.
#[derive(Debug, Clone, PartialEq, Eq, Hash)]
pub enum PathPart {
    /// A `..` component.
    ParentDir,
    /// A `.` component.
    CurDir,
    /// Any other component, the path root included.
    Normal(String),
}

/// One normalization step: what appending `part` does to an already
/// normalized prefix.
pub open spec fn norm_push(acc: Seq<PathPart>, part: PathPart) -> Seq<PathPart> {
    match part {
        PathPart::CurDir => acc,
        PathPart::ParentDir => if acc.len() > 0 && (acc.last() is Normal) {
            acc.drop_last()
        } else {
            acc.push(PathPart::ParentDir)
        },
        PathPart::Normal(s) => acc.push(PathPart::Normal(s)),
    }
}

/// The normalized form of a path, component by component from the left.
pub open spec fn norm_fold(parts: Seq<PathPart>) -> Seq<PathPart>
    decreases parts.len(),
{
    if parts.len() == 0 {
        Seq::<PathPart>::empty()
    } else {
        norm_push(norm_fold(parts.drop_last()), parts.last())
    }
}

/// The first `drop` components are parent references, the rest normal parts.
spec fn parents_then_normals(acc: Seq<PathPart>, level: int) -> bool {
    &&& 0 <= level <= acc.len()
    &&& forall|j: int| 0 <= j < acc.len() - level ==> (#[trigger] acc[j]) is ParentDir
    &&& forall|j: int| acc.len() - level <= j < acc.len() ==> (#[trigger] acc[j]) is Normal
}

/// Normalize a path.
pub fn norm_path(path: &Vec<PathPart>) -> (normal: Vec<PathPart>)
    ensures
        normal@ == norm_fold(path@),
{
    let ghost q = path@;
    let mut normal: Vec<PathPart> = Vec::new();
    let mut level: usize = 0;

    let mut i: usize = 0;
    while i < path.len()
        invariant
            i <= q.len(),
            q == path@,
            normal@ == norm_fold(q.take(i as int)),
            parents_then_normals(normal@, level as int),
            level <= normal@.len(),
            level <= i,
        decreases q.len() - i,
    {
        proof {
            assert(q.take(i + 1).drop_last() =~= q.take(i as int));
            assert(q.take(i + 1).last() == q[i as int]);
        }
        match &path[i] {
            PathPart::ParentDir => {
                if level != 0 {
                    normal.pop();
                    level = level - 1;
                } else {
                    normal.push(PathPart::ParentDir);
                }
            },
            PathPart::CurDir => {},
            PathPart::Normal(s) => {
                normal.push(PathPart::Normal(s.clone()));
                level = level + 1;
            },
        }
        i = i + 1;
    }
    proof {
        assert(q.take(q.len() as int) =~= q);
    }
    normal
}

} // verus!
