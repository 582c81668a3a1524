//! Resolving the paths that a source unit writes to qualified names.

use crate::defs::path::Path;
use vstd::prelude::*;

verus! {

/// The imports as plain values: each a name in scope and the path it was
/// imported as.
pub open spec fn imports_view(imports: Seq<(String, Path)>) -> Seq<(Seq<char>, Seq<Seq<char>>)> {
    imports.map_values(|entry: (String, Path)| (entry.0@, entry.1@))
}

/// The path that `name` was imported as: that of the last import of the
/// name, since a later import shadows an earlier one.
pub open spec fn imported(imports: Seq<(Seq<char>, Seq<Seq<char>>)>, name: Seq<char>) -> Option<
    Seq<Seq<char>>,
>
    decreases imports.len(),
{
    if imports.len() == 0 {
        None
    } else if imports.last().0 == name {
        Some(imports.last().1)
    } else {
        imported(imports.drop_last(), name)
    }
}

/// The qualified name that `path` stands for inside the modules
/// `modules`, outermost first. A path without segments stays as it is.
/// Else the first segment gives way to the path it was imported as, or,
/// if it was not imported, to its own name inside the modules; the other
/// segments follow.
pub open spec fn resolved(
    modules: Seq<Seq<char>>,
    imports: Seq<(Seq<char>, Seq<Seq<char>>)>,
    path: Seq<Seq<char>>,
) -> Seq<Seq<char>> {
    if path.len() == 0 {
        path
    } else {
        let rest = path.subrange(1, path.len() as int);
        match imported(imports, path[0]) {
            Some(full) => full + rest,
            None => modules.push(path[0]) + rest,
        }
    }
}

/// The index of the last import of `name`.
pub fn find_import(imports: &Vec<(String, Path)>, name: &String) -> (found: Option<usize>)
    ensures
        match found {
            Some(at) => at < imports.len() && imported(imports_view(imports@), name@) == Some(
                imports@[at as int].1@,
            ),
            None => imported(imports_view(imports@), name@) is None,
        },
{
    let ghost all = imports_view(imports@);
    let mut at: usize = imports.len();
    proof {
        assert(all.take(at as int) =~= all);
    }
    while at > 0
        invariant
            at <= imports.len(),
            all == imports_view(imports@),
            imported(all, name@) == imported(all.take(at as int), name@),
        decreases at,
    {
        proof {
            assert(all.take(at as int).drop_last() =~= all.take(at - 1));
            assert(all.take(at as int).last() == (imports@[at - 1].0@, imports@[at - 1].1@));
        }
        at -= 1;
        if imports[at].0 == *name {
            return Some(at);
        }
    }
    None
}

/// The qualified name that `path` stands for, see [`resolved`].
pub fn resolve_path(modules: &Vec<String>, imports: &Vec<(String, Path)>, path: &Path) -> (out: Path)
    ensures
        out@ == resolved(crate::model::views(modules@), imports_view(imports@), path@),
{
    if path.0.len() == 0 {
        return path.clone();
    }
    let mut segments: Vec<String> = match find_import(imports, &path.0[0]) {
        Some(at) => imports[at].1.clone().0,
        None => {
            let mut own = modules.clone();
            proof {
                assert(crate::model::views(own@) =~= crate::model::views(modules@));
            }
            let ghost copied = own@;
            let first = path.0[0].clone();
            own.push(first);
            proof {
                crate::model::views_push(copied, first);
            }
            own
        },
    };
    let ghost head = crate::model::views(segments@);
    let mut i: usize = 1;
    proof {
        assert(head + path@.subrange(1, 1) =~= head);
    }
    while i < path.0.len()
        invariant
            1 <= i <= path.0.len(),
            crate::model::views(segments@) == head + path@.subrange(1, i as int),
        decreases path.0.len() - i,
    {
        let ghost before = segments@;
        let segment = path.0[i].clone();
        segments.push(segment);
        proof {
            crate::model::views_push(before, segment);
            assert(head + path@.subrange(1, i + 1) =~= (head + path@.subrange(1, i as int)).push(
                segment@,
            ));
        }
        i += 1;
    }
    Path(segments)
}

} // verus!
