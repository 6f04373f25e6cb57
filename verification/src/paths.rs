//! Unix paths as byte strings.

use vstd::prelude::*;

verus! {

/// What parts the components of a path.
pub const SLASH: u8 = 0x2f;

/// Whether a path starts at the root.
pub open spec fn is_absolute(path: Seq<u8>) -> bool {
    path.len() > 0 && path[0] == SLASH
}

/// The path `name` taken relative to the directory `dir`. An absolute `name` stands for itself.
/// Otherwise the two are put together with one slash between them, unless `dir` is empty or ends
/// in a slash already.
pub open spec fn joined(dir: Seq<u8>, name: Seq<u8>) -> Seq<u8> {
    if is_absolute(name) {
        name
    } else if dir.len() > 0 && dir.last() != SLASH {
        dir.push(SLASH) + name
    } else {
        dir + name
    }
}

/// Puts `name` below the directory `dir`, as `std::path::Path::join` does.
pub fn join(dir: &[u8], name: &[u8]) -> (result: Vec<u8>)
    ensures
        result@ == joined(dir@, name@),
{
    let mut path: Vec<u8> = Vec::new();
    if name.len() == 0 || name[0] != SLASH {
        path.extend_from_slice(dir);
        assert(path@ =~= dir@);
        if dir.len() > 0 && dir[dir.len() - 1] != SLASH {
            path.push(SLASH);
        }
    }
    let ghost before = path@;
    path.extend_from_slice(name);
    assert(path@ =~= before + name@);
    path
}

/// Different names below one directory have different paths, unless one of the names is absolute
/// and itself the path of the other one.
pub proof fn law_joined_apart(dir: Seq<u8>, first: Seq<u8>, second: Seq<u8>)
    requires
        first != second,
        is_absolute(first) ==> first != joined(dir, second),
        is_absolute(second) ==> second != joined(dir, first),
    ensures
        joined(dir, first) != joined(dir, second),
{
    let base = if dir.len() > 0 && dir.last() != SLASH {
        dir.push(SLASH)
    } else {
        dir
    };
    let a = joined(dir, first);
    let b = joined(dir, second);
    if a == b && !is_absolute(first) && !is_absolute(second) {
        assert(a == base + first);
        assert(b == base + second);
        assert(first =~= a.skip(base.len() as int));
        assert(second =~= b.skip(base.len() as int));
    }
}

/// A relative name is put below its directory: the path starts with the directory and ends in the
/// name, and between the two is one slash, which the directory may bring along. An empty directory
/// adds nothing, and an absolute name is the path itself.
pub proof fn law_joined_is_below(dir: Seq<u8>, name: Seq<u8>)
    ensures
        name.len() > 0 && name[0] == 0x2f ==> joined(dir, name) == name,
        name.len() == 0 || name[0] != 0x2f ==> {
            let path = joined(dir, name);
            let rest = path.len() - name.len();
            &&& dir.is_prefix_of(path)
            &&& name.is_suffix_of(path)
            &&& dir.len() == 0 ==> rest == 0
            &&& dir.len() > 0 ==> path[rest - 1] == 0x2f
            &&& dir.len() > 0 && dir.last() == 0x2f ==> rest == dir.len()
            &&& dir.len() > 0 && dir.last() != 0x2f ==> rest == dir.len() + 1
        },
{
    let path = joined(dir, name);
    if name.len() == 0 || name[0] != 0x2f {
        let rest = path.len() - name.len();
        assert(dir =~= path.subrange(0, dir.len() as int));
        assert(name =~= path.subrange(rest, path.len() as int));
    }
}

} // verus!
