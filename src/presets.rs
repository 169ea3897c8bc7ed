use vstd::prelude::*;
use crate::text::{same_text, views};

verus! {

/// Whether the file name `name` has the extension `ext`: the part after its
/// last dot, where that dot is not the name's first character.
pub open spec fn has_extension(name: Seq<char>, ext: Seq<char>) -> bool {
    exists|i: int|
        0 < i < name.len() && #[trigger] name[i] == '.' && (forall|j: int|
            i < j < name.len() ==> name[j] != '.') && name.subrange(i + 1, name.len() as int) == ext
}

/// Whether a file name is that of a preset: its extension is `json`.
pub open spec fn is_preset(name: Seq<char>) -> bool {
    has_extension(name, "json"@)
}

/// The preset names among `names`, in their order.
pub open spec fn presets_among(names: Seq<Seq<char>>) -> Seq<Seq<char>>
    decreases names.len(),
{
    if names.len() == 0 {
        Seq::empty()
    } else {
        let rest = presets_among(names.drop_last());
        if is_preset(names.last()) {
            rest.push(names.last())
        } else {
            rest
        }
    }
}

/// Whether `name` is the file name of a preset.
pub fn is_preset_name(name: &str) -> (r: bool)
    ensures
        r == is_preset(name@),
{
    let n = name.unicode_len();
    let mut i: usize = n;
    while i > 0
        invariant
            0 <= i <= n,
            n == name@.len(),
            forall|j: int| i <= j < n ==> name@[j] != '.',
        ensures
            0 <= i <= n,
            forall|j: int| i <= j < n ==> name@[j] != '.',
            i == 0 || name@[i - 1] == '.',
        decreases i,
    {
        if name.get_char(i - 1) == '.' {
            break;
        }
        i -= 1;
    }
    // Here either `i` is 0 and the name holds no dot, or `i - 1` is its last dot.
    if i <= 1 {
        proof {
            assert forall|k: int|
                0 < k < name@.len() && #[trigger] name@[k] == '.' implies !(forall|j: int|
                k < j < name@.len() ==> name@[j] != '.') by {
                if i == 1 {
                    assert(name@[0] == '.');
                }
            }
        }
        return false;
    }
    let dot = i - 1;
    let ext = name.substring_char(i, n);
    let r = same_text(ext, "json");
    proof {
        assert(name@[dot as int] == '.');
        assert forall|k: int|
            0 < k < name@.len() && #[trigger] name@[k] == '.' && (forall|j: int|
                k < j < name@.len() ==> name@[j] != '.') implies k == dot by {
            if k < dot {
                assert(name@[dot as int] == '.');
            }
        }
    }
    r
}

/// The names of the preset files among the names of a directory's entries,
/// in their order.
pub fn list_presets(file_names: &Vec<String>) -> (r: Vec<String>)
    ensures
        views(r@) == presets_among(views(file_names@)),
{
    let mut r: Vec<String> = Vec::new();
    let mut i: usize = 0;
    while i < file_names.len()
        invariant
            0 <= i <= file_names.len(),
            views(r@) == presets_among(views(file_names@).take(i as int)),
        decreases file_names.len() - i,
    {
        let name = &file_names[i];
        let keep = is_preset_name(name.as_str());
        let ghost before = r@;
        proof {
            let next = views(file_names@).take(i + 1);
            assert(next.drop_last() =~= views(file_names@).take(i as int));
            assert(next.last() == name@);
        }
        if keep {
            r.push(name.clone());
            assert(views(r@) =~= views(before).push(name@));
        }
        i += 1;
    }
    assert(views(file_names@).take(file_names.len() as int) =~= views(file_names@));
    r
}

} // verus!
