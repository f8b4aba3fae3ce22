//! The directory catalog: which artifact names may be loaded.
use vstd::prelude::*;

verus! {

/// The file suffix that marks a loadable artifact.
pub open spec fn model_suffix() -> Seq<char> {
    seq!['.', 'b', 'i', 'n']
}

/// `name` ends with the artifact suffix.
pub open spec fn is_model_name(name: Seq<char>) -> bool {
    let k = model_suffix().len();
    name.len() >= k && name.subrange(name.len() - k, name.len() as int) == model_suffix()
}

/// Whether a file name names a loadable artifact.
pub fn is_model_file(name: &str) -> (r: bool)
    ensures
        r == is_model_name(name@),
{
    let n = name.unicode_len();
    if n < 4 {
        return false;
    }
    let r = name.get_char(n - 4) == '.' && name.get_char(n - 3) == 'b' && name.get_char(n - 2)
        == 'i' && name.get_char(n - 1) == 'n';
    proof {
        let tail = name@.subrange(n - 4, n as int);
        if r {
            assert(tail =~= model_suffix());
        } else {
            if tail == model_suffix() {
                assert(tail[0] == '.' && tail[1] == 'b' && tail[2] == 'i' && tail[3] == 'n');
            }
        }
    }
    r
}

/// The views of a sequence of names.
pub open spec fn names_of(v: Seq<String>) -> Seq<Seq<char>> {
    v.map_values(|s: String| s@)
}

/// The names of `names` that are artifact names, in their order.
pub open spec fn model_names(names: Seq<Seq<char>>) -> Seq<Seq<char>>
    decreases names.len(),
{
    if names.len() == 0 {
        Seq::empty()
    } else {
        let rest = model_names(names.drop_last());
        if is_model_name(names.last()) {
            rest.push(names.last())
        } else {
            rest
        }
    }
}

/// Why the process cannot start serving.
#[derive(Clone, Copy, Debug, PartialEq, Eq, Structural)]
pub enum StartupError {
    /// The resource directory holds no loadable artifact.
    NoModels,
}

/// Keeps the names of `names` that are artifact names, in their order.
pub fn catalog_from_names(names: Vec<String>) -> (r: Vec<String>)
    ensures
        names_of(r@) == model_names(names_of(names@)),
{
    let mut out: Vec<String> = Vec::new();
    let ghost all = names_of(names@);
    let mut i: usize = 0;
    while i < names.len()
        invariant
            i <= names@.len(),
            all == names_of(names@),
            names_of(out@) == model_names(all.subrange(0, i as int)),
        decreases names@.len() - i,
    {
        let name = &names[i];
        proof {
            let pre = all.subrange(0, i as int);
            let next = all.subrange(0, i + 1);
            assert(next.drop_last() =~= pre);
            assert(next.last() == name@);
        }
        if is_model_file(name.as_str()) {
            out.push(name.clone());
            assert(names_of(out@) =~= names_of(out@.drop_last()).push(name@));
        }
        i += 1;
    }
    assert(all.subrange(0, names@.len() as int) =~= all);
    out
}

/// Whether `id` is one of the names of `catalog`.
pub fn catalog_contains(catalog: &Vec<String>, id: &String) -> (r: bool)
    ensures
        r == names_of(catalog@).contains(id@),
{
    let mut i: usize = 0;
    while i < catalog.len()
        invariant
            i <= catalog@.len(),
            forall|j: int| 0 <= j < i ==> catalog@[j]@ != id@,
        decreases catalog@.len() - i,
    {
        if catalog[i] == *id {
            assert(names_of(catalog@)[i as int] == id@);
            return true;
        }
        i += 1;
    }
    proof {
        if names_of(catalog@).contains(id@) {
            let j = choose|j: int| 0 <= j < names_of(catalog@).len() && names_of(catalog@)[j] == id@;
            assert(catalog@[j]@ == id@);
        }
    }
    false
}

/// The catalog the process starts with: the artifact names among `names`,
/// refused when there is none.
pub fn startup_catalog(names: Vec<String>) -> (r: Result<Vec<String>, StartupError>)
    ensures
        model_names(names_of(names@)).len() == 0 <==> r == Err::<Vec<String>, StartupError>(
            StartupError::NoModels,
        ),
        r matches Ok(c) ==> names_of(c@) == model_names(names_of(names@)),
{
    let catalog = catalog_from_names(names);
    if catalog.len() == 0 {
        Err(StartupError::NoModels)
    } else {
        Ok(catalog)
    }
}

} // verus!
