//! The parts of a file name, and the names made from one by numbering.
//!
//! A file name is one component of a path. Its extension is what follows
//! its last point, unless that point is its first character. Of a text
//! that may be a longer path, the final component is what is split.

use vstd::prelude::*;
use vstd::relations::injective_on;
use vstd::set_lib::{lemma_int_range, lemma_len_subset, lemma_map_size, set_int_range};
use crate::numeral::{decimal, decimal_of, lemma_decimal_injective};
use crate::path::{final_component, last_component};
use crate::text::{chars_of, push_all, slice_of};

verus! {

/// The position of the last point in `name`, or -1 where it holds none.
pub open spec fn last_dot(name: Seq<char>) -> int
    decreases name.len(),
{
    if name.len() == 0 {
        -1
    } else if name.last() == '.' {
        name.len() - 1
    } else {
        last_dot(name.drop_last())
    }
}

/// A text that can name a file: not empty, and neither `.` nor `..`.
pub open spec fn is_file_name(name: Seq<char>) -> bool {
    name.len() > 0 && name != seq!['.'] && name != seq!['.', '.']
}

/// The stem of a file name: the name up to its last point, or the whole
/// name where it has no point or only a leading one.
pub open spec fn stem_of(name: Seq<char>) -> Option<Seq<char>> {
    if !is_file_name(name) {
        None
    } else if last_dot(name) <= 0 {
        Some(name)
    } else {
        Some(name.take(last_dot(name)))
    }
}

/// The extension of a file name: what follows its last point, where that
/// point is not the first character. It may be empty.
pub open spec fn extension_of(name: Seq<char>) -> Option<Seq<char>> {
    if !is_file_name(name) || last_dot(name) <= 0 {
        None
    } else {
        Some(name.skip(last_dot(name) + 1))
    }
}

/// The name `<stem>_<k>.<extension>`.
pub open spec fn numbered(stem: Seq<char>, k: nat, extension: Seq<char>) -> Seq<char> {
    stem + seq!['_'] + decimal(k) + seq!['.'] + extension
}

/// The name `<name>_<k>`.
pub open spec fn suffixed(name: Seq<char>, k: nat) -> Seq<char> {
    name + seq!['_'] + decimal(k)
}

/// The stem of the final component of `name`, where it has one.
pub open spec fn path_stem(name: Seq<char>) -> Option<Seq<char>> {
    match final_component(name) {
        Some(component) => stem_of(component),
        None => None,
    }
}

/// The extension of the final component of `name`, where it has one.
pub open spec fn path_extension(name: Seq<char>) -> Option<Seq<char>> {
    match final_component(name) {
        Some(component) => extension_of(component),
        None => None,
    }
}

/// The `k`-th name to try in place of `name`: the name itself for zero,
/// then the stem of its final component, `_<k>`, a point and the
/// extension, or the whole name with `_<k>` at its end where there is no
/// stem and extension to put the number between.
pub open spec fn candidate(name: Seq<char>, k: nat) -> Seq<char> {
    if k == 0 {
        name
    } else {
        match (path_stem(name), path_extension(name)) {
            (Some(stem), Some(extension)) => numbered(stem, k, extension),
            _ => suffixed(name, k),
        }
    }
}

/// Two numbers put between the same stem and extension give the same name
/// only if they are the same number.
pub proof fn lemma_numbered_injective(stem: Seq<char>, extension: Seq<char>, j: nat, k: nat)
    requires
        numbered(stem, j, extension) == numbered(stem, k, extension),
    ensures
        j == k,
{
    let a = numbered(stem, j, extension);
    let b = numbered(stem, k, extension);
    assert(a.len() == stem.len() + decimal(j).len() + extension.len() + 2);
    assert(b.len() == stem.len() + decimal(k).len() + extension.len() + 2);
    assert forall|i: int| 0 <= i < decimal(j).len() implies decimal(j)[i] == decimal(k)[i] by {
        assert(a[stem.len() + 1 + i] == decimal(j)[i]);
        assert(b[stem.len() + 1 + i] == decimal(k)[i]);
    }
    assert(decimal(j) =~= decimal(k));
    lemma_decimal_injective(j, k);
}

/// Two numbers put behind the same name give the same name only if they
/// are the same number.
pub proof fn lemma_suffixed_injective(name: Seq<char>, j: nat, k: nat)
    requires
        suffixed(name, j) == suffixed(name, k),
    ensures
        j == k,
{
    let a = suffixed(name, j);
    let b = suffixed(name, k);
    assert(a.len() == name.len() + decimal(j).len() + 1);
    assert(b.len() == name.len() + decimal(k).len() + 1);
    assert forall|i: int| 0 <= i < decimal(j).len() implies decimal(j)[i] == decimal(k)[i] by {
        assert(a[name.len() + 1 + i] == decimal(j)[i]);
        assert(b[name.len() + 1 + i] == decimal(k)[i]);
    }
    assert(decimal(j) =~= decimal(k));
    lemma_decimal_injective(j, k);
}

/// The numbered names to try in place of one name are all different.
pub proof fn lemma_candidate_injective(name: Seq<char>, j: nat, k: nat)
    requires
        j >= 1,
        k >= 1,
        candidate(name, j) == candidate(name, k),
    ensures
        j == k,
{
    if path_stem(name) is Some && path_extension(name) is Some {
        lemma_numbered_injective(path_stem(name)->0, path_extension(name)->0, j, k);
    } else {
        lemma_suffixed_injective(name, j, k);
    }
}

/// If the numbered names to try from the first to the `k`-th are all
/// among `existing`, then `existing` holds at least `k` names: so one of
/// the first `existing.len() + 1` numbered names is free.
pub proof fn lemma_free_candidate_within_bound(existing: Seq<Seq<char>>, name: Seq<char>, k: nat)
    requires
        forall|j: nat| 1 <= j <= k ==> existing.contains(#[trigger] candidate(name, j)),
    ensures
        k <= existing.len(),
{
    let tried = set_int_range(1, k as int + 1);
    let f = |j: int| candidate(name, j as nat);
    lemma_int_range(1, k as int + 1);
    assert(injective_on(f, tried)) by {
        assert forall|a: int, b: int|
            tried.contains(a) && tried.contains(b) && #[trigger] f(a) == #[trigger] f(b) implies a
            == b by {
            lemma_candidate_injective(name, a as nat, b as nat);
        }
    }
    let names = tried.map(f);
    lemma_map_size(tried, names, f);
    existing.lemma_cardinality_of_set();
    assert(names.subset_of(existing.to_set())) by {
        assert forall|s: Seq<char>| names.contains(s) implies existing.to_set().contains(s) by {
            let j = choose|j: int| tried.contains(j) && f(j) == s;
            assert(existing.contains(candidate(name, j as nat)));
        }
    }
    vstd::seq_lib::seq_to_set_is_finite(existing);
    lemma_len_subset(names, existing.to_set());
}

/// Finds the last point of a name.
pub fn find_last_dot(name: &Vec<char>) -> (at: Option<usize>)
    ensures
        match at {
            Some(i) => i as int == last_dot(name@) && i < name.len(),
            None => last_dot(name@) == -1,
        },
{
    let mut i: usize = name.len();
    assert(name@.take(name.len() as int) =~= name@);
    while i > 0
        invariant
            i <= name.len(),
            last_dot(name@) == last_dot(name@.take(i as int)),
        decreases i,
    {
        assert(name@.take(i as int).drop_last() =~= name@.take(i - 1));
        if name[i - 1] == '.' {
            return Some(i - 1);
        }
        i -= 1;
    }
    None
}

/// Whether a text can name a file.
pub fn names_a_file(name: &Vec<char>) -> (r: bool)
    ensures
        r == is_file_name(name@),
{
    if name.len() == 0 {
        false
    } else if name.len() == 1 && name[0] == '.' {
        assert(name@ =~= seq!['.']);
        false
    } else if name.len() == 2 && name[0] == '.' && name[1] == '.' {
        assert(name@ =~= seq!['.', '.']);
        false
    } else {
        assert(name@ != seq!['.']) by {
            if name@ == seq!['.'] {
                assert(seq!['.'].len() == 1);
                assert(seq!['.'][0] == '.');
            }
        }
        assert(name@ != seq!['.', '.']) by {
            if name@ == seq!['.', '.'] {
                assert(seq!['.', '.'].len() == 2);
                assert(seq!['.', '.'][0] == '.');
                assert(seq!['.', '.'][1] == '.');
            }
        }
        true
    }
}

/// The stem of a file name.
pub fn file_stem(name: &Vec<char>) -> (stem: Option<Vec<char>>)
    ensures
        match stem {
            Some(s) => stem_of(name@) == Some(s@),
            None => stem_of(name@) is None,
        },
{
    if !names_a_file(name) {
        return None;
    }
    match find_last_dot(name) {
        Some(at) => {
            if at == 0 {
                Some(slice_of(name, 0, name.len()))
            } else {
                Some(slice_of(name, 0, at))
            }
        },
        None => Some(slice_of(name, 0, name.len())),
    }
}

/// The extension of a file name.
pub fn file_extension(name: &Vec<char>) -> (extension: Option<Vec<char>>)
    ensures
        match extension {
            Some(e) => extension_of(name@) == Some(e@),
            None => extension_of(name@) is None,
        },
{
    if !names_a_file(name) {
        return None;
    }
    match find_last_dot(name) {
        Some(at) => {
            if at == 0 {
                None
            } else {
                Some(slice_of(name, at + 1, name.len()))
            }
        },
        None => None,
    }
}

/// The stem of the final component of `name`.
pub fn stem_of_path(name: &str) -> (stem: Option<Vec<char>>)
    ensures
        match stem {
            Some(s) => path_stem(name@) == Some(s@),
            None => path_stem(name@) is None,
        },
{
    match last_component(name) {
        Some(component) => file_stem(&chars_of(component.as_str())),
        None => None,
    }
}

/// The extension of the final component of `name`.
pub fn extension_of_path(name: &str) -> (extension: Option<Vec<char>>)
    ensures
        match extension {
            Some(e) => path_extension(name@) == Some(e@),
            None => path_extension(name@) is None,
        },
{
    match last_component(name) {
        Some(component) => file_extension(&chars_of(component.as_str())),
        None => None,
    }
}

/// Builds the name `<stem>_<k>.<extension>`.
pub fn numbered_name(stem: &Vec<char>, k: u128, extension: &Vec<char>) -> (out: Vec<char>)
    ensures
        out@ == numbered(stem@, k as nat, extension@),
{
    let mut out: Vec<char> = Vec::new();
    push_all(&mut out, stem);
    out.push('_');
    push_all(&mut out, &decimal_of(k));
    out.push('.');
    push_all(&mut out, extension);
    assert(out@ =~= numbered(stem@, k as nat, extension@));
    out
}

/// Builds the name `<name>_<k>`.
pub fn suffixed_name(name: &Vec<char>, k: u128) -> (out: Vec<char>)
    ensures
        out@ == suffixed(name@, k as nat),
{
    let mut out: Vec<char> = Vec::new();
    push_all(&mut out, name);
    out.push('_');
    push_all(&mut out, &decimal_of(k));
    assert(out@ =~= suffixed(name@, k as nat));
    out
}

/// Builds the `k`-th name to try in place of `name`.
pub fn candidate_name(name: &str, k: u128) -> (out: Vec<char>)
    ensures
        out@ == candidate(name@, k as nat),
{
    let whole = chars_of(name);
    if k == 0 {
        return whole;
    }
    match stem_of_path(name) {
        Some(stem) => match extension_of_path(name) {
            Some(extension) => numbered_name(&stem, k, &extension),
            None => suffixed_name(&whole, k),
        },
        None => suffixed_name(&whole, k),
    }
}

} // verus!
