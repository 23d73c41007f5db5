//! Lists of names, read through the characters of each name.

use vstd::prelude::*;
use vstd::string::StringExecFns;

verus! {

/// `list` without the first entry equal to `name`; `list` itself when no
/// entry equals it.
pub open spec fn remove_first(list: Seq<Seq<char>>, name: Seq<char>) -> Seq<Seq<char>>
    decreases list.len(),
{
    if list.len() == 0 {
        list
    } else if list[0] == name {
        list.drop_first()
    } else {
        seq![list[0]] + remove_first(list.drop_first(), name)
    }
}

/// Removing at the first position that holds `name` is `remove_first`.
pub proof fn lemma_remove_first_at(list: Seq<Seq<char>>, name: Seq<char>, at: int)
    requires
        0 <= at < list.len(),
        list[at] == name,
        forall|j: int| 0 <= j < at ==> list[j] != name,
    ensures
        remove_first(list, name) == list.remove(at),
    decreases list.len(),
{
    if at > 0 {
        lemma_remove_first_at(list.drop_first(), name, at - 1);
    }
}

/// Without an entry equal to `name`, `remove_first` changes nothing.
pub proof fn lemma_remove_first_absent(list: Seq<Seq<char>>, name: Seq<char>)
    requires
        !list.contains(name),
    ensures
        remove_first(list, name) == list,
    decreases list.len(),
{
    if list.len() > 0 {
        lemma_remove_first_absent(list.drop_first(), name);
    }
}

/// `remove_first` takes exactly one occurrence of a name that the list
/// holds: one entry fewer, and the same entries otherwise.
pub proof fn lemma_remove_first_present(list: Seq<Seq<char>>, name: Seq<char>)
    requires
        list.contains(name),
    ensures
        remove_first(list, name).len() == list.len() - 1,
        remove_first(list, name).to_multiset() == list.to_multiset().remove(name),
        list.to_multiset().count(name) >= 1,
{
    let at = choose|at: int|
        0 <= at < list.len() && list[at] == name && forall|j: int| 0 <= j < at ==> list[j] != name;
    lemma_first_position_exists(list, name);
    lemma_remove_first_at(list, name, at);
    vstd::seq_lib::to_multiset_remove(list, at);
    vstd::seq_lib::to_multiset_contains(list, name);
}

/// `remove_first` brings no entry into the list.
pub proof fn lemma_remove_first_within(list: Seq<Seq<char>>, name: Seq<char>, entry: Seq<char>)
    requires
        remove_first(list, name).contains(entry),
    ensures
        list.contains(entry),
    decreases list.len(),
{
    if list.len() > 0 && list[0] != name && list[0] != entry {
        lemma_remove_first_within(list.drop_first(), name, entry);
    }
}

proof fn lemma_first_position_exists(list: Seq<Seq<char>>, name: Seq<char>)
    requires
        list.contains(name),
    ensures
        exists|at: int|
            0 <= at < list.len() && list[at] == name && forall|j: int|
                0 <= j < at ==> list[j] != name,
    decreases list.len(),
{
    if list[0] != name {
        let rest = list.drop_first();
        let k = choose|k: int| 0 <= k < list.len() && list[k] == name;
        assert(rest[k - 1] == name);
        lemma_first_position_exists(rest, name);
        let at = choose|at: int|
            0 <= at < rest.len() && rest[at] == name && forall|j: int|
                0 <= j < at ==> rest[j] != name;
        assert forall|j: int| 0 <= j < at + 1 implies list[j] != name by {
            if j > 0 {
                assert(rest[j - 1] == list[j]);
            }
        }
    }
}

/// Whether `list` holds `name`.
pub fn contains(list: &Vec<String>, name: &str) -> (found: bool)
    ensures
        found == list.deep_view().contains(name@),
{
    position(list, name).is_some()
}

/// The first position of `list` that holds `name`.
pub fn position(list: &Vec<String>, name: &str) -> (at: Option<usize>)
    ensures
        match at {
            Some(at) => at < list.len() && list.deep_view()[at as int] == name@ && forall|j: int|
                0 <= j < at ==> list.deep_view()[j] != name@,
            None => !list.deep_view().contains(name@),
        },
{
    let needle = String::from_str(name);
    let mut i: usize = 0;
    while i < list.len()
        invariant
            i <= list.len(),
            needle@ == name@,
            forall|j: int| 0 <= j < i ==> list.deep_view()[j] != name@,
        decreases list.len() - i,
    {
        if list[i] == needle {
            return Some(i);
        }
        i += 1;
    }
    None
}

/// A copy of `list`.
pub fn clone_all(list: &Vec<String>) -> (copy: Vec<String>)
    ensures
        copy.deep_view() == list.deep_view(),
{
    let mut copy: Vec<String> = Vec::new();
    let mut i: usize = 0;
    while i < list.len()
        invariant
            i <= list.len(),
            copy.len() == i,
            forall|j: int| 0 <= j < i ==> copy[j]@ == list[j]@,
        decreases list.len() - i,
    {
        copy.push(list[i].clone());
        i += 1;
    }
    copy
}

} // verus!
