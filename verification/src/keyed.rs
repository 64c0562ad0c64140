//! Lists of named things in which the last thing of a name counts.
use crate::text;
use vstd::prelude::*;

verus! {

/// A thing that has a name.
pub trait Named {
    /// The characters of the name.
    spec fn label(&self) -> Seq<char>;

    /// The name.
    fn name(&self) -> (r: &str)
        ensures
            r@ == self.label(),
    ;
}

/// The names of the things.
pub open spec fn labels<T: Named>(list: Seq<T>) -> Seq<Seq<char>> {
    list.map_values(|t: T| t.label())
}

/// The place of the thing of the given name.
pub fn find<T: Named>(list: &Vec<T>, name: &str) -> (r: Option<usize>)
    ensures
        r is Some <==> place_of(labels(list@), name@) is Some,
        r matches Some(i) ==> i < list@.len() && place_of(labels(list@), name@) == Some(i as int),
{
    let ghost all = labels(list@);
    let mut i: usize = list.len();
    assert(all.take(i as int) =~= all);
    while i > 0
        invariant
            i <= list@.len(),
            all == labels(list@),
            place_of(all, name@) == place_of(all.take(i as int), name@),
        decreases i,
    {
        let ghost rest = all.take(i as int);
        assert(rest.last() == list@[i - 1].label());
        assert(rest.drop_last() =~= all.take(i - 1));
        if text::str_eq(list[i - 1].name(), name) {
            return Some(i - 1);
        }
        i = i - 1;
    }
    None
}

/// The place of the given name, the last one if it occurs more than once.
pub open spec fn place_of(names: Seq<Seq<char>>, name: Seq<char>) -> Option<int>
    decreases names.len(),
{
    if names.len() == 0 {
        None
    } else if names.last() == name {
        Some(names.len() - 1)
    } else {
        place_of(names.drop_last(), name)
    }
}

/// The names of the things.
pub open spec fn names<T>(list: Seq<(Seq<char>, T)>) -> Seq<Seq<char>> {
    list.map_values(|e: (Seq<char>, T)| e.0)
}

/// The things that a list comes to: a name that occurs again keeps its place and takes the
/// later thing.
pub open spec fn merged<T>(list: Seq<(Seq<char>, T)>) -> Seq<(Seq<char>, T)>
    decreases list.len(),
{
    if list.len() == 0 {
        Seq::empty()
    } else {
        let before = merged(list.drop_last());
        match place_of(names(before), list.last().0) {
            Some(i) => before.update(i, list.last()),
            None => before.push(list.last()),
        }
    }
}

/// The place of a name holds it, and no later place does.
pub proof fn place_holds_name(all: Seq<Seq<char>>, name: Seq<char>)
    ensures
        match place_of(all, name) {
            Some(i) => 0 <= i < all.len() && all[i] == name && forall|j: int|
                i < j < all.len() ==> all[j] != name,
            None => !all.contains(name),
        },
    decreases all.len(),
{
    if all.len() > 0 && all.last() != name {
        let init = all.drop_last();
        place_holds_name(init, name);
        assert forall|j: int|
            0 <= j < all.len() && (place_of(all, name) matches Some(i) ==> i < j) implies all[j]
            != name by {
            if j < init.len() {
                assert(init[j] == all[j]);
                assert(init.contains(init[j]));
            }
        }
    }
}

/// In what a list comes to, no name occurs twice.
pub proof fn merged_names_are_distinct<T>(list: Seq<(Seq<char>, T)>)
    ensures
        names(merged(list)).no_duplicates(),
    decreases list.len(),
{
    if list.len() > 0 {
        let before = merged(list.drop_last());
        let e = list.last();
        merged_names_are_distinct(list.drop_last());
        place_holds_name(names(before), e.0);
        match place_of(names(before), e.0) {
            Some(i) => {
                assert(names(before.update(i, e)) =~= names(before));
            },
            None => {
                assert(names(before.push(e)) =~= names(before).push(e.0));
            },
        }
    }
}

/// What a list comes to has exactly the names of the list, each with the last thing of that
/// name.
pub proof fn last_of_a_name_counts<T>(list: Seq<(Seq<char>, T)>, name: Seq<char>)
    ensures
        place_of(names(merged(list)), name) is Some <==> names(list).contains(name),
        names(list).contains(name) ==> merged(list)[place_of(names(merged(list)), name)->0]
            == list[place_of(names(list), name)->0],
    decreases list.len(),
{
    let all = names(list);
    place_holds_name(all, name);
    if list.len() > 0 {
        let init = list.drop_last();
        let before = merged(init);
        let e = list.last();
        last_of_a_name_counts(init, name);
        merged_names_are_distinct(init);
        assert(all.drop_last() =~= names(init));
        assert(all.last() == e.0);
        assert(all =~= names(init).push(e.0));
        place_holds_name(names(init), name);
        place_holds_name(names(before), name);
        place_holds_name(names(before), e.0);
        if names(init).contains(name) {
            let k = choose|k: int| 0 <= k < names(init).len() && names(init)[k] == name;
            assert(all[k] == name);
        }
        if all.contains(name) && e.0 != name {
            let k = choose|k: int| 0 <= k < all.len() && all[k] == name;
            assert(names(init)[k] == name);
        }
        if e.0 == name {
            assert(all[all.len() - 1] == name);
        }
        match place_of(names(before), e.0) {
            Some(i) => {
                assert(names(before.update(i, e)) =~= names(before));
            },
            None => {
                assert(names(before.push(e)) =~= names(before).push(e.0));
                assert(names(before.push(e)).drop_last() =~= names(before));
            },
        }
    }
}

/// Every thing of a list has a place in what the list comes to.
pub proof fn listed_has_a_place<T>(list: Seq<(Seq<char>, T)>, k: int)
    requires
        0 <= k < list.len(),
    ensures
        place_of(names(merged(list)), list[k].0) is Some,
{
    assert(names(list)[k] == list[k].0);
    last_of_a_name_counts(list, list[k].0);
}

/// Where every thing of a list stands under its own name, so it does in what the list comes
/// to.
pub proof fn merged_keeps_names<T>(list: Seq<(Seq<char>, T)>, name_of: spec_fn(T) -> Seq<char>)
    requires
        forall|i: int| 0 <= i < list.len() ==> (#[trigger] list[i]).0 == name_of(list[i].1),
    ensures
        forall|i: int|
            0 <= i < merged(list).len() ==> (#[trigger] merged(list)[i]).0 == name_of(
                merged(list)[i].1,
            ),
    decreases list.len(),
{
    if list.len() > 0 {
        let init = list.drop_last();
        assert forall|i: int| 0 <= i < init.len() implies (#[trigger] init[i]).0 == name_of(
            init[i].1,
        ) by {
            assert(init[i] == list[i]);
        }
        merged_keeps_names(init, name_of);
        assert(list[list.len() - 1] == list.last());
        place_holds_name(names(merged(init)), list.last().0);
    }
}

/// What is added to a list later leaves the places of the names as they are.
pub proof fn places_are_kept<T>(list: Seq<(Seq<char>, T)>, k: int, name: Seq<char>)
    requires
        0 <= k <= list.len(),
        place_of(names(merged(list.take(k))), name) is Some,
    ensures
        place_of(names(merged(list)), name) == place_of(names(merged(list.take(k))), name),
    decreases list.len(),
{
    if k == list.len() {
        assert(list.take(k) =~= list);
    } else {
        let init = list.drop_last();
        let before = merged(init);
        let e = list.last();
        assert(init.take(k) =~= list.take(k));
        places_are_kept(init, k, name);
        place_holds_name(names(before), e.0);
        place_holds_name(names(before), name);
        match place_of(names(before), e.0) {
            Some(i) => {
                assert(names(before.update(i, e)) =~= names(before));
            },
            None => {
                assert(names(before.push(e)) =~= names(before).push(e.0));
                assert(names(before.push(e)).drop_last() =~= names(before));
                if e.0 == name {
                    assert(names(before).contains(name));
                }
            },
        }
    }
}

/// A list in which no name occurs twice comes to itself.
pub proof fn distinct_names_keep_the_list<T>(list: Seq<(Seq<char>, T)>)
    requires
        names(list).no_duplicates(),
    ensures
        merged(list) == list,
    decreases list.len(),
{
    if list.len() > 0 {
        let init = list.drop_last();
        assert forall|i: int, j: int|
            0 <= i < names(init).len() && 0 <= j < names(init).len() && i != j implies names(
            init,
        )[i] != names(init)[j] by {
            assert(names(list)[i] != names(list)[j]);
        }
        distinct_names_keep_the_list(init);
        place_holds_name(names(init), list.last().0);
        if let Some(i) = place_of(names(init), list.last().0) {
            assert(names(list)[i] == names(list)[list.len() - 1]);
        }
        assert(init.push(list.last()) =~= list);
    } else {
        assert(merged(list) =~= list);
    }
}

/// A list comes to no more things than it has, and they have the names that it has.
pub proof fn merged_has_the_names_of_the_list<T>(list: Seq<(Seq<char>, T)>, name: Seq<char>)
    ensures
        merged(list).len() <= list.len(),
        names(merged(list)).contains(name) <==> names(list).contains(name),
    decreases list.len(),
{
    if list.len() > 0 {
        merged_has_the_names_of_the_list(list.drop_last(), name);
        place_holds_name(names(merged(list.drop_last())), list.last().0);
    }
    last_of_a_name_counts(list, name);
    place_holds_name(names(merged(list)), name);
    if let Some(i) = place_of(names(merged(list)), name) {
        assert(names(merged(list))[i] == name);
    }
}

} // verus!
