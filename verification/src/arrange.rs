use vstd::prelude::*;

verus! {

/// The items of `items` whose flag in `flags` equals `flag`, in their order.
pub open spec fn picked<T>(items: Seq<T>, flags: Seq<bool>, flag: bool) -> Seq<T>
    decreases items.len(),
{
    if items.len() == 0 {
        Seq::<T>::empty()
    } else if flags[items.len() - 1] == flag {
        picked(items.drop_last(), flags, flag).push(items.last())
    } else {
        picked(items.drop_last(), flags, flag)
    }
}

/// Splits `items` into the unselected ones and the selected ones, each part
/// in the original order.
fn split_selected<T>(items: Vec<T>, selected: &Vec<bool>) -> (parts: (Vec<T>, Vec<T>))
    requires
        items.len() == selected.len(),
    ensures
        parts.0@ == picked(items@, selected@, false),
        parts.1@ == picked(items@, selected@, true),
{
    let ghost all = items@;
    let mut rest: Vec<T> = Vec::new();
    let mut chosen: Vec<T> = Vec::new();
    let mut i: usize = 0;
    for item in it: items.into_iter()
        invariant
            it.seq() == all,
            all.len() == selected@.len(),
            i == it.index(),
            rest@ == picked(all.take(i as int), selected@, false),
            chosen@ == picked(all.take(i as int), selected@, true),
    {
        assert(all.take(i + 1).drop_last() =~= all.take(i as int));
        if selected[i] {
            chosen.push(item);
        } else {
            rest.push(item);
        }
        assert(i < selected.len());
        i = i + 1;
    }
    assert(all.take(all.len() as int) =~= all);
    (rest, chosen)
}

/// Deletes the selected items; the others keep their order.
pub fn remove_selected<T>(items: Vec<T>, selected: &Vec<bool>) -> (kept: Vec<T>)
    requires
        items.len() == selected.len(),
    ensures
        kept@ == picked(items@, selected@, false),
{
    let (rest, _chosen) = split_selected(items, selected);
    rest
}

/// Moves the selected items above all others (to the end of the paint
/// order), keeping the relative order within both groups.
pub fn bring_selected_to_front<T>(items: Vec<T>, selected: &Vec<bool>) -> (arranged: Vec<T>)
    requires
        items.len() == selected.len(),
    ensures
        arranged@ == picked(items@, selected@, false) + picked(items@, selected@, true),
{
    let (mut rest, mut chosen) = split_selected(items, selected);
    rest.append(&mut chosen);
    rest
}

/// Moves the selected items below all others (to the start of the paint
/// order), keeping the relative order within both groups.
pub fn send_selected_to_back<T>(items: Vec<T>, selected: &Vec<bool>) -> (arranged: Vec<T>)
    requires
        items.len() == selected.len(),
    ensures
        arranged@ == picked(items@, selected@, true) + picked(items@, selected@, false),
{
    let (mut rest, mut chosen) = split_selected(items, selected);
    chosen.append(&mut rest);
    chosen
}

/// Flips the flags of the selected items (locking unlocked ones and
/// unlocking locked ones); the others keep theirs.
pub fn toggle_selected(flags: Vec<bool>, selected: &Vec<bool>) -> (toggled: Vec<bool>)
    requires
        flags.len() == selected.len(),
    ensures
        toggled.len() == flags.len(),
        forall|i: int| 0 <= i < flags.len() ==> #[trigger] toggled@[i] == (flags@[i] != selected@[i]),
{
    let mut toggled: Vec<bool> = Vec::new();
    let mut i: usize = 0;
    while i < flags.len()
        invariant
            flags.len() == selected.len(),
            i <= flags.len(),
            toggled.len() == i,
            forall|j: int| 0 <= j < i ==> #[trigger] toggled@[j] == (flags@[j] != selected@[j]),
        decreases flags.len() - i,
    {
        toggled.push(flags[i] != selected[i]);
        i = i + 1;
    }
    toggled
}

/// Which items a drag acts on: those selected and not locked.
pub fn movable_mask(selected: &Vec<bool>, locked: &Vec<bool>) -> (movable: Vec<bool>)
    requires
        selected.len() == locked.len(),
    ensures
        movable.len() == selected.len(),
        forall|i: int| 0 <= i < selected.len() ==> #[trigger] movable@[i] == (selected@[i] && !locked@[i]),
{
    let mut movable: Vec<bool> = Vec::new();
    let mut i: usize = 0;
    while i < selected.len()
        invariant
            selected.len() == locked.len(),
            i <= selected.len(),
            movable.len() == i,
            forall|j: int| 0 <= j < i ==> #[trigger] movable@[j] == (selected@[j] && !locked@[j]),
        decreases selected.len() - i,
    {
        movable.push(selected[i] && !locked[i]);
        i = i + 1;
    }
    movable
}

/// Toggling the same selection twice gives back the original flags.
pub proof fn lemma_toggle_twice(flags: Seq<bool>, selected: Seq<bool>, once: Seq<bool>, twice: Seq<bool>)
    requires
        flags.len() == selected.len(),
        once.len() == flags.len(),
        twice.len() == flags.len(),
        forall|i: int| 0 <= i < flags.len() ==> #[trigger] once[i] == (flags[i] != selected[i]),
        forall|i: int| 0 <= i < flags.len() ==> #[trigger] twice[i] == (once[i] != selected[i]),
    ensures
        twice == flags,
{
    assert(twice =~= flags);
}

/// Splitting by a flag loses and invents nothing: the two parts together hold
/// exactly the items, so reordering by selection is a permutation.
pub proof fn lemma_parts_are_a_permutation<T>(items: Seq<T>, flags: Seq<bool>)
    ensures
        picked(items, flags, false).len() + picked(items, flags, true).len() == items.len(),
        picked(items, flags, false).to_multiset().add(picked(items, flags, true).to_multiset())
            == items.to_multiset(),
        (picked(items, flags, false) + picked(items, flags, true)).to_multiset()
            == items.to_multiset(),
        (picked(items, flags, true) + picked(items, flags, false)).to_multiset()
            == items.to_multiset(),
    decreases items.len(),
{
    broadcast use vstd::seq_lib::group_to_multiset_ensures;

    let f = picked(items, flags, false);
    let t = picked(items, flags, true);
    if items.len() > 0 {
        lemma_parts_are_a_permutation(items.drop_last(), flags);
        assert(items.drop_last().push(items.last()) =~= items);
    } else {
        assert(items.to_multiset() =~= vstd::multiset::Multiset::<T>::empty());
    }
    vstd::seq_lib::lemma_multiset_commutative(f, t);
    vstd::seq_lib::lemma_multiset_commutative(t, f);
}

} // verus!
