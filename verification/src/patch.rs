//! Patches to an ordered list of child nodes, and the list that takes them.
//!
//! A parent node declares some children when its view is built; those are
//! fixed. Everything that later arrives as a patch is applied to the same
//! list, in the order of arrival.

use crate::channel::{Receiver, Transmitter};
use crate::text::texts;
use vstd::prelude::*;
use vstd::string::*;

verus! {

/// One change to a list of children.
#[derive(Debug)]
pub enum Patch<V> {
    /// Append a child behind all others.
    PushBack { value: V },
    /// Remove every child that a patch appended; the declared ones stay.
    RemoveAll,
    /// Put a child in the place of the one at `index`.
    Replace { index: usize, value: V },
}

/// Whether `patch` can be applied to a list of `len` children: a replacement
/// must name a child that is there.
pub open spec fn fits<V>(patch: Patch<V>, len: nat) -> bool {
    patch matches Patch::Replace { index, .. } ==> index < len
}

/// The children after `patch`, given the children before it and how many of
/// them, counted from the front, are declared.
pub open spec fn patched<V>(fixed: nat, children: Seq<V>, patch: Patch<V>) -> Seq<V> {
    match patch {
        Patch::PushBack { value } => children.push(value),
        Patch::RemoveAll => children.take(fixed as int),
        Patch::Replace { index, value } => children.update(index as int, value),
    }
}

/// Whether each of `patches` fits the list as it is when its turn comes.
pub open spec fn fit_in_turn<V>(fixed: nat, children: Seq<V>, patches: Seq<Patch<V>>) -> bool
    decreases patches.len(),
{
    patches.len() == 0 || (fit_in_turn(fixed, children, patches.drop_last()) && fits(
        patches.last(),
        replayed(fixed, children, patches.drop_last()).len(),
    ))
}

/// The children after all of `patches`, applied in order.
pub open spec fn replayed<V>(fixed: nat, children: Seq<V>, patches: Seq<Patch<V>>) -> Seq<V>
    decreases patches.len(),
{
    if patches.len() == 0 {
        children
    } else {
        patched(fixed, replayed(fixed, children, patches.drop_last()), patches.last())
    }
}

/// The live children of one parent node.
pub struct ChildList<V> {
    declared: Vec<V>,
    added: Vec<V>,
}

impl<V> ChildList<V> {
    /// The children, front to back.
    pub closed spec fn children(&self) -> Seq<V> {
        self.declared@ + self.added@
    }

    /// How many children, counted from the front, were declared with the
    /// view.
    pub closed spec fn fixed(&self) -> nat {
        self.declared@.len()
    }

    /// The declared children are among the children.
    pub proof fn lemma_fixed_in_range(&self)
        ensures
            self.fixed() <= self.children().len(),
    {
    }

    /// A list that holds the declared children and nothing else.
    pub fn new(declared: Vec<V>) -> (list: ChildList<V>)
        ensures
            list.children() == declared@,
            list.fixed() == declared@.len(),
    {
        let list = ChildList { declared, added: Vec::new() };
        assert(list.children() =~= declared@);
        list
    }

    /// The number of children.
    pub fn len(&self) -> (n: Option<usize>)
        ensures
            match n {
                Some(n) => n == self.children().len(),
                None => self.children().len() > usize::MAX,
            },
    {
        self.declared.len().checked_add(self.added.len())
    }

    /// The number of declared children.
    pub fn fixed_len(&self) -> (n: usize)
        ensures
            n == self.fixed(),
            n <= self.children().len(),
    {
        self.declared.len()
    }

    /// The child at `index`, if there is one.
    pub fn get(&self, index: usize) -> (child: Option<&V>)
        ensures
            index < self.children().len() ==> child == Some(&self.children()[index as int]),
            index >= self.children().len() ==> child is None,
    {
        let fixed = self.declared.len();
        if index < fixed {
            Some(&self.declared[index])
        } else if index - fixed < self.added.len() {
            Some(&self.added[index - fixed])
        } else {
            None
        }
    }

    /// The children, front to back.
    pub fn into_children(self) -> (children: Vec<V>)
        ensures
            children@ == self.children(),
    {
        let mut children = self.declared;
        let mut added = self.added;
        children.append(&mut added);
        children
    }

    /// Whether `patch` can be applied now.
    pub fn accepts(&self, patch: &Patch<V>) -> (ok: bool)
        ensures
            ok == fits(*patch, self.children().len()),
    {
        match patch {
            Patch::Replace { index, .. } => {
                let fixed = self.declared.len();
                *index < fixed || *index - fixed < self.added.len()
            },
            _ => true,
        }
    }

    /// Applies one patch.
    pub fn apply(&mut self, patch: Patch<V>)
        requires
            fits(patch, old(self).children().len()),
        ensures
            final(self).children() == patched(old(self).fixed(), old(self).children(), patch),
            final(self).fixed() == old(self).fixed(),
    {
        let fixed = self.declared.len();
        match patch {
            Patch::PushBack { value } => {
                self.added.push(value);
                assert(self.children() =~= old(self).children().push(value));
            },
            Patch::RemoveAll => {
                self.added.clear();
                assert(self.children() =~= old(self).children().take(fixed as int));
            },
            Patch::Replace { index, value } => {
                if index < fixed {
                    self.declared.set(index, value);
                } else {
                    self.added.set(index - fixed, value);
                }
                assert(self.children() =~= old(self).children().update(index as int, value));
            },
        }
    }

    /// Applies patches in the order in which they stand, and stops before
    /// the first that does not fit. The result says how many were applied.
    pub fn apply_all(&mut self, patches: Vec<Patch<V>>) -> (applied: usize)
        ensures
            applied <= patches@.len(),
            final(self).fixed() == old(self).fixed(),
            fit_in_turn(old(self).fixed(), old(self).children(), patches@.take(applied as int)),
            final(self).children() == replayed(
                old(self).fixed(),
                old(self).children(),
                patches@.take(applied as int),
            ),
            applied < patches@.len() ==> !fits(
                patches@[applied as int],
                final(self).children().len(),
            ),
    {
        let ghost before = self.children();
        let ghost fixed = self.fixed();
        let ghost all = patches@;
        let total = patches.len();
        let mut applied: usize = 0;
        assert(all.take(0) =~= Seq::<Patch<V>>::empty());
        for patch in it: patches
            invariant
                it.seq() == all,
                all.len() == total,
                applied == it.index(),
                fixed == old(self).fixed(),
                before == old(self).children(),
                self.fixed() == fixed,
                self.children() == replayed(fixed, before, all.take(applied as int)),
                fit_in_turn(fixed, before, all.take(applied as int)),
        {
            if !self.accepts(&patch) {
                return applied;
            }
            proof {
                let k = applied as int;
                assert(all.take(k + 1).drop_last() =~= all.take(k));
                assert(all.take(k + 1).last() == patch);
            }
            self.apply(patch);
            applied += 1;
        }
        applied
    }
}

/// The patches that append `values`, one after the other.
pub open spec fn pushes<V>(values: Seq<V>) -> Seq<Patch<V>> {
    Seq::new(values.len(), |i: int| Patch::PushBack { value: values[i] })
}

/// The patches that put `values` in the place of all that was appended
/// before: remove all, then append each.
pub open spec fn refill<V>(values: Seq<V>) -> Seq<Patch<V>> {
    seq![Patch::<V>::RemoveAll] + pushes(values)
}

/// Removing all twice leaves what removing all once leaves: the declared
/// children, each in its place, and nothing that was appended.
pub proof fn lemma_remove_all_idempotent<V>(fixed: nat, children: Seq<V>)
    requires
        fixed <= children.len(),
    ensures
        patched(fixed, patched(fixed, children, Patch::RemoveAll), Patch::RemoveAll) == patched(
            fixed,
            children,
            Patch::RemoveAll,
        ),
        patched(fixed, children, Patch::<V>::RemoveAll).len() == fixed,
        forall|i: int|
            0 <= i < fixed ==> patched(fixed, children, Patch::<V>::RemoveAll)[i] == children[i],
{
    let once = patched(fixed, children, Patch::<V>::RemoveAll);
    assert(once.take(fixed as int) =~= once);
}

/// A replacement is read back where it was put, and changes neither the
/// number of children nor any other child.
pub proof fn lemma_replace_reads_back<V>(fixed: nat, children: Seq<V>, index: usize, value: V)
    requires
        index < children.len(),
    ensures
        patched(fixed, children, Patch::Replace { index, value })[index as int] == value,
        patched(fixed, children, Patch::Replace { index, value }).len() == children.len(),
        forall|i: int|
            0 <= i < children.len() && i != index ==> patched(
                fixed,
                children,
                Patch::Replace { index, value },
            )[i] == children[i],
{
}

/// Appended children stand behind all others, in the order in which they
/// were appended, and appending always fits.
pub proof fn lemma_pushes_append<V>(fixed: nat, children: Seq<V>, values: Seq<V>)
    ensures
        fit_in_turn(fixed, children, pushes(values)),
        replayed(fixed, children, pushes(values)) == children + values,
    decreases values.len(),
{
    if values.len() == 0 {
        assert(children + values =~= children);
    } else {
        let front = values.drop_last();
        lemma_pushes_append(fixed, children, front);
        assert(pushes(values).drop_last() =~= pushes(front));
        assert(children + values =~= (children + front).push(values.last()));
    }
}

/// Replaying patches one after the other is replaying them all at once.
pub proof fn lemma_replay_joined<V>(
    fixed: nat,
    children: Seq<V>,
    first: Seq<Patch<V>>,
    second: Seq<Patch<V>>,
)
    ensures
        replayed(fixed, children, first + second) == replayed(
            fixed,
            replayed(fixed, children, first),
            second,
        ),
        fit_in_turn(fixed, children, first + second) == (fit_in_turn(fixed, children, first)
            && fit_in_turn(fixed, replayed(fixed, children, first), second)),
    decreases second.len(),
{
    if second.len() == 0 {
        assert(first + second =~= first);
    } else {
        lemma_replay_joined(fixed, children, first, second.drop_last());
        assert((first + second).drop_last() =~= first + second.drop_last());
    }
}

/// Refilling a list leaves the declared children followed by the new ones,
/// whatever was appended before, and always fits.
pub proof fn lemma_refill<V>(fixed: nat, children: Seq<V>, values: Seq<V>)
    requires
        fixed <= children.len(),
    ensures
        fit_in_turn(fixed, children, refill(values)),
        replayed(fixed, children, refill(values)) == children.take(fixed as int) + values,
{
    let clear = seq![Patch::<V>::RemoveAll];
    let none = Seq::<Patch<V>>::empty();
    assert(clear.drop_last() =~= none);
    assert(clear.last() == Patch::<V>::RemoveAll);
    assert(replayed(fixed, children, none) == children);
    assert(fit_in_turn(fixed, children, none));
    assert(replayed(fixed, children, clear) == patched(
        fixed,
        replayed(fixed, children, clear.drop_last()),
        clear.last(),
    ));
    assert(fit_in_turn(fixed, children, clear));
    lemma_replay_joined(fixed, children, clear, pushes(values));
    lemma_pushes_append(fixed, children.take(fixed as int), values);
}

/// A patch of a list of texts, with its text as a sequence of characters.
pub open spec fn text_patch(patch: Patch<String>) -> Patch<Seq<char>> {
    match patch {
        Patch::PushBack { value } => Patch::PushBack { value: value@ },
        Patch::RemoveAll => Patch::RemoveAll,
        Patch::Replace { index, value } => Patch::Replace { index, value: value@ },
    }
}

/// The views of a list of patches of texts.
pub open spec fn text_patches(patches: Seq<Patch<String>>) -> Seq<Patch<Seq<char>>> {
    Seq::new(patches.len(), |i: int| text_patch(patches[i]))
}

/// The patches that make a list show `lines` and nothing else that was
/// appended before: remove all, then append each line.
pub fn refill_with(lines: &Vec<String>) -> (patches: Vec<Patch<String>>)
    ensures
        text_patches(patches@) == refill(texts(lines@)),
{
    let mut patches: Vec<Patch<String>> = Vec::new();
    patches.push(Patch::RemoveAll);
    let mut i: usize = 0;
    while i < lines.len()
        invariant
            i <= lines.len(),
            patches@.len() == i + 1,
            patches@[0] == Patch::<String>::RemoveAll,
            forall|k: int|
                0 <= k < i ==> ((#[trigger] patches@[k + 1]) matches Patch::PushBack { value }
                    && value@ == lines@[k]@),
        decreases lines.len() - i,
    {
        patches.push(Patch::PushBack { value: lines[i].clone() });
        i += 1;
    }
    proof {
        let want = refill(texts(lines@));
        let have = text_patches(patches@);
        assert(have.len() == want.len());
        assert forall|k: int| 0 <= k < have.len() implies have[k] == want[k] by {
            if k > 0 {
                assert(patches@[(k - 1) + 1] matches Patch::PushBack { value } && value@
                    == lines@[k - 1]@);
            }
        }
        assert(have =~= want);
    }
    patches
}

/// Patching texts and then reading them is reading them and then patching
/// what was read.
pub proof fn lemma_text_patched(fixed: nat, children: Seq<String>, patch: Patch<String>)
    requires
        fits(patch, children.len()),
        fixed <= children.len(),
    ensures
        texts(patched(fixed, children, patch)) == patched(
            fixed,
            texts(children),
            text_patch(patch),
        ),
        fits(text_patch(patch), texts(children).len()),
{
    match patch {
        Patch::PushBack { value } => {
            assert(texts(children.push(value)) =~= texts(children).push(value@));
        },
        Patch::RemoveAll => {
            assert(texts(children.take(fixed as int)) =~= texts(children).take(fixed as int));
        },
        Patch::Replace { index, value } => {
            assert(texts(children.update(index as int, value)) =~= texts(children).update(
                index as int,
                value@,
            ));
        },
    }
}

/// The patches that `rx` has observed from its `from`th up to, and
/// without, its `to`th, as they read.
pub open spec fn observed_patches(
    tx: Transmitter<Patch<String>>,
    rx: Receiver,
    from: int,
    to: int,
) -> Seq<Patch<Seq<char>>> {
    text_patches(tx@.observed(rx.key() as int).subrange(from, to))
}

impl ChildList<String> {
    /// Brings a list of texts up to what `rx` has observed: applies the
    /// patches that `rx` has observed and the list has not yet seen, oldest
    /// first, and stops before the first that does not fit. `seen` says how
    /// many the list has seen; the result says how many it has seen now.
    pub fn follow(
        &mut self,
        tx: &Transmitter<Patch<String>>,
        rx: Receiver,
        seen: usize,
    ) -> (now: usize)
        requires
            tx@.wf(),
            rx.key() < tx@.receivers(),
            seen <= tx@.observed(rx.key() as int).len(),
        ensures
            seen <= now <= tx@.observed(rx.key() as int).len(),
            final(self).fixed() == old(self).fixed(),
            fit_in_turn(
                old(self).fixed(),
                texts(old(self).children()),
                observed_patches(*tx, rx, seen as int, now as int),
            ),
            texts(final(self).children()) == replayed(
                old(self).fixed(),
                texts(old(self).children()),
                observed_patches(*tx, rx, seen as int, now as int),
            ),
            now < tx@.observed(rx.key() as int).len() ==> !fits(
                tx@.observed(rx.key() as int)[now as int],
                final(self).children().len(),
            ),
    {
        let n = tx.observed_len(rx);
        let ghost fixed = self.fixed();
        let ghost before = texts(self.children());
        let ghost observed = tx@.observed(rx.key() as int);
        let mut i = seen;
        assert(observed_patches(*tx, rx, seen as int, seen as int) =~= Seq::<
            Patch<Seq<char>>,
        >::empty());
        while i < n
            invariant
                seen <= i <= n,
                tx@.wf(),
                rx.key() < tx@.receivers(),
                observed == tx@.observed(rx.key() as int),
                n == observed.len(),
                fixed == old(self).fixed(),
                before == texts(old(self).children()),
                self.fixed() == fixed,
                fit_in_turn(fixed, before, observed_patches(*tx, rx, seen as int, i as int)),
                texts(self.children()) == replayed(
                    fixed,
                    before,
                    observed_patches(*tx, rx, seen as int, i as int),
                ),
            decreases n - i,
        {
            let next = tx.observed_at(rx, i).unwrap();
            if !self.accepts(next) {
                return i;
            }
            let patch = clone_text_patch(next);
            proof {
                let done = observed_patches(*tx, rx, seen as int, i as int);
                let more = observed_patches(*tx, rx, seen as int, i + 1);
                assert(more.drop_last() =~= done);
                assert(more.last() == text_patch(patch));
                self.lemma_fixed_in_range();
                lemma_text_patched(fixed, self.children(), patch);
                lemma_text_patched(fixed, self.children(), *next);
            }
            self.apply(patch);
            i += 1;
        }
        n
    }
}

/// A copy of a patch of a list of texts.
pub fn clone_text_patch(patch: &Patch<String>) -> (copy: Patch<String>)
    ensures
        text_patch(copy) == text_patch(*patch),
{
    match patch {
        Patch::PushBack { value } => Patch::PushBack { value: value.clone() },
        Patch::RemoveAll => Patch::RemoveAll,
        Patch::Replace { index, value } => Patch::Replace { index: *index, value: value.clone() },
    }
}

} // verus!
