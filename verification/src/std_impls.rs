use crate::traits::{has_room, views_of, Argument, ArgumentReceiver, ArgumentReceiverExt};
use vstd::prelude::*;
use vstd::seq_lib::lemma_flatten_concat;

verus! {

/// What each item of a collection emits, one entry for each item in the order of
/// the items.
pub open spec fn emissions_of<T: View, A: Argument<T>>(items: Seq<A>) -> Seq<Seq<T::V>> {
    Seq::new(items.len(), |i: int| items[i].emission())
}

/// What a collection emits: what its items emit, one after the other in the order
/// of the items.
pub open spec fn flattened<T: View, A: Argument<T>>(items: Seq<A>) -> Seq<T::V> {
    emissions_of::<T, A>(items).flatten()
}

/// A collection of one item emits what the item emits.
pub proof fn lemma_flattened_one<T: View, A: Argument<T>>(item: A)
    ensures
        flattened::<T, A>(seq![item]) == item.emission(),
{
    let emissions = emissions_of::<T, A>(seq![item]);
    assert(emissions[0] == item.emission());
    emissions.lemma_flatten_singleton();
}

/// Two collections one after the other emit what the first emits, then what the
/// second emits.
pub proof fn lemma_flattened_concat<T: View, A: Argument<T>>(first: Seq<A>, second: Seq<A>)
    ensures
        flattened::<T, A>(first + second) == flattened::<T, A>(first) + flattened::<T, A>(second),
{
    assert(emissions_of::<T, A>(first + second) =~= emissions_of::<T, A>(first) + emissions_of::<
        T,
        A,
    >(second));
    lemma_flatten_concat(emissions_of::<T, A>(first), emissions_of::<T, A>(second));
}

/// Of a list of parts, the first `n + 1` joined are the first `n` joined and then
/// the next part, and they are the start of all parts joined.
pub proof fn lemma_flatten_step<E>(parts: Seq<Seq<E>>, n: int)
    requires
        0 <= n < parts.len(),
    ensures
        parts.take(n + 1).flatten() == parts.take(n).flatten() + parts[n],
        parts.take(n + 1).flatten().is_prefix_of(parts.flatten()),
{
    assert(parts.take(n + 1) =~= parts.take(n).push(parts[n]));
    parts.take(n).lemma_flatten_push(parts[n]);
    assert(parts =~= parts.take(n + 1) + parts.skip(n + 1));
    lemma_flatten_concat(parts.take(n + 1), parts.skip(n + 1));
}

/// What the first `n + 1` items emit is what the first `n` emit and then what the
/// next one emits, and it is no longer than what all items emit.
pub proof fn lemma_flattened_step<T: View, A: Argument<T>>(items: Seq<A>, n: int)
    requires
        0 <= n < items.len(),
    ensures
        flattened::<T, A>(items.take(n + 1)) == flattened::<T, A>(items.take(n))
            + items[n].emission(),
        flattened::<T, A>(items.take(n + 1)).len() <= flattened::<T, A>(items).len(),
{
    let parts = emissions_of::<T, A>(items);
    assert(emissions_of::<T, A>(items.take(n + 1)) =~= parts.take(n + 1));
    assert(emissions_of::<T, A>(items.take(n)) =~= parts.take(n));
    lemma_flatten_step(parts, n);
}

/// A collection of strings emits the strings.
pub proof fn lemma_flattened_strings(items: Seq<String>)
    ensures
        flattened::<String, String>(items) == views_of(items),
    decreases items.len(),
{
    if items.len() == 0 {
        assert(emissions_of::<String, String>(items) =~= Seq::empty());
        assert(flattened::<String, String>(items) =~= views_of(items));
    } else {
        let n = items.len() - 1;
        lemma_flattened_step::<String, String>(items, n);
        lemma_flattened_strings(items.take(n));
        assert(items.take(n + 1) =~= items);
        assert(views_of(items) =~= views_of(items.take(n)) + seq![items[n]@]);
    }
}

/// Appends the items of a slice in index order.
fn append_items<T: View, A: Argument<T>, R: ArgumentReceiver<T>>(items: &[A], r: &mut R)
    requires
        has_room(old(r), flattened::<T, A>(items@).len()),
    ensures
        final(r).accepted() == old(r).accepted() + flattened::<T, A>(items@),
        final(r).limit() == old(r).limit(),
{
    let mut idx: usize = 0;
    assert(emissions_of::<T, A>(items@.take(0)) =~= Seq::empty());
    while idx < items.len()
        invariant
            idx <= items.len(),
            r.accepted() == old(r).accepted() + flattened::<T, A>(items@.take(idx as int)),
            r.limit() == old(r).limit(),
            has_room(old(r), flattened::<T, A>(items@).len()),
        decreases items.len() - idx,
    {
        proof {
            lemma_flattened_step::<T, A>(items@, idx as int);
        }
        items[idx].append_to(r);
        idx = idx + 1;
    }
    assert(items@.take(items@.len() as int) =~= items@);
}

impl Argument<String> for String {
    /// A string emits itself.
    open spec fn emission(&self) -> Seq<Seq<char>> {
        seq![self@]
    }

    fn append_to<R: ArgumentReceiver<String>>(&self, r: &mut R) {
        r.arg(self.as_str());
    }
}

impl<'a> Argument<String> for &'a str {
    /// A string slice emits itself.
    open spec fn emission(&self) -> Seq<Seq<char>> {
        seq![(*self)@]
    }

    fn append_to<R: ArgumentReceiver<String>>(&self, r: &mut R) {
        r.arg(*self);
    }
}

impl<T: View, A: Argument<T>> Argument<T> for Vec<A> {
    /// A vector emits what its items emit, in index order.
    open spec fn emission(&self) -> Seq<T::V> {
        flattened::<T, A>(self@)
    }

    fn append_to<R: ArgumentReceiver<T>>(&self, r: &mut R) {
        append_items(self.as_slice(), r);
    }
}

impl<T: View, A: Argument<T>> Argument<T> for [A] {
    /// A slice emits what its items emit, in index order.
    open spec fn emission(&self) -> Seq<T::V> {
        flattened::<T, A>(self@)
    }

    fn append_to<R: ArgumentReceiver<T>>(&self, r: &mut R) {
        append_items(self, r);
    }
}

impl<T: View, A: Argument<T>, const N: usize> Argument<T> for [A; N] {
    /// An array emits what its items emit, in index order.
    open spec fn emission(&self) -> Seq<T::V> {
        flattened::<T, A>(self@)
    }

    fn append_to<R: ArgumentReceiver<T>>(&self, r: &mut R) {
        append_items(self.as_slice(), r);
    }
}

impl<T: View, A: Argument<T>, B: Argument<T>> Argument<T> for (A, B) {
    /// A pair emits what its components emit, in their order.
    open spec fn emission(&self) -> Seq<T::V> {
        self.0.emission() + self.1.emission()
    }

    fn append_to<R>(&self, r: &mut R) where R: ArgumentReceiver<T> {
        self.0.append_to(r);
        self.1.append_to(r);
    }
}

impl<T: View, A: Argument<T>, B: Argument<T>, C: Argument<T>> Argument<T> for (A, B, C) {
    /// A triple emits what its components emit, in their order.
    open spec fn emission(&self) -> Seq<T::V> {
        self.0.emission() + self.1.emission() + self.2.emission()
    }

    fn append_to<R>(&self, r: &mut R) where R: ArgumentReceiver<T> {
        self.0.append_to(r);
        self.1.append_to(r);
        self.2.append_to(r);
    }
}

impl<T: View, A: Argument<T>, B: Argument<T>, C: Argument<T>, D: Argument<T>> Argument<T> for (
    A,
    B,
    C,
    D,
) {
    /// A tuple of four emits what its components emit, in their order.
    open spec fn emission(&self) -> Seq<T::V> {
        self.0.emission() + self.1.emission() + self.2.emission() + self.3.emission()
    }

    fn append_to<R>(&self, r: &mut R) where R: ArgumentReceiver<T> {
        self.0.append_to(r);
        self.1.append_to(r);
        self.2.append_to(r);
        self.3.append_to(r);
    }
}

} // verus!
