//! A vector that keeps up to four elements inline and spills to the heap
//! beyond that.
//!
//! Its abstract value is the sequence of its elements; every operation is
//! stated over that sequence. Whether the elements are stored inline is a
//! function of the length alone: inline exactly when there are at most four.

use core::cmp::Ordering;

use vstd::prelude::*;
use vstd::std_specs::cmp::OrdSpec;
use vstd::std_specs::iter::IteratorSpec;

verus! {

/// `Vec::from` on an array moves the array's items, in order, into a new
/// vector.
pub assume_specification<A, const N: usize>[ <std::vec::Vec<A> as std::convert::From<[A; N]>>::from ](
    arr: [A; N],
) -> (v: std::vec::Vec<A>)
    ensures
        v@ == arr@,
;

/// `slice::from_ref` views one element as a slice of length one.
pub assume_specification<A>[ core::slice::from_ref ](s: &A) -> (r: &[A])
    ensures
        r@ == seq![*s],
;

/// `slice::from_mut` views one element as a mutable slice of length one.
pub assume_specification<A>[ core::slice::from_mut ](s: &mut A) -> (r: &mut [A])
    ensures
        r@ == seq![*old(s)],
        final(r)@ == seq![*final(s)],
;

#[verifier::external_type_specification]
#[verifier::external_body]
#[verifier::reject_recursive_types(A)]
pub struct ExIterMut<'a, A: 'a>(core::slice::IterMut<'a, A>);

/// `slice::iter_mut`: an iterator yielding a mutable reference to each of
/// the slice's elements, from first to last. How writes through those
/// references reach the slice is left unsaid.
#[verifier::external_body]
fn slice_iter_mut<'a, E>(s: &'a mut [E]) -> (r: core::slice::IterMut<'a, E>)
    ensures
        IteratorSpec::remaining(&r).len() == old(s)@.len(),
        forall|i: int| 0 <= i < old(s)@.len() ==> *(#[trigger] IteratorSpec::remaining(&r)[i]) == old(s)@[i],
{
    s.iter_mut()
}

/// `keys` holds, for each element of `s`, the one key `f` gives for it.
pub open spec fn keys_of<'a, T: 'a, B, F: FnMut(&'a T) -> B>(s: Seq<T>, f: F, keys: Seq<B>) -> bool {
    &&& keys.len() == s.len()
    &&& forall|i: int, k: B| 0 <= i < s.len() && #[trigger] call_ensures(f, (&s[i],), k) ==> k == keys[i]
}

/// Keys in nondecreasing order.
pub open spec fn keys_sorted<B: Ord>(keys: Seq<B>) -> bool {
    forall|i: int, j: int| #![trigger keys[i], keys[j]] 0 <= i < j < keys.len() ==> keys[i].cmp_spec(&keys[j]) != Ordering::Greater
}

/// What a binary search over sorted keys answers: `Ok(i)` names a key equal
/// to `key`; `Err(i)` is the insertion point, with smaller keys before it
/// and greater keys from it on.
pub open spec fn search_answer<B: Ord>(keys: Seq<B>, key: B, r: Result<usize, usize>) -> bool {
    match r {
        Ok(i) => {
            &&& i < keys.len()
            &&& forall|n: int| n == i ==> (#[trigger] keys[n]).cmp_spec(&key) == Ordering::Equal
        },
        Err(i) => {
            &&& i <= keys.len()
            &&& forall|n: int| 0 <= n < i ==> (#[trigger] keys[n]).cmp_spec(&key) == Ordering::Less
            &&& forall|n: int| i <= n < keys.len() ==> (#[trigger] keys[n]).cmp_spec(&key) == Ordering::Greater
        },
    }
}

/// `slice::binary_search_by_key` on the slice `s`. When `B` obeys its
/// ordering laws and `f` gives each element one key, with the keys sorted,
/// `Ok(i)` names an element whose key equals `key` and `Err(i)` is the point
/// in `0..=len` where such an element could be inserted keeping the order.
/// On other inputs the result is left unsaid, as the documentation leaves
/// it. `f` may be called on any element.
#[verifier::external_body]
fn slice_binary_search_by_key<'a, T, B, F>(s: &'a [T], key: &B, f: F) -> (r: Result<usize, usize>)
    where
        B: Ord,
        F: FnMut(&'a T) -> B,
    requires
        forall|i: int| 0 <= i < s@.len() ==> call_requires(f, (&s@[i],)),
    ensures
        forall|keys: Seq<B>| vstd::laws_cmp::obeys_cmp::<B>() && #[trigger] keys_of(s@, f, keys) && keys_sorted(keys)
            ==> search_answer(keys, *key, r),
{
    s.binary_search_by_key(key, f)
}

/// Borrowing iterator over the elements of an [`InlineVec`].
pub type Iter<'a, T> = core::slice::Iter<'a, T>;

/// Owning iterator over the elements of an [`InlineVec`].
pub type IntoIter<T> = std::vec::IntoIter<T>;

/// Number of elements kept inline before spilling to the heap.
pub const INLINE_CAPACITY: usize = 4;

/// A vector storing up to four elements inline, spilling to a heap vector
/// once a fifth element arrives.
#[derive(Debug, Clone, PartialEq, Eq)]
pub struct InlineVec<T> {
    storage: Storage<T>,
}

#[derive(Debug, Clone, PartialEq, Eq)]
enum Storage<T> {
    Empty,
    One(T),
    Two([T; 2]),
    Three([T; 3]),
    Four([T; 4]),
    Heap(Vec<T>),
}

impl<T> Storage<T> {
    spec fn elems(&self) -> Seq<T> {
        match self {
            Storage::Empty => Seq::empty(),
            Storage::One(a) => seq![*a],
            Storage::Two(arr) => arr@,
            Storage::Three(arr) => arr@,
            Storage::Four(arr) => arr@,
            Storage::Heap(v) => v@,
        }
    }

    spec fn well_formed(&self) -> bool {
        match self {
            Storage::Heap(v) => v@.len() > 4,
            _ => true,
        }
    }
}

impl<T> View for InlineVec<T> {
    type V = Seq<T>;

    closed spec fn view(&self) -> Seq<T> {
        self.storage.elems()
    }
}

/// Moves the elements of a vector of exactly `n` items into the inline
/// storage of that size (or heap storage beyond four).
fn storage_from_vec<T>(v: Vec<T>) -> (s: Storage<T>)
    ensures
        s.elems() == v@,
        s.well_formed(),
        v@.len() == 0 ==> s is Empty,
        v@.len() > 4 ==> s is Heap,
        (v@.len() == 1) ==> s is One,
        (v@.len() == 2) ==> s is Two,
        (v@.len() == 3) ==> s is Three,
        (v@.len() == 4) ==> s is Four,
{
    let ghost orig = v@;
    let len = v.len();
    if len > 4 {
        return Storage::Heap(v);
    }
    let mut v = v;
    if len == 0 {
        assert(orig =~= Seq::<T>::empty());
        Storage::Empty
    } else if len == 1 {
        let a = v.pop().unwrap();
        assert(orig =~= seq![a]);
        Storage::One(a)
    } else if len == 2 {
        let b = v.pop().unwrap();
        let a = v.pop().unwrap();
        let arr = [a, b];
        assert(arr@ =~= orig);
        Storage::Two(arr)
    } else if len == 3 {
        let c = v.pop().unwrap();
        let b = v.pop().unwrap();
        let a = v.pop().unwrap();
        let arr = [a, b, c];
        assert(arr@ =~= orig);
        Storage::Three(arr)
    } else {
        let d = v.pop().unwrap();
        let c = v.pop().unwrap();
        let b = v.pop().unwrap();
        let a = v.pop().unwrap();
        let arr = [a, b, c, d];
        assert(arr@ =~= orig);
        Storage::Four(arr)
    }
}

/// Moves all elements of a storage into a vector, in order.
fn storage_into_vec<T>(s: Storage<T>) -> (v: Vec<T>)
    ensures
        v@ == s.elems(),
{
    match s {
        Storage::Empty => Vec::new(),
        Storage::One(a) => {
            let mut v = Vec::new();
            v.push(a);
            v
        }
        Storage::Two(arr) => Vec::from(arr),
        Storage::Three(arr) => Vec::from(arr),
        Storage::Four(arr) => Vec::from(arr),
        Storage::Heap(v) => v,
    }
}

impl<T> InlineVec<T> {
    /// Creates an empty vector.
    pub fn new() -> (r: Self)
        ensures
            r@ == Seq::<T>::empty(),
    {
        InlineVec { storage: Storage::Empty }
    }

    /// Builds a vector holding exactly the elements of `v`.
    pub fn from_vec(v: Vec<T>) -> (r: Self)
        ensures
            r@ == v@,
    {
        InlineVec { storage: storage_from_vec(v) }
    }

    /// Moves the elements into a standard vector.
    pub fn into_vec(self) -> (r: Vec<T>)
        ensures
            r@ == self@,
    {
        storage_into_vec(self.storage)
    }

    /// Number of elements.
    pub fn len(&self) -> (r: usize)
        ensures
            r == self@.len(),
    {
        match &self.storage {
            Storage::Empty => 0,
            Storage::One(_) => 1,
            Storage::Two(_) => 2,
            Storage::Three(_) => 3,
            Storage::Four(_) => 4,
            Storage::Heap(v) => v.len(),
        }
    }

    /// Whether the vector has no elements.
    pub fn is_empty(&self) -> (r: bool)
        ensures
            r == (self@.len() == 0),
    {
        self.len() == 0
    }

    /// Whether the elements are stored inline: exactly when there are at
    /// most four of them.
    pub fn is_inline(&self) -> (r: bool)
        ensures
            r == (self@.len() <= INLINE_CAPACITY),
    {
        self.len() <= INLINE_CAPACITY
    }

    /// Appends an element at the back.
    pub fn push(&mut self, value: T)
        ensures
            final(self)@ == old(self)@.push(value),
    {
        let mut storage = Storage::Empty;
        std::mem::swap(&mut storage, &mut self.storage);
        let ghost before = storage.elems();
        match storage {
            Storage::Empty => {
                assert(seq![value] =~= before.push(value));
                self.storage = Storage::One(value);
            }
            Storage::One(a) => {
                let arr = [a, value];
                assert(arr@ =~= before.push(value));
                self.storage = Storage::Two(arr);
            }
            Storage::Heap(v) => {
                let mut v = v;
                v.push(value);
                self.storage = Storage::Heap(v);
            }
            other => {
                let mut v = storage_into_vec(other);
                v.push(value);
                self.storage = storage_from_vec(v);
            }
        }
    }

    /// Inserts an element at `index`, shifting the later elements right.
    pub fn insert(&mut self, index: usize, value: T)
        requires
            index <= old(self)@.len(),
        ensures
            final(self)@ == old(self)@.insert(index as int, value),
    {
        let mut storage = Storage::Empty;
        std::mem::swap(&mut storage, &mut self.storage);
        let ghost before = storage.elems();
        let mut v = storage_into_vec(storage);
        v.insert(index, value);
        self.storage = storage_from_vec(v);
    }

    /// The element at `index`, if there is one.
    pub fn get(&self, index: usize) -> (r: Option<&T>)
        ensures
            index < self@.len() ==> (r matches Some(x) && *x == self@[index as int]),
            index >= self@.len() ==> r is None,
    {
        match &self.storage {
            Storage::Empty => None,
            Storage::One(a) => if index == 0 { Some(a) } else { None },
            Storage::Two(arr) => if index < 2 { Some(&arr[index]) } else { None },
            Storage::Three(arr) => if index < 3 { Some(&arr[index]) } else { None },
            Storage::Four(arr) => if index < 4 { Some(&arr[index]) } else { None },
            Storage::Heap(v) => if index < v.len() { Some(&v[index]) } else { None },
        }
    }

    /// Mutable access to the element at `index`, if there is one.
    pub fn get_mut(&mut self, index: usize) -> (r: Option<&mut T>)
        ensures
            index < old(self)@.len() ==> (r matches Some(x) && *x == old(self)@[index as int]
                && final(self)@ == old(self)@.update(index as int, *final(x))),
            index >= old(self)@.len() ==> r is None && final(self)@ == old(self)@,
    {
        match &mut self.storage {
            Storage::Empty => None,
            Storage::One(a) => if index == 0 { Some(a) } else { None },
            Storage::Two(arr) => if index < 2 { Some(&mut arr[index]) } else { None },
            Storage::Three(arr) => if index < 3 { Some(&mut arr[index]) } else { None },
            Storage::Four(arr) => if index < 4 { Some(&mut arr[index]) } else { None },
            Storage::Heap(v) => if index < v.len() { Some(&mut v[index]) } else { None },
        }
    }

    /// The elements as a mutable slice.
    pub fn as_mut_slice(&mut self) -> (r: &mut [T])
        ensures
            r@ == old(self)@,
            final(self)@ == final(r)@,
    {
        match &mut self.storage {
            Storage::Empty => &mut [],
            Storage::One(a) => core::slice::from_mut(a),
            Storage::Two(arr) => vstd::array::ref_mut_array_unsizing_coercion(arr),
            Storage::Three(arr) => vstd::array::ref_mut_array_unsizing_coercion(arr),
            Storage::Four(arr) => vstd::array::ref_mut_array_unsizing_coercion(arr),
            Storage::Heap(v) => v.as_mut_slice(),
        }
    }

    /// Removes all elements.
    pub fn clear(&mut self)
        ensures
            final(self)@ == Seq::<T>::empty(),
    {
        self.storage = Storage::Empty;
    }

    /// The elements as a slice.
    pub fn as_slice(&self) -> (r: &[T])
        ensures
            r@ == self@,
    {
        match &self.storage {
            Storage::Empty => &[],
            Storage::One(a) => core::slice::from_ref(a),
            Storage::Two(arr) => arr.as_slice(),
            Storage::Three(arr) => arr.as_slice(),
            Storage::Four(arr) => arr.as_slice(),
            Storage::Heap(v) => v.as_slice(),
        }
    }

    /// Iterator over mutable references to the elements, in order.
    pub fn iter_mut(&mut self) -> (r: core::slice::IterMut<'_, T>)
        ensures
            IteratorSpec::remaining(&r).len() == old(self)@.len(),
            forall|i: int| 0 <= i < old(self)@.len() ==> *(#[trigger] IteratorSpec::remaining(&r)[i]) == old(self)@[i],
    {
        slice_iter_mut(self.as_mut_slice())
    }

    /// Binary search for `key` among the keys that `f` extracts, assuming
    /// the elements are sorted by that key.
    ///
    /// `Ok(i)` names a matching element; `Err(i)` is the position where a
    /// matching element could be inserted keeping the order.
    pub fn binary_search_by_key<'a, B, F>(&'a self, key: &B, f: F) -> (r: Result<usize, usize>)
        where
            B: Ord,
            F: FnMut(&'a T) -> B,
        requires
            forall|i: int| 0 <= i < self@.len() ==> call_requires(f, (&self@[i],)),
        ensures
            forall|keys: Seq<B>| vstd::laws_cmp::obeys_cmp::<B>() && #[trigger] keys_of(self@, f, keys) && keys_sorted(keys)
                ==> search_answer(keys, *key, r),
    {
        slice_binary_search_by_key(self.as_slice(), key, f)
    }

    /// Iterator over references to the elements, in order.
    pub fn iter(&self) -> (r: core::slice::Iter<'_, T>)
        ensures
            IteratorSpec::remaining(&r) == self@.as_ref(),
            IteratorSpec::obeys_prophetic_iter_laws(&r),
    {
        let s = self.as_slice();
        proof { vstd::std_specs::slice::axiom_spec_slice_iter(s); }
        s.iter()
    }
}

impl<T> Default for InlineVec<T> {
    fn default() -> (r: Self)
        ensures
            r@ == Seq::<T>::empty(),
    {
        InlineVec::new()
    }
}

impl<T> core::ops::Deref for InlineVec<T> {
    type Target = [T];

    fn deref(&self) -> (r: &[T])
        ensures
            r@ == self@,
    {
        self.as_slice()
    }
}

impl<T> core::ops::DerefMut for InlineVec<T> {
    fn deref_mut(&mut self) -> (r: &mut [T])
        ensures
            r@ == old(self)@,
            final(self)@ == final(r)@,
    {
        self.as_mut_slice()
    }
}

impl<T> IntoIterator for InlineVec<T> {
    type Item = T;
    type IntoIter = std::vec::IntoIter<T>;

    fn into_iter(self) -> (r: std::vec::IntoIter<T>)
        ensures
            IteratorSpec::remaining(&r) == self@,
            IteratorSpec::obeys_prophetic_iter_laws(&r),
    {
        let v = self.into_vec();
        proof { vstd::std_specs::vec::axiom_spec_into_iter(v); }
        v.into_iter()
    }
}

impl<'a, T> IntoIterator for &'a InlineVec<T> {
    type Item = &'a T;
    type IntoIter = core::slice::Iter<'a, T>;

    fn into_iter(self) -> (r: core::slice::Iter<'a, T>)
        ensures
            IteratorSpec::remaining(&r) == self@.as_ref(),
            IteratorSpec::obeys_prophetic_iter_laws(&r),
    {
        self.iter()
    }
}

} // verus!
