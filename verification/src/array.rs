//! `FixedArray<T, N>`: exactly `N` elements of `T`, stored contiguously.
//!
//! The length is a property of the type, not of the value: a `FixedArray` has
//! no header and no length field, so a reference to its storage can be handed
//! across a foreign-function boundary as a pointer with an implied length.
//! Contracts speak of a value through its view, the `Seq<T>` of its elements
//! in index order.

use core::ops::{Index, Range, RangeFrom, RangeFull, RangeTo};
use crate::hex::{hex, is_lower_hex, lemma_hex_shape, push_hex};
use vstd::prelude::*;
use vstd::std_specs::cmp::PartialEqSpec;
use vstd::string::StringExecFns;

verus! {

/// A buffer of exactly `N` elements, owned outright by its holder.
pub struct FixedArray<T, const N: usize> {
    data: [T; N],
}

impl<T, const N: usize> View for FixedArray<T, N> {
    type V = Seq<T>;

    closed spec fn view(&self) -> Seq<T> {
        self.data@
    }
}

impl<T, const N: usize> FixedArray<T, N> {
    /// Every value holds exactly `N` elements.
    pub broadcast proof fn lemma_view_len(self)
        ensures
            #[trigger] self@.len() == N,
    {
    }

    /// Takes `data` as the backing storage.
    pub fn new(data: [T; N]) -> (a: Self)
        ensures
            a@ == data@,
    {
        FixedArray { data }
    }

    /// The backing storage, read-only, for as long as `self` is borrowed.
    pub fn as_array(&self) -> (storage: &[T; N])
        ensures
            storage@ == self@,
    {
        &self.data
    }

    /// The backing storage, writable, for as long as `self` is borrowed. What
    /// the caller leaves in it is what `self` holds afterwards.
    pub fn as_mut_array(&mut self) -> (storage: &mut [T; N])
        ensures
            storage@ == old(self)@,
            final(self)@ == final(storage)@,
    {
        &mut self.data
    }

    /// The number of elements, which is `N` for every value.
    pub fn len(&self) -> (n: usize)
        ensures
            n == N,
            n == self@.len(),
    {
        N
    }

    /// `false` for every value, whatever `N` is.
    pub fn is_empty(&self) -> (b: bool)
        ensures
            !b,
            N >= 1 ==> b == (self@.len() == 0),
    {
        false
    }
}

/// `core::ops::RangeTo`, the type of `..end`. It is declared as vstd declares
/// `Range`, with its public field `end` in sight: the contract of `a[..end]`
/// reads it.
#[verifier::external_type_specification]
#[verifier::reject_recursive_types(Idx)]
pub struct ExRangeTo<Idx>(core::ops::RangeTo<Idx>);

/// `core::ops::RangeFrom`, the type of `start..`, declared with its public
/// field `start` in sight: the contract of `a[start..]` reads it.
#[verifier::external_type_specification]
#[verifier::reject_recursive_types(Idx)]
pub struct ExRangeFrom<Idx>(core::ops::RangeFrom<Idx>);

/// `core::ops::RangeFull`, the type of `..`, which has no fields.
#[verifier::external_type_specification]
pub struct ExRangeFull(core::ops::RangeFull);

impl<T, const N: usize> vstd::std_specs::core::IndexSpecImpl<usize> for FixedArray<T, N> {
    /// `a[i]` takes an `i` below `N`.
    open spec fn index_req(&self, index: &usize) -> bool {
        *index < N
    }
}

impl<T, const N: usize> Index<usize> for FixedArray<T, N> {
    type Output = T;

    /// `a[i]`: the element at `i`.
    fn index(&self, index: usize) -> (element: &T)
        ensures
            *element == self@[index as int],
    {
        &self.data[index]
    }
}

impl<T, const N: usize> vstd::std_specs::core::IndexSpecImpl<Range<usize>> for FixedArray<T, N> {
    /// `a[start..end]` takes a window inside `[0, N)`.
    open spec fn index_req(&self, index: &Range<usize>) -> bool {
        index.start <= index.end <= N
    }
}

impl<T, const N: usize> Index<Range<usize>> for FixedArray<T, N> {
    type Output = [T];

    /// `a[start..end]`: the elements from `start` up to, not including, `end`.
    fn index(&self, index: Range<usize>) -> (window: &[T])
        ensures
            window@ == self@.subrange(index.start as int, index.end as int),
    {
        &self.data[index]
    }
}

impl<T, const N: usize> vstd::std_specs::core::IndexSpecImpl<RangeTo<usize>> for FixedArray<T, N> {
    /// `a[..end]` takes an `end` of at most `N`.
    open spec fn index_req(&self, index: &RangeTo<usize>) -> bool {
        index.end <= N
    }
}

impl<T, const N: usize> Index<RangeTo<usize>> for FixedArray<T, N> {
    type Output = [T];

    /// `a[..end]`: the first `end` elements.
    fn index(&self, index: RangeTo<usize>) -> (window: &[T])
        ensures
            window@ == self@.subrange(0, index.end as int),
    {
        &self.data[0..index.end]
    }
}

impl<T, const N: usize> vstd::std_specs::core::IndexSpecImpl<RangeFrom<usize>> for FixedArray<T, N> {
    /// `a[start..]` takes a `start` of at most `N`.
    open spec fn index_req(&self, index: &RangeFrom<usize>) -> bool {
        index.start <= N
    }
}

impl<T, const N: usize> Index<RangeFrom<usize>> for FixedArray<T, N> {
    type Output = [T];

    /// `a[start..]`: the elements from `start` to the end.
    fn index(&self, index: RangeFrom<usize>) -> (window: &[T])
        ensures
            window@ == self@.subrange(index.start as int, N as int),
    {
        &self.data[index.start..N]
    }
}

impl<T, const N: usize> vstd::std_specs::core::IndexSpecImpl<RangeFull> for FixedArray<T, N> {
    /// `a[..]` is defined for every value.
    open spec fn index_req(&self, index: &RangeFull) -> bool {
        true
    }
}

impl<T, const N: usize> Index<RangeFull> for FixedArray<T, N> {
    type Output = [T];

    /// `a[..]`: all `N` elements.
    fn index(&self, index: RangeFull) -> (window: &[T])
        ensures
            window@ == self@,
    {
        &self.data[0..N]
    }
}

impl<T: Copy, const N: usize> Clone for FixedArray<T, N> {
    /// A second value with the same `N` elements, copied in one step. The
    /// result owns its storage: nothing written to one is seen in the other.
    fn clone(&self) -> (copy: Self)
        ensures
            copy == *self,
            copy@ == self@,
    {
        FixedArray { data: self.data }
    }
}

impl<T: Copy, const N: usize> Copy for FixedArray<T, N> {
}

impl<T: PartialEq, const N: usize> vstd::std_specs::cmp::PartialEqSpecImpl for FixedArray<T, N> {
    /// `==` computes `eq_spec` wherever `==` on the elements computes theirs.
    open spec fn obeys_eq_spec() -> bool {
        T::obeys_eq_spec()
    }

    /// Two values are equal when their elements are equal pairwise, index by
    /// index.
    open spec fn eq_spec(&self, other: &Self) -> bool {
        forall|i: int| 0 <= i < N ==> #[trigger] self@[i].eq_spec(&other@[i])
    }
}

impl<T: PartialEq, const N: usize> PartialEq for FixedArray<T, N> {
    /// Compares the elements pairwise, in index order.
    fn eq(&self, other: &Self) -> (equal: bool) {
        let mut i: usize = 0;
        while i < N
            invariant
                i <= N,
                T::obeys_eq_spec() ==> forall|j: int|
                    0 <= j < i ==> #[trigger] self@[j].eq_spec(&other@[j]),
            decreases N - i,
        {
            if self.data[i] != other.data[i] {
                assert(T::obeys_eq_spec() ==> !self@[i as int].eq_spec(&other@[i as int]));
                return false;
            }
            i += 1;
        }
        true
    }
}

impl<T: Eq, const N: usize> Eq for FixedArray<T, N> {
}

/// The pretty rendering of `bytes` under the type name `name`: the name, an
/// opening parenthesis, the hexadecimal text of the bytes, a closing
/// parenthesis.
pub open spec fn pretty_text(name: Seq<char>, bytes: Seq<u8>) -> Seq<char> {
    name + seq!['('] + hex(bytes) + seq![')']
}

impl<const N: usize> FixedArray<u8, N> {
    /// The raw rendering: the hexadecimal text of the elements, `2 * N`
    /// lowercase digits, with no name and no delimiters.
    pub fn raw_debug(&self) -> (text: String)
        ensures
            text@ == hex(self@),
            text@.len() == 2 * N,
            forall|k: int| 0 <= k < text@.len() ==> is_lower_hex(#[trigger] text@[k]),
    {
        let mut text = String::new();
        push_hex(&mut text, &self.data);
        proof {
            lemma_hex_shape(self@);
        }
        text
    }

    /// The pretty rendering under the type name `name`: `name`, then `(`,
    /// then the `2 * N` digits of the raw rendering, then `)`.
    pub fn pretty_debug(&self, name: &str) -> (text: String)
        ensures
            text@ == pretty_text(name@, self@),
            text@.len() == name@.len() + 2 * N + 2,
    {
        let mut text = String::from_str(name);
        text.append("(");
        push_hex(&mut text, &self.data);
        text.append(")");
        proof {
            reveal_strlit("(");
            reveal_strlit(")");
            assert("("@ =~= seq!['(']);
            assert(")"@ =~= seq![')']);
        }
        text
    }
}

/// A pretty rendering is laid out as: the name, `(`, two lowercase
/// hexadecimal digits for each byte, `)`.
pub proof fn lemma_pretty_shape(name: Seq<char>, bytes: Seq<u8>)
    ensures
        pretty_text(name, bytes).len() == name.len() + 2 * bytes.len() + 2,
        pretty_text(name, bytes).subrange(0, name.len() as int) == name,
        pretty_text(name, bytes)[name.len() as int] == '(',
        pretty_text(name, bytes).subrange(
            name.len() as int + 1,
            name.len() as int + 1 + 2 * bytes.len() as int,
        ) == hex(bytes),
        forall|k: int|
            name.len() < k <= name.len() + 2 * bytes.len() ==> is_lower_hex(
                #[trigger] pretty_text(name, bytes)[k],
            ),
        pretty_text(name, bytes).last() == ')',
{
    let text = pretty_text(name, bytes);
    lemma_hex_shape(bytes);
    assert(text.subrange(0, name.len() as int) =~= name);
    assert(text.subrange(name.len() as int + 1, name.len() as int + 1 + 2 * bytes.len() as int)
        =~= hex(bytes));
    assert forall|k: int| name.len() < k <= name.len() + 2 * bytes.len() implies is_lower_hex(
        #[trigger] text[k],
    ) by {
        assert(text[k] == hex(bytes)[k - name.len() - 1]);
    }
}

/// Where `==` on the elements is equality of their values, two arrays are
/// equal exactly when they hold the same elements in the same order.
pub proof fn lemma_eq_is_same_elements<T: PartialEq, const N: usize>(
    a: FixedArray<T, N>,
    b: FixedArray<T, N>,
)
    requires
        forall|x: T, y: T| #[trigger] x.eq_spec(&y) <==> x == y,
    ensures
        a.eq_spec(&b) <==> a@ == b@,
{
    if a.eq_spec(&b) {
        assert forall|i: int| 0 <= i < N implies a@[i] == b@[i] by {
            assert(a@[i].eq_spec(&b@[i]));
        }
        assert(a@ =~= b@);
    }
}

/// A write to a clone is seen in the clone alone: with `value` written at
/// `index`, the clone holds `value` there and agrees with the source at
/// every other index, and the source still holds what the clone held before
/// the write.
pub proof fn lemma_write_to_clone<T, const N: usize>(
    source: FixedArray<T, N>,
    copy: FixedArray<T, N>,
    written: FixedArray<T, N>,
    index: int,
    value: T,
)
    requires
        copy@ == source@,
        0 <= index < N,
        written@ == copy@.update(index, value),
    ensures
        written@[index] == value,
        forall|j: int| 0 <= j < N && j != index ==> written@[j] == source@[j],
        source@ == copy@,
        value != source@[index] ==> written@ != source@,
{
    source.lemma_view_len();
}

/// A clone is equal to its source, on elements that are equal to themselves.
pub proof fn lemma_clone_is_equal<T: PartialEq, const N: usize>(
    source: FixedArray<T, N>,
    copy: FixedArray<T, N>,
)
    requires
        copy@ == source@,
        forall|x: T| #[trigger] x.eq_spec(&x),
    ensures
        source.eq_spec(&copy),
        copy.eq_spec(&source),
{
}

} // verus!
