//! Pages of virtual memory and ranges of them.

use crate::memory::addr::{Addr, VirtAddr};
use crate::memory::utils::{is_power_of_two, lemma_align_down_bounds, spec_align_down, Error};
use core::cmp::Ordering;
use core::convert::Infallible;
use core::fmt::Debug;
use core::marker::PhantomData;
use core::ops::{Add, Sub};
use vstd::arithmetic::div_mod::{
    lemma_div_by_multiple, lemma_fundamental_div_mod, lemma_mod_multiples_basic,
    lemma_mod_multiples_vanish,
};
use vstd::prelude::*;
use vstd::std_specs::ops::{AddSpec, SubSpec};

verus! {

/// Trait for abstracting over the three possible page sizes on x86_64, 4KiB, 2MiB, 1GiB.
pub trait PageSize: Copy + Eq + PartialOrd + Ord + Debug {
    /// The page size in bytes.
    const SIZE: u64;

    /// A string representation of the page size for debug output.
    const SIZE_AS_DEBUG_STR: &'static str;

    /// Every page size is a power of two.
    proof fn size_is_power_of_two()
        ensures
            is_power_of_two(Self::SIZE),
    ;
}

/// This trait is implemented for 4KiB and 2MiB pages, but not for 1GiB pages.
pub trait NotGiantPageSize: PageSize {

}

/// A standard 4KiB page.
#[derive(Debug, Clone, Copy, PartialEq, Eq, PartialOrd, Ord)]
pub enum Size4KiB {
    /// Holds a value of a type that has none: the marker cannot be made.
    Never(Infallible),
}

/// A “huge” 2MiB page.
#[derive(Debug, Clone, Copy, PartialEq, Eq, PartialOrd, Ord)]
pub enum Size2MiB {
    /// Holds a value of a type that has none: the marker cannot be made.
    Never(Infallible),
}

/// A “giant” 1GiB page.
///
/// (Only available on newer x86_64 CPUs.)
#[derive(Debug, Clone, Copy, PartialEq, Eq, PartialOrd, Ord)]
pub enum Size1GiB {
    /// Holds a value of a type that has none: the marker cannot be made.
    Never(Infallible),
}

impl PageSize for Size4KiB {
    const SIZE: u64 = 4096;

    const SIZE_AS_DEBUG_STR: &'static str = "4KiB";

    proof fn size_is_power_of_two() {
        assert(is_power_of_two(4096)) by (bit_vector);
    }
}

impl NotGiantPageSize for Size4KiB {

}

impl PageSize for Size2MiB {
    const SIZE: u64 = Size4KiB::SIZE * 512;

    const SIZE_AS_DEBUG_STR: &'static str = "2MiB";

    proof fn size_is_power_of_two() {
        assert(is_power_of_two(0x20_0000)) by (bit_vector);
    }
}

impl NotGiantPageSize for Size2MiB {

}

impl PageSize for Size1GiB {
    const SIZE: u64 = Size2MiB::SIZE * 512;

    const SIZE_AS_DEBUG_STR: &'static str = "1GiB";

    proof fn size_is_power_of_two() {
        assert(is_power_of_two(0x4000_0000)) by (bit_vector);
    }
}

/// The three sizes in bytes: each is 512 times the one before.
pub proof fn lemma_page_sizes()
    ensures
        Size4KiB::SIZE == 4096,
        Size2MiB::SIZE == 512 * Size4KiB::SIZE,
        Size1GiB::SIZE == 512 * Size2MiB::SIZE,
{
}

/// A virtual memory page.
#[derive(Copy, Debug, Eq, Ord)]
pub struct Page<S: PageSize = Size4KiB> {
    start_address: VirtAddr,
    size: PhantomData<S>,
}

impl<S: PageSize> PartialEq for Page<S> {
    /// Pages of one size are equal where they start at the same address.
    fn eq(&self, other: &Self) -> (r: bool) {
        self.start_address == other.start_address
    }
}

impl<S: PageSize> vstd::std_specs::cmp::PartialEqSpecImpl for Page<S> {
    open spec fn obeys_eq_spec() -> bool {
        true
    }

    open spec fn eq_spec(&self, other: &Self) -> bool {
        self.start_address() == other.start_address()
    }
}

impl<S: PageSize> PartialOrd for Page<S> {
    /// Pages of one size are ordered as their start addresses are.
    fn partial_cmp(&self, other: &Self) -> (r: Option<Ordering>) {
        self.start_address.partial_cmp(&other.start_address)
    }
}

impl<S: PageSize> vstd::std_specs::cmp::PartialOrdSpecImpl for Page<S> {
    open spec fn obeys_partial_cmp_spec() -> bool {
        true
    }

    open spec fn partial_cmp_spec(&self, other: &Self) -> Option<Ordering> {
        if self.start_address().0 < other.start_address().0 {
            Some(Ordering::Less)
        } else if self.start_address().0 > other.start_address().0 {
            Some(Ordering::Greater)
        } else {
            Some(Ordering::Equal)
        }
    }
}

impl<S: PageSize> Clone for Page<S> {
    fn clone(&self) -> (r: Self)
        ensures
            r == *self,
    {
        *self
    }
}

impl<S: PageSize> Page<S> {
    /// What holds of every page: it starts at a multiple of its size.
    #[verifier::type_invariant]
    pub open spec fn well_formed(self) -> bool {
        self.start_address().0 % S::SIZE == 0
    }

    /// The address at which the page starts.
    pub closed spec fn spec_start_address(&self) -> VirtAddr {
        self.start_address
    }

    /// The page that starts at `addr`.
    pub closed spec fn starting_at(addr: u64) -> Self {
        Page { start_address: VirtAddr(addr), size: PhantomData }
    }

    /// Returns the page that starts at the given virtual address.
    ///
    /// Returns an error if the address is not correctly aligned (i.e. is not a valid page start).
    pub fn from_start_address(address: VirtAddr) -> (r: Result<Self, Error>)
        ensures
            address.0 % S::SIZE == 0 ==> r == Ok::<Self, Error>(Self::starting_at(address.0)),
            address.0 % S::SIZE == 0 ==> r.unwrap().start_address() == address,
            address.0 % S::SIZE != 0 ==> r == Err::<Self, Error>(Error::AddressNotAligned),
    {
        proof {
            S::size_is_power_of_two();
        }
        if !address.is_aligned(S::SIZE) {
            return Err(Error::AddressNotAligned);
        }
        Ok(Page::containing_address(address))
    }

    /// Returns the page that contains the given virtual address.
    pub fn containing_address(address: VirtAddr) -> (page: Self)
        ensures
            page == Self::starting_at(spec_align_down(address.0, S::SIZE)),
            page.start_address().0 == spec_align_down(address.0, S::SIZE),
            page.start_address().0 <= address.0 < page.start_address().0 + S::SIZE,
    {
        proof {
            S::size_is_power_of_two();
            lemma_align_down_bounds(address.0, S::SIZE);
        }
        Page { start_address: address.align_down(S::SIZE), size: PhantomData }
    }

    /// Returns the start address of the page.
    #[verifier::when_used_as_spec(spec_start_address)]
    pub fn start_address(&self) -> (r: VirtAddr)
        ensures
            r == self.spec_start_address(),
            r.0 % S::SIZE == 0,
    {
        proof {
            use_type_invariant(self);
        }
        self.start_address
    }

    /// Returns the size the page (4KB, 2MB or 1GB).
    pub fn size(&self) -> (r: u64)
        ensures
            r == S::SIZE,
    {
        S::SIZE
    }
}

impl<S: PageSize> Page<S> {
    /// Returns a range of pages, exclusive `end`.
    pub fn range(start: Self, end: Self) -> (r: PageRange<S>)
        ensures
            r.start == start,
            r.end == end,
    {
        PageRange { start, end }
    }

    /// Returns a range of pages, inclusive `end`.
    pub fn range_inclusive(start: Self, end: Self) -> (r: PageRangeInclusive<S>)
        ensures
            r.start == start,
            r.end == end,
    {
        PageRangeInclusive { start, end }
    }

    /// A page is the one that starts at its start address, and that
    /// address is a multiple of the page size exactly where the page is
    /// well formed.
    pub proof fn lemma_starting_at(addr: u64)
        ensures
            Self::starting_at(addr).start_address() == VirtAddr(addr),
            Self::starting_at(addr).well_formed() <==> addr % S::SIZE == 0,
    {
    }

    /// Two pages of one size that start at the same address are the same page.
    pub proof fn lemma_same_start(self, other: Self)
        requires
            self.start_address() == other.start_address(),
        ensures
            self == other,
    {
    }
}

/// A range of pages with inclusive upper bound.
#[derive(Copy, Debug, PartialEq, Eq)]
pub struct PageRangeInclusive<S: PageSize = Size4KiB> {
    /// The start of the range, inclusive.
    pub start: Page<S>,
    /// The end of the range, inclusive.
    pub end: Page<S>,
}

/// A range of pages with exclusive upper bound.
#[derive(Copy, Debug, PartialEq, Eq)]
pub struct PageRange<S: PageSize = Size4KiB> {
    /// The start of the range, inclusive.
    pub start: Page<S>,
    /// The end of the range, exclusive.
    pub end: Page<S>,
}

impl<S: PageSize> Clone for PageRangeInclusive<S> {
    fn clone(&self) -> (r: Self)
        ensures
            r == *self,
    {
        *self
    }
}

impl<S: PageSize> Clone for PageRange<S> {
    fn clone(&self) -> (r: Self)
        ensures
            r == *self,
    {
        *self
    }
}

impl<S: PageSize> Add<u64> for Page<S> {
    type Output = Page<S>;

    /// The page `rhs` pages further on.
    fn add(self, rhs: u64) -> (r: Page<S>)
        ensures
            r.start_address().0 == self.start_address().0 + rhs * S::SIZE,
    {
        proof {
            use_type_invariant(self);
            S::size_is_power_of_two();
            lemma_page_offset::<S>(self.start_address.0, rhs);
        }
        Page::containing_address(self.start_address + rhs * S::SIZE)
    }
}

impl<S: PageSize> vstd::std_specs::ops::AddSpecImpl<u64> for Page<S> {
    open spec fn obeys_add_spec() -> bool {
        true
    }

    open spec fn add_req(self, rhs: u64) -> bool {
        self.start_address().0 + rhs * S::SIZE <= u64::MAX
    }

    open spec fn add_spec(self, rhs: u64) -> Page<S> {
        Self::starting_at((self.start_address().0 + rhs * S::SIZE) as u64)
    }
}

impl<S: PageSize> Sub<u64> for Page<S> {
    type Output = Page<S>;

    /// The page `rhs` pages before this one.
    fn sub(self, rhs: u64) -> (r: Page<S>)
        ensures
            r.start_address().0 == self.start_address().0 - rhs * S::SIZE,
    {
        proof {
            use_type_invariant(self);
            S::size_is_power_of_two();
            lemma_page_offset::<S>((self.start_address.0 - rhs * S::SIZE) as u64, rhs);
        }
        Page::containing_address(self.start_address - rhs * S::SIZE)
    }
}

impl<S: PageSize> vstd::std_specs::ops::SubSpecImpl<u64> for Page<S> {
    open spec fn obeys_sub_spec() -> bool {
        true
    }

    open spec fn sub_req(self, rhs: u64) -> bool {
        rhs * S::SIZE <= self.start_address().0
    }

    open spec fn sub_spec(self, rhs: u64) -> Page<S> {
        Self::starting_at((self.start_address().0 - rhs * S::SIZE) as u64)
    }
}

impl<S: PageSize> Sub<Page<S>> for Page<S> {
    type Output = u64;

    /// The number of pages from `rhs` up to this page.
    fn sub(self, rhs: Page<S>) -> (r: u64) {
        proof {
            S::size_is_power_of_two();
        }
        (self.start_address - rhs.start_address) / S::SIZE
    }
}

impl<S: PageSize> vstd::std_specs::ops::SubSpecImpl<Page<S>> for Page<S> {
    open spec fn obeys_sub_spec() -> bool {
        true
    }

    open spec fn sub_req(self, rhs: Page<S>) -> bool {
        rhs.start_address().0 <= self.start_address().0
    }

    open spec fn sub_spec(self, rhs: Page<S>) -> u64 {
        ((self.start_address().0 - rhs.start_address().0) / (S::SIZE as int)) as u64
    }
}

impl<S: PageSize> Page<S> {
    /// Moves the page `rhs` pages further on.
    pub fn add_assign(&mut self, rhs: u64)
        requires
            old(self).add_req(rhs),
        ensures
            *final(self) == old(self).add_spec(rhs),
            final(self).start_address().0 == old(self).start_address().0 + rhs * S::SIZE,
    {
        *self = *self + rhs;
    }

    /// Moves the page `rhs` pages back.
    pub fn sub_assign(&mut self, rhs: u64)
        requires
            old(self).sub_req(rhs),
        ensures
            *final(self) == old(self).sub_spec(rhs),
            final(self).start_address().0 == old(self).start_address().0 - rhs * S::SIZE,
    {
        *self = *self - rhs;
    }

    /// Going `n` pages on from a page and counting the pages back to it
    /// gives `n` again.
    pub proof fn lemma_sub_add(self, n: u64)
        requires
            self.add_req(n),
        ensures
            self.add_spec(n).sub_req(self),
            self.add_spec(n).sub_spec(self) == n,
            n * S::SIZE <= u64::MAX ==> self.add_spec(n).sub_req(n),
            self.add_spec(n).sub_spec(n) == self,
    {
        S::size_is_power_of_two();
        lemma_div_by_multiple(n as int, S::SIZE as int);
    }
}

impl<S: PageSize> PageRange<S> {
    /// How many pages the range holds.
    pub open spec fn spec_len(self) -> nat {
        if self.start.start_address().0 < self.end.start_address().0 {
            ((self.end.start_address().0 - self.start.start_address().0) / (S::SIZE as int)) as nat
        } else {
            0
        }
    }

    /// Returns wether this range contains no pages.
    pub fn is_empty(&self) -> (r: bool)
        ensures
            r == (self.start.start_address().0 >= self.end.start_address().0),
            r == (self@.len() == 0),
    {
        proof {
            use_type_invariant(&self.start);
            use_type_invariant(&self.end);
            self.lemma_len();
        }
        !(self.start < self.end)
    }

    /// Hands out the first page of the range and lets the range begin
    /// one page later; `None`, and no change, where the range is empty.
    pub fn next(&mut self) -> (r: Option<Page<S>>)
        ensures
            final(self).end == old(self).end,
            old(self)@.len() == 0 ==> r.is_none() && *final(self) == *old(self),
            old(self)@.len() > 0 ==> r == Some(old(self).start) && r == Some(old(self)@[0]),
            old(self)@.len() > 0 ==> final(self).start == old(self).start.add_spec(1),
            old(self)@.len() > 0 ==> final(self).start.start_address().0
                == old(self).start.start_address().0 + S::SIZE,
            old(self)@.len() > 0 ==> final(self)@ == old(self)@.skip(1),
    {
        proof {
            use_type_invariant(&self.start);
            use_type_invariant(&self.end);
            self.lemma_len();
        }
        if self.start < self.end {
            let page = self.start;
            proof {
                self.lemma_step();
            }
            self.start.add_assign(1);
            Some(page)
        } else {
            None
        }
    }

    /// The page at place `i` of the range starts `i` pages after the
    /// start of the range and before its end: the pages come in rising
    /// order, none of them twice.
    pub proof fn lemma_page_at(self, i: int)
        requires
            self.start.well_formed(),
            self.end.well_formed(),
            0 <= i < self@.len(),
        ensures
            self@[i].start_address().0 == self.start.start_address().0 + i * S::SIZE,
            self@[i].start_address().0 < self.end.start_address().0,
            self@[i].well_formed(),
    {
        self.lemma_len();
        S::size_is_power_of_two();
        let size = S::SIZE as int;
        let n = self.spec_len() as int;
        assert(i * size + size <= n * size) by (nonlinear_arith)
            requires
                0 <= i < n,
                size > 0,
        ;
        assert(0 <= i * size) by (nonlinear_arith)
            requires
                0 <= i,
                size > 0,
        ;
        lemma_mod_multiples_vanish(i, self.start.start_address().0 as int, size);
        assert(size * i == i * size) by (nonlinear_arith);
    }

    /// A range that is not empty holds at least one page, its first one,
    /// and the end lies a whole number of pages after the start.
    proof fn lemma_len(self)
        requires
            self.start.well_formed(),
            self.end.well_formed(),
        ensures
            self.start.start_address().0 < self.end.start_address().0 ==> self.spec_len() > 0
                && self@[0] == self.start && self.start.start_address().0 + self.spec_len()
                * S::SIZE == self.end.start_address().0,
            self.start.start_address().0 >= self.end.start_address().0 ==> self.spec_len() == 0,
            self@.len() == self.spec_len(),
    {
        S::size_is_power_of_two();
        let a = self.start.start_address().0 as int;
        let b = self.end.start_address().0 as int;
        let size = S::SIZE as int;
        if a < b {
            lemma_fundamental_div_mod(b - a, size);
            lemma_fundamental_div_mod(a, size);
            lemma_fundamental_div_mod(b, size);
            lemma_mod_multiples_basic(b / size - a / size, size);
            assert((b / size - a / size) * size == b - a) by (nonlinear_arith)
                requires
                    a == size * (a / size),
                    b == size * (b / size),
            ;
            assert((b - a) % size == 0);
            assert((b - a) / size > 0) by (nonlinear_arith)
                requires
                    size > 0,
                    b - a > 0,
                    b - a == size * ((b - a) / size),
            ;
            assert(self.spec_len() * S::SIZE == b - a) by (nonlinear_arith)
                requires
                    self.spec_len() == (b - a) / size,
                    b - a == size * ((b - a) / size),
                    S::SIZE == size,
            ;
        }
    }

    /// Taking the first page off a range that is not empty leaves the
    /// other pages, in their order.
    proof fn lemma_step(self)
        requires
            self.start.well_formed(),
            self.end.well_formed(),
            self.start.start_address().0 < self.end.start_address().0,
        ensures
            self.start.add_req(1),
            (PageRange { start: self.start.add_spec(1), end: self.end })@ == self@.skip(1),
    {
        self.lemma_len();
        S::size_is_power_of_two();
        let next = PageRange { start: self.start.add_spec(1), end: self.end };
        let a = self.start.start_address().0 as int;
        let b = self.end.start_address().0 as int;
        let size = S::SIZE as int;
        let n = self.spec_len() as int;
        assert(a + n * size == b);
        assert(n * size >= size) by (nonlinear_arith)
            requires
                n >= 1,
                size > 0,
        ;
        assert(1 * S::SIZE == size);
        assert(next.start.start_address().0 == a + size);
        if a + size < b {
            assert((n - 1) * size == b - (a + size)) by (nonlinear_arith)
                requires
                    a + n * size == b,
            ;
            lemma_div_by_multiple(n - 1, size);
            assert(next.spec_len() == n - 1);
        } else {
            assert(n == 1) by (nonlinear_arith)
                requires
                    a + n * size == b,
                    a + size >= b,
                    n >= 1,
                    size > 0,
            ;
        }
        assert(next@.len() == n - 1);
        assert forall|i: int| 0 <= i < n - 1 implies next@[i] == self@.skip(1)[i] by {
            assert((a + size) + i * size == a + (i + 1) * size) by (nonlinear_arith);
        }
        assert(next@ =~= self@.skip(1));
    }
}

impl<S: PageSize> View for PageRange<S> {
    type V = Seq<Page<S>>;

    /// The pages of the range, from its start up to the one before its end.
    open spec fn view(&self) -> Seq<Page<S>> {
        Seq::new(
            self.spec_len(),
            |i: int| Page::<S>::starting_at((self.start.start_address().0 + i * S::SIZE) as u64),
        )
    }
}

impl<S: PageSize> PageRangeInclusive<S> {
    /// How many pages the range holds.
    pub open spec fn spec_len(self) -> nat {
        if self.start.start_address().0 <= self.end.start_address().0 {
            ((self.end.start_address().0 - self.start.start_address().0) / (S::SIZE as int) + 1) as nat
        } else {
            0
        }
    }

    /// Whether `next` can be called: a range that still holds a page must
    /// have room in the address space for the page after its first one.
    pub open spec fn can_advance(self) -> bool {
        self.start.start_address().0 <= self.end.start_address().0
            ==> self.start.start_address().0 + S::SIZE <= u64::MAX
    }

    /// Returns wether this range contains no pages.
    pub fn is_empty(&self) -> (r: bool)
        ensures
            r == (self.start.start_address().0 > self.end.start_address().0),
            r == (self@.len() == 0),
    {
        proof {
            use_type_invariant(&self.start);
            use_type_invariant(&self.end);
            self.lemma_len();
        }
        !(self.start <= self.end)
    }

    /// Hands out the first page of the range and lets the range begin
    /// one page later; `None`, and no change, where the range is empty.
    pub fn next(&mut self) -> (r: Option<Page<S>>)
        requires
            old(self).can_advance(),
        ensures
            final(self).end == old(self).end,
            old(self)@.len() == 0 ==> r.is_none() && *final(self) == *old(self),
            old(self)@.len() > 0 ==> r == Some(old(self).start) && r == Some(old(self)@[0]),
            old(self)@.len() > 0 ==> final(self).start == old(self).start.add_spec(1),
            old(self)@.len() > 0 ==> final(self).start.start_address().0
                == old(self).start.start_address().0 + S::SIZE,
            old(self)@.len() > 0 ==> final(self)@ == old(self)@.skip(1),
    {
        proof {
            use_type_invariant(&self.start);
            use_type_invariant(&self.end);
            self.lemma_len();
        }
        if self.start <= self.end {
            let page = self.start;
            proof {
                self.lemma_step();
            }
            self.start.add_assign(1);
            Some(page)
        } else {
            None
        }
    }

    /// The page at place `i` of the range starts `i` pages after the
    /// start of the range and not after its end: the pages come in
    /// rising order, none of them twice.
    pub proof fn lemma_page_at(self, i: int)
        requires
            self.start.well_formed(),
            self.end.well_formed(),
            0 <= i < self@.len(),
        ensures
            self@[i].start_address().0 == self.start.start_address().0 + i * S::SIZE,
            self@[i].start_address().0 <= self.end.start_address().0,
            self@[i].well_formed(),
    {
        self.lemma_len();
        S::size_is_power_of_two();
        let size = S::SIZE as int;
        let n = self.spec_len() as int;
        assert(i * size <= (n - 1) * size) by (nonlinear_arith)
            requires
                0 <= i < n,
                size > 0,
        ;
        assert(0 <= i * size) by (nonlinear_arith)
            requires
                0 <= i,
                size > 0,
        ;
        lemma_mod_multiples_vanish(i, self.start.start_address().0 as int, size);
        assert(size * i == i * size) by (nonlinear_arith);
    }

    /// A range that is not empty holds at least one page, its first one,
    /// and the end is its last one.
    proof fn lemma_len(self)
        requires
            self.start.well_formed(),
            self.end.well_formed(),
        ensures
            self.start.start_address().0 <= self.end.start_address().0 ==> self.spec_len() > 0
                && self@[0] == self.start && self.start.start_address().0 + (self.spec_len() - 1)
                * S::SIZE == self.end.start_address().0,
            self.start.start_address().0 > self.end.start_address().0 ==> self.spec_len() == 0,
            self@.len() == self.spec_len(),
    {
        S::size_is_power_of_two();
        let a = self.start.start_address().0 as int;
        let b = self.end.start_address().0 as int;
        let size = S::SIZE as int;
        if a <= b {
            lemma_fundamental_div_mod(b - a, size);
            lemma_fundamental_div_mod(a, size);
            lemma_fundamental_div_mod(b, size);
            lemma_mod_multiples_basic(b / size - a / size, size);
            assert((b / size - a / size) * size == b - a) by (nonlinear_arith)
                requires
                    a == size * (a / size),
                    b == size * (b / size),
            ;
            assert((b - a) % size == 0);
            assert((b - a) / size >= 0) by (nonlinear_arith)
                requires
                    size > 0,
                    b - a >= 0,
                    b - a == size * ((b - a) / size),
            ;
            assert((self.spec_len() - 1) * S::SIZE == b - a) by (nonlinear_arith)
                requires
                    self.spec_len() - 1 == (b - a) / size,
                    b - a == size * ((b - a) / size),
                    S::SIZE == size,
            ;
        }
    }

    /// Taking the first page off a range that is not empty leaves the
    /// other pages, in their order.
    proof fn lemma_step(self)
        requires
            self.start.well_formed(),
            self.end.well_formed(),
            self.start.start_address().0 <= self.end.start_address().0,
            self.start.add_req(1),
        ensures
            (PageRangeInclusive { start: self.start.add_spec(1), end: self.end })@ == self@.skip(1),
    {
        self.lemma_len();
        S::size_is_power_of_two();
        let next = PageRangeInclusive { start: self.start.add_spec(1), end: self.end };
        let a = self.start.start_address().0 as int;
        let b = self.end.start_address().0 as int;
        let size = S::SIZE as int;
        let n = self.spec_len() as int;
        assert(a + (n - 1) * size == b);
        assert(1 * S::SIZE == size);
        assert(next.start.start_address().0 == a + size);
        if a + size <= b {
            assert((n - 2) * size == b - (a + size)) by (nonlinear_arith)
                requires
                    a + (n - 1) * size == b,
            ;
            assert(n >= 2) by (nonlinear_arith)
                requires
                    a + (n - 1) * size == b,
                    a + size <= b,
                    size > 0,
            ;
            lemma_div_by_multiple(n - 2, size);
            assert(next.spec_len() == n - 1);
        } else {
            assert(n == 1) by (nonlinear_arith)
                requires
                    a + (n - 1) * size == b,
                    a + size > b,
                    n >= 1,
                    size > 0,
            ;
        }
        assert(next@.len() == n - 1);
        assert forall|i: int| 0 <= i < n - 1 implies next@[i] == self@.skip(1)[i] by {
            assert((a + size) + i * size == a + (i + 1) * size) by (nonlinear_arith);
        }
        assert(next@ =~= self@.skip(1));
    }
}

impl<S: PageSize> View for PageRangeInclusive<S> {
    type V = Seq<Page<S>>;

    /// The pages of the range, from its start up to its end.
    open spec fn view(&self) -> Seq<Page<S>> {
        Seq::new(
            self.spec_len(),
            |i: int| Page::<S>::starting_at((self.start.start_address().0 + i * S::SIZE) as u64),
        )
    }
}

impl PageRange<Size2MiB> {
    /// Converts the range of 2MiB pages to a range of 4KiB pages.
    pub fn as_4kib_page_range(self) -> (r: PageRange<Size4KiB>)
        ensures
            r.start.start_address() == self.start.start_address(),
            r.end.start_address() == self.end.start_address(),
    {
        proof {
            use_type_invariant(&self.start);
            use_type_invariant(&self.end);
            lemma_huge_page_start(self.start.start_address.0);
            lemma_huge_page_start(self.end.start_address.0);
        }
        PageRange {
            start: Page::containing_address(self.start.start_address()),
            end: Page::containing_address(self.end.start_address()),
        }
    }
}

/// An address at which a 2MiB page starts is one at which a 4KiB page
/// starts too, so rounding it down to 4KiB leaves it as it is.
proof fn lemma_huge_page_start(addr: u64)
    requires
        addr % Size2MiB::SIZE == 0,
    ensures
        addr % Size4KiB::SIZE == 0,
        spec_align_down(addr, Size4KiB::SIZE) == addr,
{
    assert(addr % 0x20_0000 == 0 ==> addr % 4096 == 0) by (bit_vector);
}

/// Moving a whole number of pages keeps an address's remainder by the
/// page size.
proof fn lemma_page_offset<S: PageSize>(addr: u64, pages: u64)
    requires
        S::SIZE != 0,
    ensures
        (addr + pages * S::SIZE) % (S::SIZE as int) == addr % S::SIZE,
{
    lemma_mod_multiples_vanish(pages as int, addr as int, S::SIZE as int);
    assert(S::SIZE * pages == pages * S::SIZE) by (nonlinear_arith);
}

} // verus!
