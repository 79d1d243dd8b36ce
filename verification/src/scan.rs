//! Looking for bad pages.

use vstd::prelude::*;

use crate::text::{append_decimal, decimal, opt_text};

verus! {

/// A search for bad pages: every page but the first is read, in order.
pub struct PageScan {
    /// The size of a page.
    pub pagesize: usize,
    /// The number of pages.
    pub pages: u32,
    /// Where the first page starts on the device.
    pub offset: u64,
    /// Whether to report each bad page.
    pub verbose: bool,
    /// The page to read next.
    pub next: u32,
    /// The bad pages found so far.
    pub badpages: Vec<u32>,
}

/// A [`PageScan`] as a mathematical value.
pub struct ScanView {
    pub pagesize: usize,
    pub pages: u32,
    pub offset: u64,
    pub verbose: bool,
    pub next: u32,
    pub badpages: Seq<u32>,
}

impl View for PageScan {
    type V = ScanView;

    open spec fn view(&self) -> ScanView {
        ScanView {
            pagesize: self.pagesize,
            pages: self.pages,
            offset: self.offset,
            verbose: self.verbose,
            next: self.next,
            badpages: self.badpages@,
        }
    }
}

/// `n` as a signed number of the same 64 bits.
pub open spec fn signed(n: u64) -> int {
    if n <= i64::MAX {
        n as int
    } else {
        n - 0x1_0000_0000_0000_0000
    }
}

impl ScanView {
    /// A search that has not read a page yet.
    pub open spec fn start(pagesize: usize, pages: u32, offset: u64, verbose: bool) -> ScanView {
        ScanView { pagesize, pages, offset, verbose, next: 1, badpages: Seq::empty() }
    }

    /// The pages found bad lie between the first page and the one to read next, in ascending
    /// order and each once; a page fits in memory.
    pub open spec fn wf(self) -> bool {
        &&& self.pagesize <= isize::MAX
        &&& 1 <= self.next
        &&& self.next == 1 || self.next <= self.pages
        &&& forall|i: int|
            0 <= i < self.badpages.len() ==> 1 <= #[trigger] self.badpages[i] < self.next
        &&& forall|i: int, j: int|
            0 <= i < j < self.badpages.len() ==> self.badpages[i] < self.badpages[j]
    }

    /// Whether a page is left to read.
    pub open spec fn pending(self) -> bool {
        self.next < self.pages
    }

    /// How far into the area the page to read next starts.
    pub open spec fn distance(self) -> int {
        self.next * self.pagesize
    }

    /// The position of the page to read next is a file position.
    pub open spec fn position_fits(self) -> bool {
        &&& self.distance() <= i64::MAX
        &&& signed(self.offset) + self.distance() <= i64::MAX
    }

    /// The search after the read of a page returned `count`: a page of which fewer bytes came
    /// than it has is bad.
    pub open spec fn recorded(self, count: isize) -> ScanView {
        ScanView {
            next: (self.next + 1) as u32,
            badpages: if count < self.pagesize {
                self.badpages.push(self.next)
            } else {
                self.badpages
            },
            ..self
        }
    }

    /// What the user is told about the page after its read returned `count`.
    pub open spec fn report(self, count: isize) -> Option<Seq<char>> {
        if count < self.pagesize && self.verbose {
            Some("bad page at index "@ + decimal(self.next as nat))
        } else {
            None
        }
    }

    /// The search after one read for each of `counts`, in order.
    pub open spec fn recorded_all(self, counts: Seq<isize>) -> ScanView
        decreases counts.len(),
    {
        if counts.len() == 0 {
            self
        } else {
            self.recorded_all(counts.drop_last()).recorded(counts.last())
        }
    }
}

/// Starts the search for bad pages in an area of `pages` pages of `pagesize` bytes that
/// starts at `offset`.
pub fn check_device(pagesize: usize, pages: u32, offset: u64, verbose: bool) -> (r: PageScan)
    requires
        pagesize <= isize::MAX,
    ensures
        r@ == ScanView::start(pagesize, pages, offset, verbose),
        r@.wf(),
{
    let r = PageScan { pagesize, pages, offset, verbose, next: 1, badpages: Vec::new() };
    assert(r@.badpages =~= Seq::<u32>::empty());
    r
}

impl PageScan {
    /// Tells whether a page is left to read.
    pub fn is_pending(&self) -> (r: bool)
        ensures
            r == self@.pending(),
    {
        self.next < self.pages
    }

    /// Tells whether the position of the page to read next is a file position.
    pub fn has_position(&self) -> (r: bool)
        ensures
            r == self@.position_fits(),
    {
        let next: u128 = self.next as u128;
        let pagesize: u128 = self.pagesize as u128;
        assert(next * pagesize <= 0xffff_ffff * 0xffff_ffff_ffff_ffff) by (nonlinear_arith)
            requires
                next <= 0xffff_ffff,
                pagesize <= 0xffff_ffff_ffff_ffff,
        ;
        let distance: u128 = next * pagesize;
        if distance > i64::MAX as u128 {
            return false;
        }
        if self.offset > i64::MAX as u64 {
            return true;
        }
        self.offset as u128 + distance <= i64::MAX as u128
    }

    /// The position on the device of the page to read next. An offset too large for a file
    /// position counts as negative.
    pub fn position(&self) -> (r: i64)
        requires
            self@.wf(),
            self@.position_fits(),
        ensures
            r == signed(self.offset) + self@.distance(),
            self.offset <= i64::MAX ==> r == self.offset + self.next * self.pagesize,
    {
        let offset: u64 = self.offset;
        assert(offset as i64 == signed(offset)) by {
            if offset <= i64::MAX {
            } else {
                assert(offset as i64 == offset - 0x1_0000_0000_0000_0000) by (bit_vector)
                    requires
                        offset > 0x7fff_ffff_ffff_ffff,
                ;
            }
        }
        assert(self.pagesize <= i64::MAX) by (nonlinear_arith)
            requires
                self.next * self.pagesize <= i64::MAX,
                self.next >= 1,
        ;
        offset as i64 + self.next as i64 * self.pagesize as i64
    }

    /// Takes note of how many bytes came when the next page was read; negative for a failure.
    /// The result is a report for the user.
    pub fn record(&mut self, count: isize) -> (r: Option<String>)
        requires
            old(self)@.wf(),
            old(self)@.pending(),
        ensures
            final(self)@ == old(self)@.recorded(count),
            final(self)@.wf(),
            opt_text(r) == old(self)@.report(count),
    {
        let page: u32 = self.next;
        self.next = page + 1;
        if count < self.pagesize as isize {
            self.badpages.push(page);
            if self.verbose {
                let mut report: String = String::new();
                report.append("bad page at index ");
                append_decimal(&mut report, page as u64);
                assert(report@ =~= "bad page at index "@ + decimal(page as nat));
                return Some(report);
            }
        }
        None
    }
}

} // verus!
