//! What holds of page sizes and of the search for bad pages.

use vstd::arithmetic::power2::pow2;
use vstd::prelude::*;

use crate::error::ErrorView;
use crate::laws::text::{law_decimal_spells, spells};
use crate::pagesize::{
    chosen_page_size, is_sound_page_size, page_size_known, PageSizeQuery, PageSizeView,
};
use crate::scan::{signed, ScanView};
use crate::text::decimal;

verus! {

/// Where no page size was asked for, the pages are as large as those of the system, however
/// large these are, and there is nothing to tell.
pub proof fn law_system_page_size_is_the_default(force: bool, system: usize)
    ensures
        chosen_page_size(None, force, system) matches Ok(choice) && choice.size == system
            && choice.notice is None,
{
}

/// A page size that was asked for is taken as it is, if it is sound or forced; the user is told
/// both sizes, unless they are the same.
pub proof fn law_requested_page_size_is_taken(requested: usize, force: bool, system: usize)
    ensures
        chosen_page_size(Some(requested), force, system) is Ok <==> force || is_sound_page_size(
            requested as nat,
        ),
        chosen_page_size(Some(requested), force, system) matches Ok(choice) ==> {
            &&& choice.size == requested
            &&& choice.notice is None <==> requested == system
            &&& choice.notice matches Some(text) ==> exists|a: Seq<char>, b: Seq<char>| #[trigger]
                spells(a, requested as int) && #[trigger] spells(b, system as int) && text
                    == "Using user-specified page size "@ + a + ", instead of the system value "@
                    + b
        },
        chosen_page_size(Some(requested), force, system) matches Err(e) ==> exists|a: Seq<char>|
            #[trigger] spells(a, requested as int) && e == (ErrorView::UsageError {
                msg: "Bad user-specified page size "@ + a,
            }),
{
    law_decimal_spells(requested as nat);
    law_decimal_spells(system as nat);
    assert(spells(decimal(requested as nat), requested as int) && spells(
        decimal(system as nat),
        system as int,
    ));
}

/// A sound page size has more than the 1550 bytes of a header and the signature, and is a power
/// of two.
pub proof fn law_sound_page_size(size: nat)
    ensures
        is_sound_page_size(size) <==> size > 1550 && exists|k: nat| size == #[trigger] pow2(k),
        crate::pagesize::is_power_of_two(size) <==> exists|k: nat| size == #[trigger] pow2(k),
{
}

/// A positive number of the system is its page size, whichever question it answers. Any other
/// number leads to the second question, and then to an error.
pub proof fn law_system_tells_its_page_size(query: PageSizeQuery, value: i64)
    ensures
        0 < value <= usize::MAX ==> page_size_known(query, value) == PageSizeView::Known(
            value as nat,
        ),
        value > usize::MAX ==> exists|a: Seq<char>| #[trigger]
            spells(a, usize::MAX as int) && page_size_known(query, value) == PageSizeView::Failed(
                ErrorView::IoError { msg: "Page size too large, max page size: "@ + a },
            ),
        value <= 0 ==> page_size_known(PageSizeQuery::PageSize, value) == PageSizeView::Ask(
            PageSizeQuery::PageSizeAlias,
        ),
        value <= 0 ==> page_size_known(PageSizeQuery::PageSizeAlias, value) == PageSizeView::Failed(
            ErrorView::IoError {
                msg: "Failed to determine page size, please check your system configuration"@,
            },
        ),
{
    law_decimal_spells(usize::MAX as nat);
}

/// After `counts.len()` reads, the page to read next is the one behind those that were read, and
/// it is read at its place: as many pages from the start of the area as its number tells.
pub proof fn law_pages_are_read_in_place(
    pagesize: usize,
    pages: u32,
    offset: u64,
    verbose: bool,
    counts: Seq<isize>,
)
    requires
        counts.len() < u32::MAX,
    ensures
        ({
            let scan = ScanView::start(pagesize, pages, offset, verbose).recorded_all(counts);
            &&& scan.next == 1 + counts.len()
            &&& scan.pages == pages && scan.pagesize == pagesize && scan.offset == offset
            &&& scan.verbose == verbose
            &&& scan.distance() == (1 + counts.len()) * pagesize
            &&& scan.pending() <==> 1 + counts.len() < pages
            &&& offset <= i64::MAX ==> signed(scan.offset) + scan.distance() == offset + (1
                + counts.len()) * pagesize
            &&& offset <= i64::MAX ==> (scan.position_fits() <==> offset + (1 + counts.len())
                * pagesize <= i64::MAX)
        }),
    decreases counts.len(),
{
    if counts.len() > 0 {
        law_pages_are_read_in_place(pagesize, pages, offset, verbose, counts.drop_last());
    }
    let scan = ScanView::start(pagesize, pages, offset, verbose).recorded_all(counts);
    assert(scan.next * pagesize == (1 + counts.len()) * pagesize);
    assert(0 <= (1 + counts.len()) * pagesize) by (nonlinear_arith);
}

/// Wherever a search stands, the page to read next lies as many page sizes behind the start of
/// the area as its number tells; two pages are apart by as many page sizes as their numbers.
pub proof fn law_position_of_a_page(scan: ScanView, other: ScanView)
    requires
        scan.pagesize == other.pagesize,
        scan.offset == other.offset,
    ensures
        scan.distance() == scan.next * scan.pagesize,
        signed(scan.offset) + scan.distance() - (signed(other.offset) + other.distance()) == (
        scan.next - other.next) * scan.pagesize,
        scan.offset <= i64::MAX ==> signed(scan.offset) == scan.offset,
        scan.offset > i64::MAX ==> signed(scan.offset) + 0x1_0000_0000_0000_0000 == scan.offset,
        scan.position_fits() <==> scan.next * scan.pagesize <= i64::MAX && signed(scan.offset)
            + scan.next * scan.pagesize <= i64::MAX,
        scan.pending() <==> scan.next < scan.pages,
{
    assert((scan.next - other.next) * scan.pagesize == scan.next * scan.pagesize - other.next
        * scan.pagesize) by (nonlinear_arith);
}

/// A page of which fewer bytes came than it has is added to the bad ones, behind those found
/// before; any other is not; and the search goes on with the page behind it.
pub proof fn law_short_read_is_a_bad_page(scan: ScanView, count: isize)
    requires
        scan.next < u32::MAX,
    ensures
        count < scan.pagesize ==> scan.recorded(count).badpages == scan.badpages + seq![scan.next],
        count >= scan.pagesize ==> scan.recorded(count).badpages == scan.badpages,
        scan.recorded(count).next == scan.next + 1,
        scan.recorded(count) == (ScanView {
            next: scan.recorded(count).next,
            badpages: scan.recorded(count).badpages,
            ..scan
        }),
        scan.report(count) is Some <==> scan.verbose && count < scan.pagesize,
        scan.report(count) matches Some(text) ==> exists|a: Seq<char>| #[trigger]
            spells(a, scan.next as int) && text == "bad page at index "@ + a,
{
    law_decimal_spells(scan.next as nat);
    if count < scan.pagesize {
        assert(scan.recorded(count).badpages =~= scan.badpages + seq![scan.next]);
    }
}

} // verus!
