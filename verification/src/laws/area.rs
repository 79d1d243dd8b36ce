//! What holds of areas: their size, their image, and what the user is told.

use vstd::prelude::*;

use crate::area::{min_swapsize_of, plan_of, AreaView, ImageView, PlanView, SizeSource};
use crate::error::ErrorView;
use crate::identity::hyphenated;
use crate::laws::law_area_has_its_pages;
use crate::laws::text::{law_decimal_spells, spells};
use crate::mkswap::RequestView;
use crate::swapheader;
use crate::text::decimal;

verus! {

/// The smallest area has ten pages, or as many bytes as 64 bits can count if ten pages are more.
pub proof fn law_smallest_area(pagesize: usize)
    ensures
        10 * pagesize <= u64::MAX ==> min_swapsize_of(pagesize) == 10 * pagesize,
        10 * pagesize > u64::MAX ==> min_swapsize_of(pagesize) == u64::MAX,
{
}

/// A plan is made of every request, with the page size as it is, unless a file is to be created
/// that is smaller than the smallest area.
pub proof fn law_plan_keeps_the_request(request: RequestView, pagesize: usize)
    ensures
        plan_of(request, pagesize) is Err <==> request.create && request.filesize
            < min_swapsize_of(pagesize),
        plan_of(request, pagesize) matches Ok(plan) ==> plan.request == request && plan.pagesize
            == pagesize,
        plan_of(request, pagesize) matches Err(e) ==> e == (ErrorView::SwapAreaTooSmall {
            min_swapsize: min_swapsize_of(pagesize) as nat,
        }),
{
}

/// A file that is created has the size that was asked for; a block device is asked for its size;
/// of anything else the metadata tell it.
pub proof fn law_size_has_one_source(plan: PlanView, is_block_device: bool, size: u64)
    ensures
        plan.request.create ==> plan.size_source(is_block_device, size) == SizeSource::Known(
            plan.request.filesize,
        ),
        !plan.request.create ==> (plan.size_source(is_block_device, size)
            == SizeSource::BlockDevice <==> is_block_device),
        !plan.request.create && !is_block_device ==> plan.size_source(is_block_device, size)
            == SizeSource::Known(size),
{
}

/// An area is made of what is behind the offset: all whole pages of it, if it is not smaller
/// than the smallest area and 32 bits can count them. Nothing of the plan changes.
pub proof fn law_area_is_what_is_behind_the_offset(plan: PlanView, devsize: u64)
    requires
        plan.pagesize > 0,
    ensures
        ({
            let r = plan.area(devsize);
            let size = plan.pagesize as int;
            let behind = devsize - plan.request.offset;
            let small = behind < min_swapsize_of(plan.pagesize);
            let large = behind >= 0x1_0000_0000 * size;
            &&& r is Ok <==> !small && !large
            &&& small ==> r == Err::<AreaView, ErrorView>(
                ErrorView::SwapAreaTooSmall { min_swapsize: min_swapsize_of(plan.pagesize) as nat },
            )
            &&& r matches Ok(area) ==> {
                &&& area.plan == plan
                &&& area.devsize == devsize
                &&& area.pages * size <= behind
                &&& behind < (area.pages + 1) * size
            }
            &&& !small && large ==> exists|a: Seq<char>, gib: int| #[trigger]
                spells(a, gib) && gib * 0x4000_0000 <= 0xffff_ffff * size && 0xffff_ffff * size < (
                gib + 1) * 0x4000_0000 && r == Err::<AreaView, ErrorView>(
                    ErrorView::IoError {
                        msg: "swap area is too large: max size is "@ + a + " GiB"@,
                    },
                )
        }),
{
    let size = plan.pagesize as int;
    let behind = devsize - plan.request.offset;
    let room = if behind >= 0 {
        behind
    } else {
        0
    };
    let pages = room / size;
    vstd::arithmetic::div_mod::lemma_fundamental_div_mod(room, size);
    assert(size * pages == pages * size) by (nonlinear_arith);
    assert((pages + 1) * size == pages * size + size) by (nonlinear_arith);
    if pages > u32::MAX {
        assert(pages * size >= 0x1_0000_0000 * size) by (nonlinear_arith)
            requires
                pages >= 0x1_0000_0000,
                size > 0,
        ;
        let largest = 0xffff_ffff * size;
        let gib = largest / 0x4000_0000;
        law_decimal_spells(gib as nat);
        assert(u32::MAX * plan.pagesize == largest);
        assert(spells(decimal(gib as nat), gib));
        assert(gib * 0x4000_0000 <= largest < (gib + 1) * 0x4000_0000);
    } else {
        assert((pages + 1) * size <= 0x1_0000_0000 * size) by (nonlinear_arith)
            requires
                pages + 1 <= 0x1_0000_0000,
                size > 0,
        ;
    }
}

/// A device that belongs to someone else than root is warned about, to root alone: by name, with
/// the number of its owner and the command that mends it.
pub proof fn law_owner_is_warned_about(plan: PlanView, owner: u32, user: u32)
    ensures
        plan.owner_warning(owner, user) is Some <==> owner != 0 && user == 0,
        plan.owner_warning(owner, user) matches Some(text) ==> exists|a: Seq<char>| #[trigger]
            spells(a, owner as int) && text == "rsmkswap: "@ + plan.request.devname
                + ": insecure file owner "@ + a + ", fix with: chown 0:0 "@ + plan.request.device,
{
    law_decimal_spells(owner as nat);
}

/// The user is told how much the area can hold: all its pages but the first, in KiB and in
/// bytes, as numerals of exactly these numbers; and its label and its UUID.
pub proof fn law_size_is_told(area: AreaView)
    requires
        area.pages >= 1,
    ensures
        exists|kib: Seq<char>, bytes: Seq<char>| #[trigger]
            spells(kib, (area.pages - 1) * (area.plan.pagesize as int / 1024)) && #[trigger] spells(
                bytes,
                (area.pages - 1) * area.plan.pagesize,
            ) && area.summary() == "Setting up swapspace version 1, size = "@ + kib + " KiB ("@
                + bytes + " bytes)\n"@ + (if area.plan.request.label.len() == 0 {
                "no label"@
            } else {
                "LABEL="@
            }) + area.plan.request.label + ", UUID="@ + hyphenated(area.plan.request.uuid),
        area.capacity() == (area.pages - 1) * area.plan.pagesize,
{
    let kib = (area.pages - 1) * (area.plan.pagesize as int / 1024);
    let bytes = (area.pages - 1) * area.plan.pagesize;
    assert(kib >= 0 && bytes >= 0) by (nonlinear_arith)
        requires
            area.pages >= 1,
            kib == (area.pages - 1) * (area.plan.pagesize as int / 1024),
            bytes == (area.pages - 1) * area.plan.pagesize,
    ;
    law_decimal_spells(kib as nat);
    law_decimal_spells(bytes as nat);
    assert(spells(decimal(kib as nat), kib) && spells(decimal(bytes as nat), bytes));
}

/// An area has an image exactly where it has ten pages and its first page has room for the bad
/// ones. The image is the first page behind its 1024 bytes of boot bits, in its place, and comes
/// with what the user is told.
pub proof fn law_image_is_the_first_page(area: AreaView, badpages: Seq<u32>)
    requires
        area.plan.pagesize >= 1546,
    ensures
        ({
            let r = area.image(badpages);
            &&& r is Ok <==> area.pages >= 10 && 1546 + 4 * badpages.len() <= area.plan.pagesize
            &&& r matches Ok(image) ==> {
                &&& image.position == area.plan.request.offset + 1024
                &&& image.bytes == area.page(badpages).subrange(1024, area.plan.pagesize as int)
                &&& image.summary == area.summary()
            }
            &&& area.pages < 10 <==> r == Err::<ImageView, ErrorView>(
                ErrorView::TooFewPages { pages: area.pages as nat },
            )
            &&& r matches Err(ErrorView::MaxBadPagesExceeded { max_badpages }) ==> 1546 + 4
                * max_badpages <= area.plan.pagesize && area.plan.pagesize < 1546 + 4 * (
            max_badpages + 1)
            &&& r matches Err(e) ==> e is TooFewPages || e is MaxBadPagesExceeded
        }),
{
}

/// An area is sound exactly where it holds all whole pages behind its offset, no fewer than the
/// smallest one, and its request is sound.
pub proof fn law_sound_area(area: AreaView)
    ensures
        area.wf() <==> {
            let behind = area.devsize - area.plan.request.offset;
            let size = area.plan.pagesize as int;
            &&& area.plan.request.wf()
            &&& size > 0
            &&& behind >= min_swapsize_of(area.plan.pagesize)
            &&& area.pages * size <= behind
            &&& behind < (area.pages + 1) * size
        },
        area.page_fits() <==> area.pages < 10 || (1546 <= area.plan.pagesize && area.plan.pagesize
            <= isize::MAX),
        area.plan.request.wf() <==> vstd::utf8::encode_utf8(area.plan.request.label).len() <= 16
            && area.plan.request.uuid.len() == 16,
{
}

/// Every error has its message, with its numbers as numerals.
pub proof fn law_errors_are_told(pages: nat, max_badpages: nat, min_swapsize: nat, msg: Seq<char>)
    ensures
        exists|a: Seq<char>| #[trigger]
            spells(a, 16) && ErrorView::TooLongLabel.message()
                == "Label is too long, maximum size is "@ + a + " characters"@,
        exists|a: Seq<char>, b: Seq<char>| #[trigger]
            spells(a, pages as int) && #[trigger] spells(b, 10) && (ErrorView::TooFewPages {
                pages,
            }).message() == "Too few pages for a swap area ("@ + a + "), minimum is "@ + b,
        exists|a: Seq<char>| #[trigger]
            spells(a, max_badpages as int) && (ErrorView::MaxBadPagesExceeded {
                max_badpages,
            }).message() == "Too many bad pages: "@ + a,
        exists|a: Seq<char>, kib: int| #[trigger]
            spells(a, kib) && kib * 1024 <= min_swapsize && min_swapsize < (kib + 1) * 1024 && (
            ErrorView::SwapAreaTooSmall { min_swapsize }).message()
                == "Swap area needs to be at least "@ + a + " KiB"@,
        (ErrorView::IoError { msg }).message() == msg,
        (ErrorView::UsageError { msg }).message() == msg,
{
    law_decimal_spells(16);
    law_decimal_spells(10);
    law_decimal_spells(pages);
    law_decimal_spells(max_badpages);
    law_decimal_spells(min_swapsize / 1024);
    assert(spells(decimal(pages), pages as int) && spells(decimal(10), 10));
    assert(spells(decimal(min_swapsize / 1024), min_swapsize as int / 1024));
}

/// Every error of the other builder has its message, with its numbers as numerals.
pub proof fn law_other_errors_are_told(pages: u32, bad_pages: usize, max_badpages: usize)
    ensures
        exists|a: Seq<char>| #[trigger]
            spells(a, 16) && swapheader::MkswapError::TooLongLabel.message()
                == "Label is too long, maximum size is "@ + a + " characters"@,
        exists|a: Seq<char>, b: Seq<char>| #[trigger]
            spells(a, pages as int) && #[trigger] spells(b, 10) && (
            swapheader::MkswapError::TooFewPages { pages }).message()
                == "Too few pages for a swap area ("@ + a + "), minimum is "@ + b,
        exists|a: Seq<char>, b: Seq<char>| #[trigger]
            spells(a, bad_pages as int) && #[trigger] spells(b, max_badpages as int) && (
            swapheader::MkswapError::MaxBadPagesExceeded { bad_pages, max_badpages }).message()
                == "Too many bad pages detected: "@ + a + "/"@ + b,
{
    law_decimal_spells(16);
    law_decimal_spells(10);
    law_decimal_spells(pages as nat);
    law_decimal_spells(bad_pages as nat);
    law_decimal_spells(max_badpages as nat);
    assert(spells(decimal(pages as nat), pages as int) && spells(decimal(10), 10));
    assert(spells(decimal(bad_pages as nat), bad_pages as int) && spells(
        decimal(max_badpages as nat),
        max_badpages as int,
    ));
}

/// The file that is asked for is the one that is set up: its whole size is allocated, and the
/// area holds as many pages as fit in it behind the offset.
pub proof fn law_whole_file_is_used(plan: PlanView, is_block_device: bool, size: u64)
    requires
        plan.request.create,
        plan.request.wf(),
        plan.pagesize > 0,
    ensures
        plan.size_source(is_block_device, size) == SizeSource::Known(plan.request.filesize),
        plan.area(plan.request.filesize) matches Ok(area) ==> {
            &&& area.pages * plan.pagesize <= plan.request.filesize - plan.request.offset
            &&& plan.request.filesize - plan.request.offset < (area.pages + 1) * plan.pagesize
        },
{
    law_area_is_what_is_behind_the_offset(plan, plan.request.filesize);
    if plan.area(plan.request.filesize) is Ok {
        law_area_has_its_pages(plan, plan.request.filesize);
    }
}

} // verus!
