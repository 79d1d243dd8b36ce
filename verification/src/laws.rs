//! What holds of the library as a whole.

pub mod area;
pub mod calls;
pub mod cli;
pub mod header;
pub mod identity;
pub mod pages;
pub mod request;
pub mod session;
pub mod text;
pub mod views;

use vstd::prelude::*;
use vstd::utf8::encode_utf8;

use crate::area::{badpage_table, min_swapsize_of, plan_of, AreaView, PlanView};
use crate::cli::OptionsView;
use crate::device::{
    open_step, size_in_line, sysfs_path, OpenOperation, OpenView, BTRFS_SUPER_MAGIC, FS_NOCOW_FL,
    SWAP_FILE_MODE,
};
use crate::endian::{be_bytes, le_bytes, lemma_converted, Endian};
use crate::error::{ErrorView, MIN_SWAP_PAGES, SWAP_LABEL_LENGTH};
use crate::header::{
    low_word, max_badpages_of, written, zeros, HeaderView, BADPAGES_OFFSET, BOOTBITS_SIZE,
    SWAP_SIGNATURE, SWAP_SIGNATURE_SZ, SWAP_VERSION,
};
use crate::identity::{hyphenated, lemma_hyphenated, uuid_from_text};
use crate::mkswap::{request_of, RequestView};
use crate::pagesize::{
    chosen_page_size, is_sound_page_size, page_size_known, PageSizeQuery, PageSizeView,
};
use crate::scan::ScanView;
use crate::session::{
    after_check, after_size, size_fits, ProgressView, ReplyView, SessionView,
};
use crate::text::{
    behind_plus, decimal, denotes_u64, digits_value, is_digit, trim_end, trim_start, trimmed,
};

verus! {

/// The number that four bytes stand for in a byte order.
pub open spec fn number_of(endianness: Endian, bytes: Seq<u8>) -> int {
    let little = bytes[0] + bytes[1] * 0x100 + bytes[2] * 0x1_0000 + bytes[3] * 0x100_0000;
    let big = bytes[3] + bytes[2] * 0x100 + bytes[1] * 0x1_0000 + bytes[0] * 0x100_0000;
    match (endianness, vstd::endian::endianness()) {
        (Endian::Little, _) => little,
        (Endian::Big, _) => big,
        (Endian::Native, vstd::endian::Endian::Little) => little,
        (Endian::Native, vstd::endian::Endian::Big) => big,
    }
}

/// The number at position `at` of a page.
pub open spec fn number_at(endianness: Endian, page: Seq<u8>, at: int) -> int {
    number_of(endianness, page.subrange(at, at + 4))
}

/// Reading a number in the byte order in which it was written gives it back.
pub proof fn law_numbers_read_back(endianness: Endian, value: u32)
    ensures
        endianness.bytes(value).len() == 4,
        number_of(endianness, endianness.bytes(value)) == value,
{
}

/// The two byte orders are the reverse of each other.
pub proof fn law_byte_orders_mirror(value: u32)
    ensures
        Endian::Big.bytes(value) == Endian::Little.bytes(value).reverse(),
{
    assert(be_bytes(value) =~= le_bytes(value).reverse());
}

/// Converting the numbers of a header twice to the same byte order changes nothing.
pub proof fn law_set_endian_is_an_involution(header: HeaderView, endianness: Endian)
    ensures
        header.with_endian(endianness).with_endian(endianness) == header,
{
    lemma_converted(endianness, header.version);
    lemma_converted(endianness, header.last_page);
    lemma_converted(endianness, header.nr_badpages);
}

/// An area and bad pages for which there is a first page.
pub open spec fn has_first_page(area: AreaView, badpages: Seq<u32>) -> bool {
    &&& area.wf()
    &&& area.pages >= MIN_SWAP_PAGES
    &&& BADPAGES_OFFSET + SWAP_SIGNATURE_SZ <= area.plan.pagesize
    &&& badpages.len() <= max_badpages_of(area.plan.pagesize as int)
}

/// The first page of an area is a whole page that ends in the signature.
pub proof fn law_first_page_is_signed(area: AreaView, badpages: Seq<u32>)
    requires
        has_first_page(area, badpages),
    ensures
        ({
            let page = area.page(badpages);
            let pagesize = area.plan.pagesize as int;
            &&& page.len() == pagesize
            &&& page.subrange(pagesize - SWAP_SIGNATURE_SZ, pagesize) == SWAP_SIGNATURE@
        }),
{
    let page = area.page(badpages);
    let pagesize = area.plan.pagesize as int;
    assert(page.len() == pagesize);
    assert(page.subrange(pagesize - SWAP_SIGNATURE_SZ, pagesize) =~= SWAP_SIGNATURE@);
}

/// Whoever reads the first page of an area in its byte order finds what was written: the
/// version, the number of the last page, the number of bad pages, the UUID, the label with
/// zeros behind it, and each bad page.
#[verifier::rlimit(40)]
pub proof fn law_first_page_reads_back(area: AreaView, badpages: Seq<u32>)
    requires
        has_first_page(area, badpages),
    ensures
        ({
            let page = area.page(badpages);
            let r = area.plan.request;
            let label = encode_utf8(r.label);
            &&& page.subrange(0, BOOTBITS_SIZE as int) == zeros(BOOTBITS_SIZE as nat)
            &&& number_at(r.endianness, page, 1024) == SWAP_VERSION
            &&& number_at(r.endianness, page, 1028) == area.pages - 1
            &&& number_at(r.endianness, page, 1032) == low_word(badpages.len() as int)
            &&& page.subrange(1036, 1052) == r.uuid
            &&& page.subrange(1052, 1052 + label.len() as int) == label
            &&& forall|i: int| 1052 + label.len() <= i < 1068 ==> #[trigger] page[i] == 0
            &&& forall|i: int|
                0 <= i < badpages.len() ==> number_at(
                    r.endianness,
                    page,
                    BADPAGES_OFFSET + 4 * i,
                ) == #[trigger] badpages[i]
        }),
{
    let r = area.plan.request;
    let e = r.endianness;
    let label = encode_utf8(r.label);
    let page = area.page(badpages);
    let last = (area.pages - 1) as u32;
    let count = low_word(badpages.len() as int) as u32;
    law_numbers_read_back(e, SWAP_VERSION);
    law_numbers_read_back(e, last);
    law_numbers_read_back(e, count);
    assert(page.subrange(0, BOOTBITS_SIZE as int) =~= zeros(BOOTBITS_SIZE as nat));
    assert(page.subrange(1024, 1024int + 4) =~= e.bytes(SWAP_VERSION));
    assert(page.subrange(1028, 1028int + 4) =~= e.bytes(last));
    assert(page.subrange(1032, 1032int + 4) =~= e.bytes(count));
    assert(page.subrange(1036, 1052) =~= r.uuid);
    assert(page.subrange(1052, 1052 + label.len() as int) =~= label);
    assert forall|i: int| 0 <= i < badpages.len() implies number_at(
        e,
        page,
        BADPAGES_OFFSET + 4 * i,
    ) == #[trigger] badpages[i] by {
        law_numbers_read_back(e, badpages[i]);
        let table = badpage_table(e, badpages);
        assert forall|j: int| 0 <= j < 4 implies #[trigger] page[BADPAGES_OFFSET + 4 * i + j]
            == e.bytes(badpages[i])[j] by {
            assert(page[BADPAGES_OFFSET + 4 * i + j] == table[4 * i + j]);
        }
        assert(page.subrange(BADPAGES_OFFSET + 4 * i, BADPAGES_OFFSET + 4 * i + 4) =~= e.bytes(
            badpages[i],
        ));
    }
}

/// Setting up an area writes nothing but the rest of its first page behind the boot bits: the
/// boot bits, all other pages and the size of the device stay what they were.
pub proof fn law_nothing_else_is_written(area: AreaView, badpages: Seq<u32>, device: Seq<u8>)
    requires
        has_first_page(area, badpages),
        device.len() == area.devsize,
    ensures
        area.image(badpages) is Ok,
        ({
            let image = area.image(badpages)->Ok_0;
            let start = area.plan.request.offset as int;
            let after = written(device, image.position, image.bytes);
            &&& image.position == start + BOOTBITS_SIZE
            &&& image.position + image.bytes.len() == start + area.plan.pagesize
            &&& start + area.plan.pagesize <= area.devsize
            &&& after.len() == device.len()
            &&& forall|i: int|
                0 <= i < device.len() && !(start + BOOTBITS_SIZE <= i < start + area.plan.pagesize)
                    ==> #[trigger] after[i] == device[i]
            &&& after.subrange(start + BOOTBITS_SIZE, start + area.plan.pagesize)
                == area.page(badpages).subrange(BOOTBITS_SIZE as int, area.plan.pagesize as int)
        }),
{
    law_first_page_is_signed(area, badpages);
    let pagesize = area.plan.pagesize as int;
    assert(pagesize <= area.pages * pagesize) by (nonlinear_arith)
        requires
            area.pages >= 1,
            pagesize > 0,
    ;
    let image = area.image(badpages)->Ok_0;
    let start = area.plan.request.offset as int;
    let after = written(device, image.position, image.bytes);
    assert(after.subrange(start + BOOTBITS_SIZE, start + pagesize) =~= area.page(
        badpages,
    ).subrange(BOOTBITS_SIZE as int, pagesize));
}

/// An area has room for its pages, and, unless ten of its pages are more than 64 bits can
/// count, it has at least ten.
pub proof fn law_area_has_its_pages(plan: PlanView, devsize: u64)
    requires
        plan.pagesize > 0,
        plan.request.wf(),
        plan.area(devsize) is Ok,
    ensures
        ({
            let area = plan.area(devsize)->Ok_0;
            &&& area.wf()
            &&& area.pages == (devsize - plan.request.offset) / plan.pagesize as int
            &&& plan.request.offset + area.pages * plan.pagesize <= devsize
            &&& MIN_SWAP_PAGES * plan.pagesize <= u64::MAX ==> area.pages >= MIN_SWAP_PAGES
        }),
{
    let size = plan.pagesize as int;
    let swapsize = devsize - plan.request.offset;
    let pages = swapsize / size;
    vstd::arithmetic::div_mod::lemma_fundamental_div_mod(swapsize, size);
    assert(size * pages == pages * size) by (nonlinear_arith);
    assert((pages + 1) * size == pages * size + size) by (nonlinear_arith);
    if MIN_SWAP_PAGES * plan.pagesize <= u64::MAX && pages < MIN_SWAP_PAGES {
        assert((pages + 1) * size <= 10 * size) by (nonlinear_arith)
            requires
                pages + 1 <= 10,
                size > 0,
        ;
    }
}

/// A device whose size is right gets its swap area: with a sound page size, at least ten pages
/// and at most as many as 32 bits can count, nothing is refused.
pub proof fn law_success_is_owed(plan: PlanView, devsize: u64)
    requires
        plan.request.wf(),
        is_sound_page_size(plan.pagesize as nat),
        MIN_SWAP_PAGES * plan.pagesize <= u64::MAX,
        plan.request.offset + MIN_SWAP_PAGES * plan.pagesize <= devsize,
        (devsize - plan.request.offset) / plan.pagesize as int <= u32::MAX,
    ensures
        plan.area(devsize) is Ok,
        plan.area(devsize)->Ok_0.image(Seq::empty()) is Ok,
{
    law_area_has_its_pages(plan, devsize);
}

/// A sound page size leaves room for at least one bad page.
pub proof fn law_sound_page_has_room(pagesize: nat)
    requires
        is_sound_page_size(pagesize),
    ensures
        pagesize >= BADPAGES_OFFSET + SWAP_SIGNATURE_SZ,
        max_badpages_of(pagesize as int) >= 1,
{
}

/// Without force, a page size that was asked for is used only if it is sound.
pub proof fn law_requested_page_size_is_sound(requested: usize, system: usize)
    requires
        chosen_page_size(Some(requested), false, system) is Ok,
    ensures
        is_sound_page_size(requested as nat),
        chosen_page_size(Some(requested), false, system)->Ok_0.size == requested,
{
}

/// The system is asked for its page size at most twice.
pub proof fn law_page_size_is_asked_twice_at_most(first: i64, second: i64)
    ensures
        page_size_known(PageSizeQuery::PageSize, first) is Ask ==> page_size_known(
            PageSizeQuery::PageSize,
            first,
        ) == PageSizeView::Ask(PageSizeQuery::PageSizeAlias),
        !(page_size_known(PageSizeQuery::PageSizeAlias, second) is Ask),
{
}

/// A label that passed the check of the options fits in the header, from its start.
pub proof fn law_checked_label_fits(
    o: OptionsView,
    endianness: Option<Endian>,
    uuid: Result<Seq<u8>, Seq<char>>,
)
    requires
        request_of(o, endianness, uuid) is Ok,
    ensures
        ({
            let label = encode_utf8(request_of(o, endianness, uuid)->Ok_0.label);
            &&& HeaderView::blank().with_label(label) is Ok
            &&& HeaderView::blank().with_label(label)->Ok_0.label == label + zeros(
                (SWAP_LABEL_LENGTH - label.len()) as nat,
            )
        }),
{
    let label = encode_utf8(request_of(o, endianness, uuid)->Ok_0.label);
    assert(written(zeros(SWAP_LABEL_LENGTH as nat), 0, label) =~= label + zeros(
        (SWAP_LABEL_LENGTH - label.len()) as nat,
    ));
}

/// A file that is created large enough for its page size is large enough as a device, if the
/// area starts at its start.
pub proof fn law_created_file_is_large_enough(request: RequestView, pagesize: usize)
    requires
        request.create,
        request.offset == 0,
        plan_of(request, pagesize) is Ok,
    ensures
        !(plan_of(request, pagesize)->Ok_0.area(request.filesize) matches Err(
            ErrorView::SwapAreaTooSmall { .. },
        )),
{
}

/// The order in which the fields of a header are set does not matter.
pub proof fn law_fields_are_independent(
    header: HeaderView,
    label: Seq<u8>,
    pages: u32,
    count: nat,
    pagesize: int,
)
    requires
        header.with_label(label) is Ok,
        header.with_pages(pages) is Ok,
        header.with_nr_badpages(count, pagesize) is Ok,
    ensures
        header.with_label(label)->Ok_0.with_pages(pages) == header.with_pages(
            pages,
        )->Ok_0.with_label(label),
        header.with_label(label)->Ok_0.with_nr_badpages(count, pagesize)
            == header.with_nr_badpages(count, pagesize)->Ok_0.with_label(label),
        header.with_pages(pages)->Ok_0.with_nr_badpages(count, pagesize)
            == header.with_nr_badpages(count, pagesize)->Ok_0.with_pages(pages),
{
}

/// Both builders of headers agree on how many bad pages a page can list.
pub proof fn law_builders_agree_on_room(pagesize: int)
    ensures
        crate::swapheader::max_listed(pagesize) == max_badpages_of(pagesize),
{
}

/// Opening a device that is there already does nothing but open it.
pub proof fn law_opening_changes_nothing(devname: Seq<char>, filesize: u64, reply: i64)
    ensures
        open_step(devname, filesize, OpenOperation::Open { create: false }, Ok(reply))
            == OpenView::Opened,
{
}

/// How far opening a device has come with an operation.
pub open spec fn open_stage(op: OpenOperation) -> int {
    match op {
        OpenOperation::Open { .. } => 0,
        OpenOperation::SetPermissions { .. } => 1,
        OpenOperation::QueryFilesystem => 2,
        OpenOperation::ReadFlags => 3,
        OpenOperation::WriteFlags { .. } => 4,
        OpenOperation::Allocate { .. } => 5,
    }
}

/// Opening a device comes to an end: each operation is followed by a later one, if any.
pub proof fn law_opening_ends(
    devname: Seq<char>,
    filesize: u64,
    op: OpenOperation,
    reply: Result<i64, Seq<char>>,
)
    ensures
        open_step(devname, filesize, op, reply) matches OpenView::Next(next) ==> open_stage(op)
            < open_stage(next) <= 5,
{
}

/// A failed operation ends the opening with its message, except that a file whose space could
/// not be allocated is opened all the same.
pub proof fn law_opening_fails_with_its_operation(
    devname: Seq<char>,
    filesize: u64,
    op: OpenOperation,
    text: Seq<char>,
)
    ensures
        !(op is Open) && !(op is Allocate) ==> open_step(devname, filesize, op, Err(text))
            == OpenView::Failed(ErrorView::IoError { msg: text }),
        op is Allocate ==> open_step(devname, filesize, op, Err(text)) == OpenView::Opened,
{
}

/// A file that is created belongs to its owner alone, and on btrfs it is exempt from
/// copy-on-write: of its flags, that one is set and every other one stays.
pub proof fn law_created_file_is_private_and_not_copied(
    devname: Seq<char>,
    filesize: u64,
    done: i64,
    flags: i32,
)
    ensures
        open_step(devname, filesize, OpenOperation::Open { create: true }, Ok(done))
            == OpenView::Next(OpenOperation::SetPermissions { mode: 0o600 }),
        open_step(
            devname,
            filesize,
            OpenOperation::SetPermissions { mode: SWAP_FILE_MODE },
            Ok(done),
        ) == OpenView::Next(OpenOperation::QueryFilesystem),
        open_step(devname, filesize, OpenOperation::QueryFilesystem, Ok(BTRFS_SUPER_MAGIC))
            == OpenView::Next(OpenOperation::ReadFlags),
        open_step(
            devname,
            filesize,
            OpenOperation::ReadFlags,
            Ok(flags as i64),
        ) matches OpenView::Next(OpenOperation::WriteFlags { flags: new }) && new & FS_NOCOW_FL
            == FS_NOCOW_FL && new & !FS_NOCOW_FL == flags & !FS_NOCOW_FL,
{
    assert((flags as i64) as i32 == flags);
    assert((flags | 0x0080_0000i32) & 0x0080_0000i32 == 0x0080_0000i32) by (bit_vector);
    assert((flags | 0x0080_0000i32) & !0x0080_0000i32 == flags & !0x0080_0000i32) by (bit_vector);
}

/// Off btrfs, no flag of a created file is touched.
pub proof fn law_flags_stay_off_btrfs(devname: Seq<char>, filesize: u64, magic: i64)
    requires
        magic != BTRFS_SUPER_MAGIC,
    ensures
        open_step(devname, filesize, OpenOperation::QueryFilesystem, Ok(magic)) == OpenView::Next(
            OpenOperation::Allocate { len: filesize as i64 },
        ),
{
}

/// After some reads, exactly the short ones among them were recorded.
proof fn lemma_scan_prefix(start: ScanView, counts: Seq<isize>)
    requires
        start.wf(),
        start.next == 1,
        start.badpages.len() == 0,
        counts.len() == 0 || counts.len() < start.pages,
    ensures
        ({
            let scan = start.recorded_all(counts);
            &&& scan == (ScanView { next: scan.next, badpages: scan.badpages, ..start })
            &&& scan.next == 1 + counts.len()
            &&& scan.wf()
            &&& forall|p: u32| #[trigger]
                scan.badpages.contains(p) <==> 1 <= p <= counts.len() && counts[p - 1]
                    < start.pagesize
        }),
    decreases counts.len(),
{
    if counts.len() > 0 {
        let shorter = counts.drop_last();
        lemma_scan_prefix(start, shorter);
        let before = start.recorded_all(shorter);
        let scan = start.recorded_all(counts);
        assert forall|p: u32| #[trigger] scan.badpages.contains(p) <==> 1 <= p <= counts.len()
            && counts[p - 1] < start.pagesize by {
            if before.badpages.contains(p) {
                let i = before.badpages.index_of(p);
                assert(scan.badpages[i] == p);
            }
            if scan.badpages.contains(p) && !before.badpages.contains(p) {
                let i = scan.badpages.index_of(p);
                if i < before.badpages.len() {
                    assert(before.badpages[i] == p);
                }
            }
            if p == counts.len() && counts.last() < start.pagesize {
                assert(scan.badpages[before.badpages.len() as int] == p);
            }
            if p < counts.len() && p >= 1 {
                assert(shorter[p - 1] == counts[p - 1]);
            }
        }
    }
}

/// The search for bad pages reads every page but the first, and finds exactly those of which
/// fewer bytes came than a page has, each once and in ascending order.
pub proof fn law_search_finds_the_bad_pages(
    pagesize: usize,
    pages: u32,
    offset: u64,
    verbose: bool,
    counts: Seq<isize>,
)
    requires
        pagesize <= isize::MAX,
        pages >= 1,
        counts.len() == pages - 1,
    ensures
        ({
            let found = ScanView::start(pagesize, pages, offset, verbose).recorded_all(counts);
            &&& !found.pending()
            &&& forall|i: int, j: int|
                0 <= i < j < found.badpages.len() ==> found.badpages[i] < found.badpages[j]
            &&& forall|p: u32| #[trigger]
                found.badpages.contains(p) <==> 1 <= p < pages && counts[p - 1] < pagesize
        }),
{
    lemma_scan_prefix(ScanView::start(pagesize, pages, offset, verbose), counts);
}

/// While pages of an area are searched, their positions lie within the area; they are file
/// positions if the size of the device is one.
pub proof fn law_search_stays_in_the_area(area: AreaView, scan: ScanView)
    requires
        area.wf(),
        scan.wf(),
        scan.pending(),
        scan.pagesize == area.plan.pagesize,
        scan.pages == area.pages,
        scan.offset == area.plan.request.offset,
    ensures
        scan.offset + scan.distance() + scan.pagesize <= area.devsize,
        area.devsize <= i64::MAX ==> scan.position_fits(),
{
    let size = scan.pagesize as int;
    assert(scan.next * size + size <= scan.pages * size) by (nonlinear_arith)
        requires
            scan.next + 1 <= scan.pages,
            size >= 0,
    ;
    assert(0 <= scan.next * size) by (nonlinear_arith)
        requires
            size >= 0,
    ;
}

/// The decimal notation of a number consists of digits that denote it.
proof fn lemma_decimal(n: nat)
    ensures
        decimal(n).len() > 0,
        forall|i: int| 0 <= i < decimal(n).len() ==> is_digit(#[trigger] decimal(n)[i]),
        digits_value(decimal(n)) == n,
    decreases n,
{
    if n < 10 {
        reveal_with_fuel(digits_value, 2);
        assert(decimal(n).drop_last() =~= Seq::empty());
    } else {
        lemma_decimal(n / 10);
        assert(decimal(n).drop_last() =~= decimal(n / 10));
    }
}

/// The decimal notation of a number denotes that number.
pub proof fn law_decimal_notation_reads_back(n: nat)
    ensures
        behind_plus(decimal(n)) == decimal(n),
        digits_value(decimal(n)) == n,
        denotes_u64(decimal(n)) <==> n <= u64::MAX,
{
    lemma_decimal(n);
    assert(is_digit(decimal(n)[0]));
}

/// A block device of `sectors` sectors has 512 times as many bytes, unless 64 bits cannot
/// count them.
pub proof fn law_sectors_have_512_bytes(devname: Seq<char>, sectors: u64)
    requires
        sectors * 512 <= u64::MAX,
    ensures
        size_in_line(devname, decimal(sectors as nat).push('\n')) == Ok::<u64, ErrorView>(
            (sectors * 512) as u64,
        ),
{
    let number = decimal(sectors as nat);
    let line = number.push('\n');
    lemma_decimal(sectors as nat);
    law_decimal_notation_reads_back(sectors as nat);
    assert(is_digit(number.first()));
    assert(is_digit(number.last()));
    assert(line.first() == number.first());
    assert(trim_start(line) == line);
    assert(line.drop_last() =~= number);
    reveal_with_fuel(trim_end, 2);
    assert(trimmed(line) == number);
}

/// The most replies that a session still takes.
pub open spec fn replies_left(session: SessionView) -> int {
    match session {
        SessionView::AskingPageSize { query: PageSizeQuery::PageSize, .. } => 0x1_0000_000b,
        SessionView::AskingPageSize { query: PageSizeQuery::PageSizeAlias, .. } => 0x1_0000_000a,
        SessionView::Opening { op, .. } => 0x1_0000_0009 - open_stage(op),
        SessionView::Examining { .. } => 0x1_0000_0003,
        SessionView::AskingBlockSize { .. } => 0x1_0000_0002,
        SessionView::ReadingSizeFile { .. } => 0x1_0000_0001,
        SessionView::Checking { scan, .. } => 1 + scan.pages - scan.next,
        SessionView::Writing { .. } => 1,
    }
}

/// A session comes to an end: whatever the replies, each leaves fewer to take.
#[verifier::spinoff_prover]
#[verifier::rlimit(40)]
pub proof fn law_session_ends(session: SessionView, reply: ReplyView)
    requires
        session.wf(),
        session.expects(reply),
    ensures
        replies_left(session) >= 1,
        session.step(reply).next matches ProgressView::Continue(next) ==> replies_left(next)
            < replies_left(session),
{
    match (session, reply) {
        (SessionView::Examining { plan }, ReplyView::Metadata { is_block_device, size, .. }) => {
            lemma_replies_after_size(plan, plan.size_source(is_block_device, size)->Known_0);
        },
        (SessionView::AskingBlockSize { plan }, ReplyView::BlockSize { size, .. }) => {
            lemma_replies_after_size(plan, size);
        },
        (SessionView::ReadingSizeFile { plan, .. }, ReplyView::Line(line)) => {
            lemma_replies_after_size(plan, size_in_line(plan.request.devname, line)->Ok_0);
        },
        _ => {},
    }
}

/// Once the size is known, the pages bound the replies.
proof fn lemma_replies_after_size(plan: PlanView, devsize: u64)
    ensures
        after_size(plan, devsize) matches ProgressView::Continue(next) ==> replies_left(next)
            <= 0xffff_ffff,
{
}

/// A session that has come to writing is done once the image is written, and no session is done
/// in another way.
pub proof fn law_done_means_written(session: SessionView, reply: ReplyView)
    requires
        session.expects(reply),
    ensures
        session.step(reply).next is Finished <==> session is Writing && reply is Number,
{
}

/// The request that a session serves.
pub open spec fn request_served(session: SessionView) -> Option<RequestView> {
    match session {
        SessionView::AskingPageSize { request, .. } => Some(request),
        SessionView::Opening { plan, .. } => Some(plan.request),
        SessionView::Examining { plan } => Some(plan.request),
        SessionView::AskingBlockSize { plan } => Some(plan.request),
        SessionView::ReadingSizeFile { plan, .. } => Some(plan.request),
        SessionView::Checking { area, .. } => Some(area.plan.request),
        SessionView::Writing { .. } => None,
    }
}

/// A session serves the request that it began with.
pub proof fn law_session_serves_one_request(session: SessionView, reply: ReplyView)
    requires
        session.expects(reply),
        session.step(reply).next matches ProgressView::Continue(next) && !(next is Writing),
    ensures
        request_served(session.step(reply).next->Continue_0) == request_served(session),
{
}

/// What a session writes is the image of a sound area for the request that it serves.
pub proof fn law_written_image_is_of_a_sound_area(session: SessionView, reply: ReplyView)
    requires
        session.wf(),
        session.accepts(reply),
        session.step(reply).next matches ProgressView::Continue(SessionView::Writing { .. }),
    ensures
        exists|area: AreaView, badpages: Seq<u32>| #[trigger]
            has_first_page(area, badpages) && request_served(session) == Some(area.plan.request)
                && session.step(reply).next == ProgressView::Continue(
                SessionView::Writing { image: area.image(badpages)->Ok_0 },
            ),
{
    match (session, reply) {
        (SessionView::Checking { area, scan }, ReplyView::Count(count)) => {
            assert(has_first_page(area, scan.recorded(count).badpages));
        },
        (SessionView::Examining { plan }, ReplyView::Metadata { is_block_device, size, .. }) => {
            lemma_written_after_size(plan, plan.size_source(is_block_device, size)->Known_0);
        },
        (SessionView::AskingBlockSize { plan }, ReplyView::BlockSize { size, .. }) => {
            lemma_written_after_size(plan, size);
        },
        (SessionView::ReadingSizeFile { plan, .. }, ReplyView::Line(line)) => {
            lemma_written_after_size(plan, size_in_line(plan.request.devname, line)->Ok_0);
        },
        _ => {},
    }
}

/// Where writing follows a known size, the area of that size is sound.
proof fn lemma_written_after_size(plan: PlanView, devsize: u64)
    requires
        plan.request.wf(),
        size_fits(plan, devsize),
        after_size(plan, devsize) matches ProgressView::Continue(SessionView::Writing { .. }),
    ensures
        plan.area(devsize) is Ok,
        has_first_page(plan.area(devsize)->Ok_0, Seq::empty()),
        after_size(plan, devsize) == ProgressView::Continue(
            SessionView::Writing { image: plan.area(devsize)->Ok_0.image(Seq::empty())->Ok_0 },
        ),
{
    law_area_has_its_pages(plan, devsize);
}

/// An error of the system ends a session with its message, except that a file whose space could
/// not be allocated is used all the same.
pub proof fn law_errors_end_the_session(session: SessionView, text: Seq<char>)
    requires
        session.expects(ReplyView::Error(text)),
    ensures
        ({
            let next = session.step(ReplyView::Error(text)).next;
            match session {
                SessionView::Opening { plan, op: OpenOperation::Allocate { .. } } => next
                    == ProgressView::Continue(SessionView::Examining { plan }),
                SessionView::Opening { plan, op: OpenOperation::Open { .. } } => next
                    == ProgressView::Failed(
                    ErrorView::IoError {
                        msg: "failed to open "@ + plan.request.devname + ": "@ + text,
                    },
                ),
                _ => next == ProgressView::Failed(ErrorView::IoError { msg: text }),
            }
        }),
{
}

/// The session with which a request begins.
pub open spec fn begun(request: RequestView) -> SessionView {
    SessionView::AskingPageSize { request, query: PageSizeQuery::PageSize }
}

/// A reply is accepted and leads from one session to another.
pub open spec fn leads(from: SessionView, reply: ReplyView, to: SessionView) -> bool {
    from.accepts(reply) && from.step(reply).next == ProgressView::Continue(to)
}

/// The page size of the system leads to opening, unless the page size that was asked for is
/// refused, or the file to create is too small for it.
proof fn lemma_page_size_told(request: RequestView, system: usize, pagesize: usize)
    requires
        is_chosen(request, system, pagesize),
        request.create ==> min_swapsize_of(pagesize) <= request.filesize,
    ensures
        leads(
            begun(request),
            ReplyView::Number(system as i64),
            SessionView::Opening {
                plan: PlanView { request, pagesize },
                op: OpenOperation::Open { create: request.create },
            },
        ),
{
}

/// The pages of a request have `pagesize` bytes where those of the system have `system`.
pub open spec fn is_chosen(request: RequestView, system: usize, pagesize: usize) -> bool {
    &&& 0 < system <= i64::MAX
    &&& chosen_page_size(request.pagesize, request.force, system) matches Ok(choice)
        && choice.size == pagesize
}

/// On a device of `devsize` bytes there is room for ten pages, and for no more than 32 bits can
/// count; a header fits in a page, and a page in memory.
pub open spec fn has_room(plan: PlanView, devsize: u64) -> bool {
    &&& BADPAGES_OFFSET + SWAP_SIGNATURE_SZ <= plan.pagesize <= isize::MAX
    &&& MIN_SWAP_PAGES * plan.pagesize <= u64::MAX
    &&& plan.request.offset + MIN_SWAP_PAGES * plan.pagesize <= devsize
    &&& (devsize - plan.request.offset) / plan.pagesize as int <= u32::MAX
}

/// The first session once the area is settled: its second page is to be read, or, where no
/// search for bad pages was asked for, its image is to be written.
pub open spec fn settled(area: AreaView) -> SessionView {
    let r = area.plan.request;
    if r.check {
        SessionView::Checking {
            area,
            scan: ScanView::start(area.plan.pagesize, area.pages, r.offset, r.verbose),
        }
    } else {
        SessionView::Writing { image: area.image(Seq::empty())->Ok_0 }
    }
}

/// A device with room for the area is set up once its size is known.
pub proof fn law_room_is_used(plan: PlanView, devsize: u64)
    requires
        plan.request.wf(),
        has_room(plan, devsize),
    ensures
        plan.area(devsize) is Ok,
        has_first_page(plan.area(devsize)->Ok_0, Seq::empty()),
        plan.area(devsize)->Ok_0.image(Seq::empty()) is Ok,
        size_fits(plan, devsize),
        after_size(plan, devsize) == ProgressView::Continue(settled(plan.area(devsize)->Ok_0)),
{
    law_area_has_its_pages(plan, devsize);
}

/// The search for bad pages takes one reply for each page but the first, and leads to writing
/// the image that lists exactly the pages found, if there is room for them.
pub proof fn law_search_leads_to_writing(area: AreaView, counts: Seq<isize>, k: int)
    requires
        area.wf(),
        area.plan.request.check,
        area.plan.pagesize <= isize::MAX,
        area.page_fits(),
        counts.len() == area.pages - 1,
        0 <= k < counts.len(),
    ensures
        ({
            let r = area.plan.request;
            let start = ScanView::start(area.plan.pagesize, area.pages, r.offset, r.verbose);
            let now = SessionView::Checking { area, scan: start.recorded_all(counts.take(k)) };
            let next = start.recorded_all(counts.take(k + 1));
            let reply = ReplyView::Count(counts[k]);
            &&& now.wf()
            &&& now.accepts(reply)
            &&& k + 1 < counts.len() ==> leads(
                now,
                reply,
                SessionView::Checking { area, scan: next },
            )
            &&& k + 1 == counts.len() ==> next == start.recorded_all(counts)
                && now.step(reply).next == after_check(area, next.badpages)
        }),
{
    let r = area.plan.request;
    let start = ScanView::start(area.plan.pagesize, area.pages, r.offset, r.verbose);
    lemma_scan_prefix(start, counts.take(k));
    lemma_scan_prefix(start, counts.take(k + 1));
    assert(counts.take(k + 1).drop_last() =~= counts.take(k));
    assert(counts.take(counts.len() as int) =~= counts);
}

/// A block device is measured: by the size that it tells, or else by the number of its sectors
/// that the system tells in a file.
pub proof fn law_block_device_is_measured(
    plan: PlanView,
    owner: u32,
    user: u32,
    told: u64,
    status: i32,
    size: u64,
    sectors: u64,
)
    requires
        !plan.request.create,
        sectors * 512 <= u64::MAX,
    ensures
        ({
            let examining = SessionView::Examining { plan };
            let asking = SessionView::AskingBlockSize { plan };
            let reading = SessionView::ReadingSizeFile {
                plan,
                path: sysfs_path(plan.request.devname),
            };
            let metadata = ReplyView::Metadata { owner, user, is_block_device: true, size: told };
            let answer = ReplyView::BlockSize { status, size };
            let line = ReplyView::Line(decimal(sectors as nat).push('\n'));
            &&& leads(examining, metadata, asking)
            &&& if status >= 0 && size > 0 {
                asking.step(answer).next == after_size(plan, size)
            } else {
                &&& leads(asking, answer, reading)
                &&& reading.step(line).next == after_size(plan, (sectors * 512) as u64)
            }
        }),
{
    law_sectors_have_512_bytes(plan.request.devname, sectors);
}

/// A file or device other than a block device that is there already is opened, examined and, if
/// there is room, set up.
pub proof fn law_file_is_set_up(
    request: RequestView,
    system: usize,
    pagesize: usize,
    owner: u32,
    user: u32,
    size: u64,
    done: i64,
)
    requires
        request.wf(),
        !request.create,
        is_chosen(request, system, pagesize),
        has_room(PlanView { request, pagesize }, size),
    ensures
        ({
            let plan = PlanView { request, pagesize };
            let area = plan.area(size)->Ok_0;
            let opening = SessionView::Opening { plan, op: OpenOperation::Open { create: false } };
            let examining = SessionView::Examining { plan };
            let metadata = ReplyView::Metadata { owner, user, is_block_device: false, size };
            &&& has_first_page(area, Seq::empty())
            &&& leads(begun(request), ReplyView::Number(system as i64), opening)
            &&& leads(opening, ReplyView::Number(done), examining)
            &&& leads(examining, metadata, settled(area))
        }),
{
    law_room_is_used(PlanView { request, pagesize }, size);
    lemma_page_size_told(request, system, pagesize);
}

/// A file that is asked for is created, on btrfs exempted from copy-on-write, examined and, if
/// there is room, set up; it does not matter whether its space could be allocated.
pub proof fn law_created_file_is_set_up(
    request: RequestView,
    system: usize,
    pagesize: usize,
    owner: u32,
    user: u32,
    is_block_device: bool,
    size: u64,
    magic: i64,
    flags: i32,
    allocated: ReplyView,
    done: i64,
)
    requires
        request.wf(),
        request.create,
        is_chosen(request, system, pagesize),
        has_room(PlanView { request, pagesize }, request.filesize),
        allocated is Number || allocated is Error,
    ensures
        ({
            let plan = PlanView { request, pagesize };
            let area = plan.area(request.filesize)->Ok_0;
            let at = |op: OpenOperation| SessionView::Opening { plan, op };
            let opening = at(OpenOperation::Open { create: true });
            let closing_off = at(OpenOperation::SetPermissions { mode: SWAP_FILE_MODE });
            let asking = at(OpenOperation::QueryFilesystem);
            let reading = at(OpenOperation::ReadFlags);
            let exempting = at(OpenOperation::WriteFlags { flags: flags | FS_NOCOW_FL });
            let allocating = at(OpenOperation::Allocate { len: request.filesize as i64 });
            let examining = SessionView::Examining { plan };
            let metadata = ReplyView::Metadata { owner, user, is_block_device, size };
            let ok = ReplyView::Number(done);
            &&& has_first_page(area, Seq::empty())
            &&& leads(begun(request), ReplyView::Number(system as i64), opening)
            &&& leads(opening, ok, closing_off)
            &&& leads(closing_off, ok, asking)
            &&& if magic == BTRFS_SUPER_MAGIC {
                &&& leads(asking, ReplyView::Number(magic), reading)
                &&& leads(reading, ReplyView::Number(flags as i64), exempting)
                &&& leads(exempting, ok, allocating)
            } else {
                leads(asking, ReplyView::Number(magic), allocating)
            }
            &&& leads(allocating, allocated, examining)
            &&& leads(examining, metadata, settled(area))
        }),
{
    law_room_is_used(PlanView { request, pagesize }, request.filesize);
    lemma_page_size_told(request, system, pagesize);
    assert((flags as i64) as i32 == flags);
}

/// Once an image is written, the user is told about its area.
pub proof fn law_user_is_told(area: AreaView, badpages: Seq<u32>, done: i64)
    requires
        has_first_page(area, badpages),
    ensures
        ({
            let writing = SessionView::Writing { image: area.image(badpages)->Ok_0 };
            &&& after_check(area, badpages) == ProgressView::Continue(writing)
            &&& writing.accepts(ReplyView::Number(done))
            &&& writing.step(ReplyView::Number(done)).next == ProgressView::Finished(area.summary())
        }),
{
}

/// An offset moves an area: with as many more bytes on the device, the area has the same pages,
/// and the same bytes are written, that much further on.
pub proof fn law_offset_moves_the_area(
    plan: PlanView,
    devsize: u64,
    distance: u64,
    badpages: Seq<u32>,
)
    requires
        plan.pagesize > 0,
        plan.request.offset <= devsize,
        devsize + distance <= u64::MAX,
    ensures
        ({
            let request = RequestView {
                offset: (plan.request.offset + distance) as u64,
                ..plan.request
            };
            let moved = PlanView { request, ..plan };
            match (plan.area(devsize), moved.area((devsize + distance) as u64)) {
                (Ok(a), Ok(b)) => {
                    &&& b.pages == a.pages
                    &&& match (a.image(badpages), b.image(badpages)) {
                        (Ok(i), Ok(j)) => {
                            &&& j.position == i.position + distance
                            &&& j.bytes == i.bytes
                            &&& j.summary == i.summary
                        },
                        (Err(e), Err(f)) => e == f,
                        _ => false,
                    }
                },
                (Err(e), Err(f)) => e == f,
                _ => false,
            }
        }),
{
}

/// The operation of a session changes the device or creates a file.
pub open spec fn changes_device(session: SessionView) -> bool {
    match session {
        SessionView::Opening { op, .. } => match op {
            OpenOperation::Open { create } => create,
            OpenOperation::QueryFilesystem => false,
            OpenOperation::ReadFlags => false,
            _ => true,
        },
        SessionView::Writing { .. } => true,
        _ => false,
    }
}

/// A device is only opened, unless a file is to be created and has a size that is large enough.
pub open spec fn is_harmless(session: SessionView) -> bool {
    session matches SessionView::Opening { plan, op } ==> {
        ||| op == (OpenOperation::Open { create: false })
        ||| plan.request.create && min_swapsize_of(plan.pagesize) <= plan.request.filesize
    }
}

/// Before an image is written, no operation changes a device that is there already, and none
/// creates a file that is too small: this holds at the beginning, and every reply keeps it.
pub proof fn law_only_writing_changes_a_device(
    request: RequestView,
    session: SessionView,
    reply: ReplyView,
)
    requires
        session.expects(reply),
        is_harmless(session),
    ensures
        is_harmless(begun(request)),
        session.step(reply).next matches ProgressView::Continue(next) ==> is_harmless(next),
        changes_device(session) ==> session is Writing || request_served(session)->0.create,
{
}

/// What is wrong with a request is found before anything is opened: a session fails for the
/// way it is used only while the page size is asked for, and never for a label.
pub proof fn law_usage_errors_come_first(session: SessionView, reply: ReplyView)
    requires
        session.expects(reply),
    ensures
        session.step(reply).next matches ProgressView::Failed(e) ==> {
            &&& !(e is TooLongLabel)
            &&& e is UsageError ==> session is AskingPageSize
        },
{
}

/// Where a session stands after some replies.
pub open spec fn after(session: SessionView, replies: Seq<ReplyView>) -> ProgressView
    decreases replies.len(),
{
    if replies.len() == 0 {
        ProgressView::Continue(session)
    } else {
        match after(session, replies.drop_last()) {
            ProgressView::Continue(next) => next.step(replies.last()).next,
            end => end,
        }
    }
}

/// The session to whose operation `replies[k]` is the reply.
pub open spec fn session_at(start: SessionView, replies: Seq<ReplyView>, k: int) -> SessionView {
    after(start, replies.take(k))->Continue_0
}

/// Each of `replies` is a reply to the operation at which the ones before it have led.
pub open spec fn is_run(start: SessionView, replies: Seq<ReplyView>) -> bool {
    forall|k: int|
        0 <= k < replies.len() ==> after(start, replies.take(k)) is Continue && (
        #[trigger] session_at(start, replies, k)).accepts(replies[k])
}

/// A reply leads a run one step on.
proof fn lemma_run_step(start: SessionView, replies: Seq<ReplyView>, k: int)
    requires
        is_run(start, replies),
        0 <= k < replies.len(),
    ensures
        after(start, replies.take(k + 1)) == session_at(start, replies, k).step(replies[k]).next,
{
    assert(session_at(start, replies, k).accepts(replies[k]));
    assert(replies.take(k + 1).drop_last() =~= replies.take(k));
}

/// Along a run the request stays the same, and opening is harmless.
proof fn lemma_run(request: RequestView, replies: Seq<ReplyView>, k: int)
    requires
        is_run(begun(request), replies),
        0 <= k < replies.len(),
    ensures
        ({
            let session = session_at(begun(request), replies, k);
            &&& session is Writing || request_served(session) == Some(request)
            &&& is_harmless(session)
        }),
    decreases k,
{
    let start = begun(request);
    if k == 0 {
        assert(replies.take(0) =~= Seq::empty());
    } else {
        lemma_run(request, replies, k - 1);
        lemma_run_step(start, replies, k - 1);
        let before = session_at(start, replies, k - 1);
        assert(before.accepts(replies[k - 1]));
        assert(session_at(start, replies, k).accepts(replies[k]));
        law_only_writing_changes_a_device(request, before, replies[k - 1]);
        if !(session_at(start, replies, k) is Writing) {
            if before is Writing {
                law_done_means_written(before, replies[k - 1]);
            }
            law_session_serves_one_request(before, replies[k - 1]);
        }
    }
}

/// Nothing but the end follows writing, and nothing but asking for the page size comes before
/// asking for it.
proof fn lemma_run_order(request: RequestView, replies: Seq<ReplyView>, k: int)
    requires
        is_run(begun(request), replies),
        0 <= k < replies.len() - 1,
    ensures
        !(session_at(begun(request), replies, k) is Writing),
        session_at(begun(request), replies, k + 1) is AskingPageSize ==> session_at(
            begun(request),
            replies,
            k,
        ) is AskingPageSize,
{
    let start = begun(request);
    lemma_run_step(start, replies, k);
    assert(session_at(start, replies, k).accepts(replies[k]));
    assert(session_at(start, replies, k + 1).accepts(replies[k + 1]));
}

/// A file is being created for a request, with a size that is large enough for its pages.
pub open spec fn creates_file(request: RequestView, session: SessionView) -> bool {
    &&& session matches SessionView::Opening { plan, .. }
    &&& plan.request == request
    &&& request.create
    &&& min_swapsize_of(plan.pagesize) <= request.filesize
}

/// Whatever the replies, a run that fails with anything but an error of the system has changed
/// no device, unless a file was to be created and has a size that is large enough.
pub proof fn law_refusal_changes_nothing(request: RequestView, replies: Seq<ReplyView>)
    requires
        is_run(begun(request), replies),
        after(begun(request), replies) matches ProgressView::Failed(e) && !(e is IoError),
    ensures
        forall|k: int|
            0 <= k < replies.len() && changes_device(
                #[trigger] session_at(begun(request), replies, k),
            ) ==> creates_file(request, session_at(begun(request), replies, k)),
{
    let start = begun(request);
    assert forall|k: int|
        0 <= k < replies.len() && changes_device(
            #[trigger] session_at(start, replies, k),
        ) implies creates_file(request, session_at(start, replies, k)) by {
        let session = session_at(start, replies, k);
        lemma_run(request, replies, k);
        lemma_run_step(start, replies, k);
        assert(session.accepts(replies[k]));
        if k + 1 == replies.len() {
            assert(replies.take(k + 1) =~= replies);
        } else {
            lemma_run_order(request, replies, k);
        }
    }
}

/// Whatever the replies, a run that fails for the way the program is used has done nothing but
/// ask for the page size.
pub proof fn law_misuse_opens_nothing(request: RequestView, replies: Seq<ReplyView>, k: int)
    requires
        is_run(begun(request), replies),
        after(begun(request), replies) matches ProgressView::Failed(ErrorView::UsageError { .. }),
        0 <= k < replies.len(),
    ensures
        session_at(begun(request), replies, k) is AskingPageSize,
    decreases replies.len() - k,
{
    let start = begun(request);
    if k + 1 == replies.len() {
        lemma_run_step(start, replies, k);
        assert(session_at(start, replies, k).accepts(replies[k]));
        assert(replies.take(k + 1) =~= replies);
        law_usage_errors_come_first(session_at(start, replies, k), replies[k]);
    } else {
        law_misuse_opens_nothing(request, replies, k + 1);
        lemma_run_order(request, replies, k);
    }
}

/// The notation in which a UUID is told to the user is read as that UUID.
pub proof fn law_told_uuid_reads_back(uuid: Seq<u8>)
    requires
        uuid.len() == 16,
    ensures
        uuid_from_text(hyphenated(uuid)) == Ok::<Seq<u8>, Seq<char>>(uuid),
{
    lemma_hyphenated(uuid);
}

} // verus!
