//! What callers get from single functions.

use vstd::prelude::*;
use vstd::utf8::{encode_utf8, is_ascii_chars};

use crate::area::{min_swapsize, Area, Plan, SizeSource, SwapImage};
use crate::cli::{parsed, rsmkswap_settings, Options, OptionsView};
use crate::device::{
    get_blockdev_size, open_device, open_device_step, open_step, parse_blockdev_size, reply_view,
    BlockSize, OpenOperation, OpenProgress,
};
use crate::endian::Endian;
use crate::error::{outcome, MkswapError};
use crate::header::{HeaderView, SwapHeader};
use crate::identity::uuid_from_text;
use crate::laws::area::law_image_is_the_first_page;
use crate::laws::header::law_header_numbers_read_back;
use crate::laws::identity::{spells_bytes, writes_digits};
use crate::laws::number_of;
use crate::laws::pages::{law_position_of_a_page, law_system_tells_its_page_size};
use crate::laws::request::law_byte_orders_have_names;
use crate::laws::text::{
    all_digits, blank, idle, law_digits_have_their_place, law_last_component_is_the_name,
    law_prefix_is_stripped, law_sectors_are_read, law_trimming_keeps_the_text, leads_up, no_slash,
    numeral,
};
use crate::mkswap::{
    check_options, endian_from_name, mkswap, parse_endianness, requested_endian, run, Launch,
    Request,
};
use crate::pagesize::{
    choose_page_size, getpagesize, PageSizeAnswer, PageSizeChoice, PageSizeQuery,
};
use crate::scan::{check_device, PageScan};
use crate::session::{Reply, Session, SessionView, Step};
use crate::swapheader;
use crate::text::{
    ascii_lowercase, file_name, is_white_space, opt_text, same_text, strip_prefix, texts,
    trim,
};

verus! {

/// The page to read next is read at the offset plus its number times the page size.
pub proof fn law_position(scan: &PageScan, r: i64)
    requires
        call_ensures(PageScan::position, (scan,), r),
        scan.offset <= i64::MAX,
    ensures
        r == scan.offset + scan.next * scan.pagesize,
{
}

/// A search starts with the second page of the area that it is given.
pub proof fn law_search_starts(
    pagesize: usize,
    pages: u32,
    offset: u64,
    verbose: bool,
    r: PageScan,
)
    requires
        call_ensures(check_device, (pagesize, pages, offset, verbose), r),
    ensures
        r.pagesize == pagesize,
        r.pages == pages,
        r.offset == offset,
        r.verbose == verbose,
        r.next == 1,
        r.badpages@.len() == 0,
{
}

/// Without a page size that was asked for, that of the system is chosen; otherwise the one that
/// was asked for.
pub proof fn law_choice(
    requested: Option<usize>,
    force: bool,
    system: usize,
    r: Result<PageSizeChoice, MkswapError>,
)
    requires
        call_ensures(choose_page_size, (requested, force, system), r),
    ensures
        requested is None ==> (r matches Ok(choice) && choice.size == system && choice.notice
            is None),
        requested matches Some(size) ==> (r matches Ok(choice) ==> choice.size == size),
        force ==> r is Ok,
{
}

/// Ten pages are the least.
pub proof fn law_least(pagesize: usize, r: u64)
    requires
        call_ensures(min_swapsize, (pagesize,), r),
        10 * pagesize <= u64::MAX,
    ensures
        r == 10 * pagesize,
{
}

/// A header gets the UUID that it is given, and nothing else of it changes.
pub proof fn law_uuid_is_set(
    h: SwapHeader,
    g: SwapHeader,
    a: swapheader::SwapHeader,
    b: swapheader::SwapHeader,
    uuid: [u8; 16],
)
    requires
        call_ensures(SwapHeader::uuid, (h, uuid), g),
        call_ensures(swapheader::SwapHeader::uuid, (a, uuid), b),
    ensures
        g.uuid@ == uuid@ && b.uuid@ == uuid@,
        g.label@ == h.label@ && b.volume_name@ == a.volume_name@,
        g.version == h.version && b.version == a.version,
        g.last_page == h.last_page && b.last_page == a.last_page,
        g.nr_badpages == h.nr_badpages && b.nr_badpages == a.nr_badpages,
        g.bootbits@ == h.bootbits@ && b.bootbits@ == a.bootbits@,
        g.padding@ == h.padding@ && b.padding@ == a.padding@,
        g.badpages@ == h.badpages@ && b.badpages@ == a.badpages@,
{
    assert(g@.uuid == g.uuid@ && h@.label == h.label@ && g@.label == g.label@);
    assert(h@.bootbits == h.bootbits@ && g@.bootbits == g.bootbits@);
    assert(h@.padding == h.padding@ && g@.padding == g.padding@);
    assert(h@.badpages == h.badpages@ && g@.badpages == g.badpages@);
    assert(a@.volume_name == a.volume_name@ && b@.volume_name == b.volume_name@);
}

/// A number is converted to what reads as it in the byte order.
pub proof fn law_conversion(e: &Endian, value: u32, r: u32)
    requires
        call_ensures(Endian::convert, (e, value), r),
    ensures
        number_of(*e, crate::endian::ne_bytes(r)) == value,
{
    crate::laws::law_numbers_read_back(*e, value);
}

/// A request holds the numbers and switches that the user gave.
pub proof fn law_request(
    options: Options,
    endianness: Option<Endian>,
    uuid: Result<[u8; 16], String>,
    r: Result<Request, MkswapError>,
)
    requires
        call_ensures(check_options, (options, endianness, uuid), r),
        r is Ok,
    ensures
        options.filesize matches Some(n) ==> r->Ok_0.filesize == n,
        options.filesize is None ==> r->Ok_0.filesize == 0,
        options.offset matches Some(n) ==> r->Ok_0.offset == n,
        options.offset is None ==> r->Ok_0.offset == 0,
        r->Ok_0.pagesize == options.pagesize,
        r->Ok_0.create == options.file,
        r->Ok_0.force == options.force,
        r->Ok_0.check == options.check,
        r->Ok_0.verbose == options.verbose,
        Some(r->Ok_0.endianness) == endianness,
        uuid matches Ok(bytes) && r->Ok_0.uuid@ == bytes@,
        options.device matches Some(device) && r->Ok_0.device@ == device@,
        options.label matches Some(label) ==> r->Ok_0.label@ == label@,
{
    assert(r->Ok_0@.uuid == r->Ok_0.uuid@);
}

/// The request for an area holds the UUID whose digits the user wrote.
pub proof fn law_request_for_a_uuid(
    options: Options,
    r: Result<Request, MkswapError>,
    digits: Seq<char>,
    bytes: Seq<u8>,
)
    requires
        call_ensures(mkswap, (options,), r),
        options.uuid matches Some(text) && writes_digits(text@, digits),
        spells_bytes(digits, bytes),
    ensures
        r matches Ok(request) ==> request.uuid@ == bytes,
{
    crate::laws::identity::law_uuid_is_what_its_digits_spell(
        options@.uuid->0,
        digits,
        bytes,
    );
}

/// What clap reads from the arguments is what a run goes on with, unchanged.
pub proof fn law_run(args: &[String], o: OptionsView, r: Result<Launch, MkswapError>)
    requires
        call_ensures(run, (args,), r),
        parsed(rsmkswap_settings(), texts(args@)) == Ok::<OptionsView, i32>(o),
    ensures
        !(r matches Ok(Launch::Exit { .. })),
        r matches Ok(Launch::Proceed(request)) ==> {
            &&& o.filesize matches Some(n) ==> request.filesize == n
            &&& o.offset matches Some(n) ==> request.offset == n
            &&& o.offset is None ==> request.offset == 0
            &&& request.pagesize == o.pagesize
            &&& request.create == o.file
            &&& request.force == o.force
            &&& request.check == o.check
            &&& request.verbose == o.verbose
            &&& o.device == Some(request.device@)
            &&& o.label matches Some(label) ==> request.label@ == label
            &&& requested_endian(o.endianness) == Some(request.endianness)
            &&& o.uuid matches Some(s) ==> uuid_from_text(s) == Ok::<Seq<u8>, Seq<char>>(
                request.uuid@,
            )
        },
{
}

/// A device is opened as it is, or created, as was asked for.
pub proof fn law_opening_starts(createflag: bool, r: OpenOperation)
    requires
        call_ensures(open_device, (createflag,), r),
    ensures
        r == (OpenOperation::Open { create: createflag }),
{
}

/// The size that a block device tells is taken as it is, unless it is zero or asking failed.
pub proof fn law_block_size(devname: &str, status: i32, size: u64, r: BlockSize)
    requires
        call_ensures(get_blockdev_size, (devname, status, size), r),
    ensures
        size > 0 && status >= 0 ==> r == BlockSize::Known(size),
        size == 0 || status < 0 ==> (r matches BlockSize::InFile(path) && path@
            == "/sys/class/block/"@ + devname@ + "/size"@),
{
}

/// An area keeps the plan and the size that it is made of.
pub proof fn law_area(plan: Plan, devsize: u64, r: Result<Area, MkswapError>)
    requires
        call_ensures(Plan::area, (plan, devsize), r),
        plan.pagesize > 0,
        r is Ok,
    ensures
        r->Ok_0.plan@ == plan@,
        r->Ok_0.devsize == devsize,
        r->Ok_0.pages * plan.pagesize <= devsize - plan.request.offset,
        devsize - plan.request.offset < (r->Ok_0.pages + 1) * plan.pagesize,
{
    crate::laws::area::law_area_is_what_is_behind_the_offset(plan@, devsize);
}

/// A file that is created has the size that was asked for.
pub proof fn law_size(plan: &Plan, is_block_device: bool, size: u64, r: SizeSource)
    requires
        call_ensures(Plan::size_source, (plan, is_block_device, size), r),
    ensures
        plan.request.create ==> r == SizeSource::Known(plan.request.filesize),
        !plan.request.create && is_block_device ==> r == SizeSource::BlockDevice,
        !plan.request.create && !is_block_device ==> r == SizeSource::Known(size),
{
}

/// Two texts are the same exactly where they hold the same characters.
pub proof fn law_same_text(a: &str, b: &str, r: bool)
    requires
        call_ensures(same_text, (a, b), r),
    ensures
        r <==> a@ == b@,
{
}

/// A text comes back without the white space around it.
pub proof fn law_trim(s: &str, before: Seq<char>, text: Seq<char>, behind: Seq<char>, r: &str)
    requires
        call_ensures(trim, (s,), r),
        s@ == before + text + behind,
        blank(before),
        blank(behind),
        text.len() > 0 ==> !is_white_space(text.first()) && !is_white_space(text.last()),
    ensures
        r@ == text,
{
    law_trimming_keeps_the_text(before, text, behind);
}

/// The last component of a path is found.
pub proof fn law_file_name(
    path: &str,
    prefix: Seq<char>,
    name: Seq<char>,
    tail: Seq<char>,
    r: Option<&str>,
)
    requires
        call_ensures(file_name, (path,), r),
        path@ == prefix + name + tail,
        leads_up(prefix),
        no_slash(name),
        name.len() > 0,
        name != seq!['.'],
        name != seq!['.', '.'],
        idle(tail),
    ensures
        r matches Some(found) && found@ == name,
{
    law_last_component_is_the_name(prefix, name, tail);
}

/// A prefix is taken away where the text has it.
pub proof fn law_strip_prefix(text: &str, prefix: &str, rest: Seq<char>, r: Option<&str>)
    requires
        call_ensures(strip_prefix, (text, prefix), r),
    ensures
        text@ == prefix@ + rest ==> (r matches Some(found) && found@ == rest),
        r matches Some(found) ==> text@ == prefix@ + found@,
{
    law_prefix_is_stripped(text@, prefix@, rest);
    if r is Some {
        assert(text@ == prefix@ + r->0@);
    }
}

/// The three names of byte orders are known, in lower case.
pub proof fn law_names(name: &str, r: Option<Endian>)
    requires
        call_ensures(endian_from_name, (name,), r),
    ensures
        r == Some(Endian::Native) <==> name@ == "native"@,
        r == Some(Endian::Little) <==> name@ == "little"@,
        r == Some(Endian::Big) <==> name@ == "big"@,
{
    law_byte_orders_have_names(name@);
}

/// In a name in ASCII the case of the letters does not matter.
pub proof fn law_names_in_any_case(
    one: &str,
    other: &str,
    r: Option<Endian>,
    t: Option<Endian>,
)
    requires
        call_ensures(parse_endianness, (one,), r),
        call_ensures(parse_endianness, (other,), t),
        is_ascii_chars(one@),
        is_ascii_chars(other@),
        one@.map_values(|c: char| ascii_lowercase(c)) == other@.map_values(
            |c: char| ascii_lowercase(c),
        ),
    ensures
        r == t,
        one@.map_values(|c: char| ascii_lowercase(c)) == "little"@ <==> r == Some(Endian::Little),
        one@.map_values(|c: char| ascii_lowercase(c)) == "big"@ <==> r == Some(Endian::Big),
        one@.map_values(|c: char| ascii_lowercase(c)) == "native"@ <==> r == Some(Endian::Native),
{
    law_byte_orders_have_names(one@.map_values(|c: char| ascii_lowercase(c)));
}

/// A line with a number of sectors is read as 512 times as many bytes.
pub proof fn law_sectors(
    devname: &str,
    line: &str,
    before: Seq<char>,
    digits: Seq<char>,
    behind: Seq<char>,
    r: Result<u64, MkswapError>,
)
    requires
        call_ensures(parse_blockdev_size, (devname, line), r),
        line@ == before + digits + behind,
        blank(before),
        blank(behind),
        all_digits(digits),
    ensures
        numeral(digits) * 512 <= u64::MAX ==> (r matches Ok(size) && size == numeral(digits) * 512),
        numeral(digits) * 512 > u64::MAX ==> r is Err,
{
    law_sectors_are_read(devname@, before, false, digits, behind);
    law_digits_have_their_place(digits);
}

/// A positive number of the system is its page size.
pub proof fn law_page_size(query: PageSizeQuery, value: i64, r: PageSizeAnswer)
    requires
        call_ensures(getpagesize, (query, value), r),
        0 < value <= usize::MAX,
    ensures
        r matches PageSizeAnswer::Known(size) && size == value,
{
    law_system_tells_its_page_size(query, value);
}

/// Opening takes the step that its operation and the reply lead to.
pub proof fn law_opening(
    devname: &str,
    filesize: u64,
    op: OpenOperation,
    reply: Result<i64, String>,
    r: OpenProgress,
)
    requires
        call_ensures(open_device_step, (devname, filesize, op, reply), r),
    ensures
        r@ == open_step(devname@, filesize, op, reply_view(reply)),
{
}

/// A plan keeps the request and the page size.
pub proof fn law_plan(request: Request, pagesize: usize, r: Result<Plan, MkswapError>)
    requires
        call_ensures(Request::plan, (request, pagesize), r),
    ensures
        r matches Ok(plan) ==> plan.request@ == request@ && plan.pagesize == pagesize,
        10 * pagesize <= u64::MAX ==> (r is Err <==> request.create && request.filesize < 10
            * pagesize),
{
}

/// The search for bad pages is started where it was asked for, on the area.
pub proof fn law_check(area: &Area, r: Option<PageScan>)
    requires
        call_ensures(Area::start_check, (area,), r),
    ensures
        r is Some <==> area.plan.request.check,
        r matches Some(scan) ==> {
            &&& scan.pagesize == area.plan.pagesize
            &&& scan.pages == area.pages
            &&& scan.offset == area.plan.request.offset
            &&& scan.verbose == area.plan.request.verbose
            &&& scan.next == 1
            &&& scan.badpages@.len() == 0
        },
{
}

/// The image of an area is its first page behind the boot bits, with what the user is told.
pub proof fn law_image(area: &Area, badpages: &[u32], r: Result<SwapImage, MkswapError>)
    requires
        call_ensures(Area::image, (area, badpages), r),
        area@.wf(),
        area@.page_fits(),
    ensures
        r is Ok <==> area.pages >= 10 && 1546 + 4 * badpages@.len() <= area.plan.pagesize,
        r matches Ok(image) ==> {
            &&& image.position == area.plan.request.offset + 1024
            &&& image.bytes@ == area@.page(badpages@).subrange(1024, area.plan.pagesize as int)
            &&& image.summary@ == area@.summary()
        },
{
    if area.pages >= 10 {
        law_image_is_the_first_page(area@, badpages@);
    }
}

/// A search has a page left, and a position to read it at, exactly where the numbers say so.
pub proof fn law_search(scan: &PageScan, pending: bool, positioned: bool)
    requires
        call_ensures(PageScan::is_pending, (scan,), pending),
        call_ensures(PageScan::has_position, (scan,), positioned),
    ensures
        pending <==> scan.next < scan.pages,
        scan.offset <= i64::MAX ==> (positioned <==> scan.offset + scan.next * scan.pagesize
            <= i64::MAX),
{
    assert(0 <= scan.next * scan.pagesize) by (nonlinear_arith);
    law_position_of_a_page(scan@, scan@);
}

/// The owner of a device is warned about to root alone.
pub proof fn law_warning(plan: &Plan, owner: u32, user: u32, r: Option<String>)
    requires
        call_ensures(Plan::owner_warning, (plan, owner, user), r),
    ensures
        opt_text(r) == plan@.owner_warning(owner, user),
        r is Some <==> owner != 0 && user == 0,
{
}

/// A session begins with the request and the first question.
pub proof fn law_beginning(request: Request, r: Session)
    requires
        call_ensures(Request::begin, (request,), r),
    ensures
        r@ == (SessionView::AskingPageSize {
            request: request@,
            query: PageSizeQuery::PageSize,
        }),
{
}

/// A session takes the step that its operation and the reply lead to.
pub proof fn law_step(session: Session, reply: Reply, accepted: bool, r: Step)
    requires
        call_ensures(Session::is_accepted, (&session, &reply), accepted),
        call_ensures(Session::step, (session, reply), r),
    ensures
        accepted <==> session@.accepts(reply@),
        r@ == session@.step(reply@),
{
}

/// Both kinds of errors are told by their messages.
pub proof fn law_message(
    e: &MkswapError,
    f: &swapheader::MkswapError,
    r: String,
    t: String,
)
    requires
        call_ensures(MkswapError::to_string, (e,), r),
        call_ensures(swapheader::MkswapError::to_string, (f,), t),
    ensures
        r@ == e@.message(),
        t@ == f.message(),
{
}

/// A label is set from the bytes of its text, in both kinds of headers.
pub proof fn law_label(
    h: SwapHeader,
    g: swapheader::SwapHeader,
    label: &str,
    name: String,
    r: Result<SwapHeader, MkswapError>,
    t: Result<swapheader::SwapHeader, swapheader::MkswapError>,
)
    requires
        call_ensures(SwapHeader::label, (h, label), r),
        call_ensures(swapheader::SwapHeader::label, (g, name), t),
    ensures
        outcome(r) == h@.with_label(encode_utf8(label@)),
        swapheader::build_outcome(t) == g@.with_label(encode_utf8(name@)),
        r is Ok <==> encode_utf8(label@).len() <= 16,
        t is Ok <==> encode_utf8(name@).len() <= 16,
{
}

/// The number of pages is set, in both kinds of headers, as that of the last page.
pub proof fn law_pages(
    h: SwapHeader,
    g: swapheader::SwapHeader,
    pages: u32,
    r: Result<SwapHeader, MkswapError>,
    t: Result<swapheader::SwapHeader, swapheader::MkswapError>,
)
    requires
        call_ensures(SwapHeader::pages, (h, pages), r),
        call_ensures(swapheader::SwapHeader::pages, (g, pages), t),
    ensures
        outcome(r) == h@.with_pages(pages),
        swapheader::build_outcome(t) == g@.with_pages(pages),
        r is Ok <==> pages >= 10,
        t is Ok <==> pages >= 10,
        r matches Ok(header) ==> header.last_page + 1 == pages,
        t matches Ok(header) ==> header.last_page + 1 == pages,
{
}

/// The number of bad pages is set, in both kinds of headers.
pub proof fn law_bad_pages(
    h: SwapHeader,
    g: swapheader::SwapHeader,
    badpages: &[u32],
    list: Vec<u32>,
    pagesize: usize,
    r: Result<SwapHeader, MkswapError>,
    t: Result<swapheader::SwapHeader, swapheader::MkswapError>,
)
    requires
        pagesize >= 1546,
        call_ensures(SwapHeader::nr_badpages, (h, badpages, pagesize), r),
        call_ensures(swapheader::SwapHeader::bad_pages, (g, list, pagesize), t),
    ensures
        outcome(r) == h@.with_nr_badpages(badpages@.len(), pagesize as int),
        swapheader::build_outcome(t) == g@.with_bad_pages(list@.len(), pagesize as int),
        r is Ok <==> 1546 + 4 * badpages@.len() <= pagesize,
        r matches Ok(header) ==> badpages@.len() <= u32::MAX ==> header.nr_badpages
            == badpages@.len(),
{
}

/// New headers are blank, and the byte order of one is set for its numbers.
pub proof fn law_headers(
    h: SwapHeader,
    g: swapheader::SwapHeader,
    endianness: Endian,
    r: SwapHeader,
    t: SwapHeader,
)
    requires
        call_ensures(SwapHeader::new, (), h),
        call_ensures(swapheader::SwapHeader::new, (), g),
        call_ensures(SwapHeader::set_endian, (t, endianness), r),
    ensures
        h@ == HeaderView::blank(),
        g@ == swapheader::HeaderView::blank(),
        r@ == t@.with_endian(endianness),
        number_of(endianness, crate::endian::ne_bytes(r.version)) == t.version,
        number_of(endianness, crate::endian::ne_bytes(r.last_page)) == t.last_page,
        number_of(endianness, crate::endian::ne_bytes(r.nr_badpages)) == t.nr_badpages,
{
    law_header_numbers_read_back(t@, endianness);
}

} // verus!
