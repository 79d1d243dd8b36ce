//! From a request to the bytes of a swap area.
//!
//! The page size makes a [`Plan`] of a [`Request`], the size of the device an [`Area`], and the
//! bad pages the [`SwapImage`] that is to be written.

use vstd::arithmetic::div_mod::lemma_fundamental_div_mod;
use vstd::prelude::*;
use vstd::utf8::encode_utf8;

use crate::endian::{lemma_converted, native_bytes, Endian};
use crate::error::{outcome, ErrorView, MkswapError, MIN_SWAP_PAGES, SWAP_LABEL_LENGTH};
use crate::header::{
    low_word, max_badpages_of, write_at, written, zeros, HeaderView, SwapHeader, BADPAGES_OFFSET,
    BOOTBITS_SIZE, SWAP_SIGNATURE, SWAP_SIGNATURE_SZ, SWAP_VERSION,
};
use crate::identity::{hyphenated, uuid_text};
use crate::mkswap::{Request, RequestView};
use crate::scan::{check_device, PageScan, ScanView};
use crate::text::{append_decimal, decimal, opt_text};

verus! {

/// The size of the smallest swap area with pages of `pagesize` bytes, as far as it fits in 64
/// bits.
pub open spec fn min_swapsize_of(pagesize: usize) -> u64 {
    if MIN_SWAP_PAGES * pagesize > u64::MAX {
        u64::MAX
    } else {
        (MIN_SWAP_PAGES * pagesize) as u64
    }
}

/// The size of the smallest swap area with pages of `pagesize` bytes.
pub fn min_swapsize(pagesize: usize) -> (r: u64)
    ensures
        r == min_swapsize_of(pagesize),
{
    match (MIN_SWAP_PAGES as u64).checked_mul(pagesize as u64) {
        Some(size) => size,
        None => u64::MAX,
    }
}

/// A request whose page size is settled.
pub struct Plan {
    /// The request.
    pub request: Request,
    /// The page size.
    pub pagesize: usize,
}

/// A [`Plan`] as a mathematical value.
pub struct PlanView {
    pub request: RequestView,
    pub pagesize: usize,
}

impl View for Plan {
    type V = PlanView;

    open spec fn view(&self) -> PlanView {
        PlanView { request: self.request@, pagesize: self.pagesize }
    }
}

/// The plan for a request with pages of `pagesize` bytes. A file that is to be created has to
/// be large enough.
pub open spec fn plan_of(request: RequestView, pagesize: usize) -> Result<PlanView, ErrorView> {
    if request.create && request.filesize < min_swapsize_of(pagesize) {
        Err(ErrorView::SwapAreaTooSmall { min_swapsize: min_swapsize_of(pagesize) as nat })
    } else {
        Ok(PlanView { request, pagesize })
    }
}

impl Request {
    /// Makes a plan of the request, with pages of `pagesize` bytes.
    pub fn plan(self, pagesize: usize) -> (r: Result<Plan, MkswapError>)
        ensures
            outcome(r) == plan_of(self@, pagesize),
    {
        let min_swapsize: u64 = min_swapsize(pagesize);
        if self.create && self.filesize < min_swapsize {
            return Err(MkswapError::SwapAreaTooSmall { min_swapsize });
        }
        Ok(Plan { request: self, pagesize })
    }
}

/// Where the size of a device is to be had from.
#[derive(Debug, Clone, Copy, PartialEq, Eq, Structural)]
pub enum SizeSource {
    /// It is known.
    Known(u64),
    /// The block device is to be asked.
    BlockDevice,
}

/// A swap area whose size is settled.
pub struct Area {
    /// The plan.
    pub plan: Plan,
    /// The size of the device.
    pub devsize: u64,
    /// The number of pages, the one with the header among them.
    pub pages: u32,
}

/// An [`Area`] as a mathematical value.
pub struct AreaView {
    pub plan: PlanView,
    pub devsize: u64,
    pub pages: u32,
}

impl View for Area {
    type V = AreaView;

    open spec fn view(&self) -> AreaView {
        AreaView { plan: self.plan@, devsize: self.devsize, pages: self.pages }
    }
}

impl AreaView {
    /// The bytes of the device from the start of the area on.
    pub open spec fn swapsize(self) -> int {
        self.devsize - self.plan.request.offset
    }

    /// The area holds as many whole pages as fit behind its start, and it is not smaller than
    /// the smallest swap area.
    pub open spec fn wf(self) -> bool {
        &&& self.plan.request.wf()
        &&& self.plan.pagesize > 0
        &&& min_swapsize_of(self.plan.pagesize) <= self.swapsize()
        &&& self.pages * self.plan.pagesize <= self.swapsize() < (self.pages + 1)
            * self.plan.pagesize
    }
}

impl PlanView {
    /// The warning about a device that belongs to someone other than root, for root.
    pub open spec fn owner_warning(self, owner: u32, user: u32) -> Option<Seq<char>> {
        if owner != 0 && user == 0 {
            Some(
                "rsmkswap: "@ + self.request.devname + ": insecure file owner "@ + decimal(
                    owner as nat,
                ) + ", fix with: chown 0:0 "@ + self.request.device,
            )
        } else {
            None
        }
    }

    /// Where the size of the device is to be had from.
    pub open spec fn size_source(self, is_block_device: bool, metadata_size: u64) -> SizeSource {
        if self.request.create {
            SizeSource::Known(self.request.filesize)
        } else if is_block_device {
            SizeSource::BlockDevice
        } else {
            SizeSource::Known(metadata_size)
        }
    }

    /// The area on a device of `devsize` bytes.
    pub open spec fn area(self, devsize: u64) -> Result<AreaView, ErrorView> {
        let swapsize = if devsize >= self.request.offset {
            devsize - self.request.offset
        } else {
            0
        };
        let pages = swapsize / self.pagesize as int;
        if swapsize < min_swapsize_of(self.pagesize) {
            Err(
                ErrorView::SwapAreaTooSmall {
                    min_swapsize: min_swapsize_of(self.pagesize) as nat,
                },
            )
        } else if pages > u32::MAX {
            Err(
                ErrorView::IoError {
                    msg: "swap area is too large: max size is "@ + decimal(
                        (u32::MAX * self.pagesize / 0x4000_0000) as nat,
                    ) + " GiB"@,
                },
            )
        } else {
            Ok(AreaView { plan: self, devsize, pages: pages as u32 })
        }
    }
}

impl Plan {
    /// The warning about a device that belongs to `owner`, for the user `user`.
    pub fn owner_warning(&self, owner: u32, user: u32) -> (r: Option<String>)
        ensures
            opt_text(r) == self@.owner_warning(owner, user),
    {
        if owner != 0 && user == 0 {
            let mut text: String = String::new();
            text.append("rsmkswap: ");
            text.append(self.request.devname.as_str());
            text.append(": insecure file owner ");
            append_decimal(&mut text, owner as u64);
            text.append(", fix with: chown 0:0 ");
            text.append(self.request.device.as_str());
            assert(text@ =~= "rsmkswap: "@ + self@.request.devname + ": insecure file owner "@
                + decimal(owner as nat) + ", fix with: chown 0:0 "@ + self@.request.device);
            Some(text)
        } else {
            None
        }
    }

    /// Where the size of the device is to be had from, given whether it is a block device, and
    /// the size that its metadata tells.
    pub fn size_source(&self, is_block_device: bool, metadata_size: u64) -> (r: SizeSource)
        ensures
            r == self@.size_source(is_block_device, metadata_size),
    {
        if self.request.create {
            SizeSource::Known(self.request.filesize)
        } else if is_block_device {
            SizeSource::BlockDevice
        } else {
            SizeSource::Known(metadata_size)
        }
    }

    /// The area on a device of `devsize` bytes.
    pub fn area(self, devsize: u64) -> (r: Result<Area, MkswapError>)
        requires
            self.pagesize > 0,
        ensures
            outcome(r) == self@.area(devsize),
            self@.request.wf() ==> (r matches Ok(area) ==> area@.wf()),
    {
        let min_swapsize: u64 = min_swapsize(self.pagesize);
        let swapsize: u64 = devsize.saturating_sub(self.request.offset);
        if swapsize < min_swapsize {
            return Err(MkswapError::SwapAreaTooSmall { min_swapsize });
        }
        let size: u64 = self.pagesize as u64;
        let pages: u64 = swapsize / size;
        proof {
            lemma_fundamental_div_mod(swapsize as int, size as int);
            assert(size * (pages + 1) == size * pages + size) by (nonlinear_arith);
            assert(size * pages == pages * size) by (nonlinear_arith);
            assert((pages + 1) * size == size * (pages + 1)) by (nonlinear_arith);
        }
        if pages > u32::MAX as u64 {
            assert(0xffff_ffff * size <= pages * size) by (nonlinear_arith)
                requires
                    0xffff_ffff <= pages,
            ;
            let largest: u64 = 0xffff_ffff * size;
            assert(largest >> 30 == largest / 0x4000_0000) by (bit_vector);
            let mut msg: String = String::new();
            msg.append("swap area is too large: max size is ");
            append_decimal(&mut msg, largest >> 30);
            msg.append(" GiB");
            assert(msg@ =~= "swap area is too large: max size is "@ + decimal(
                (u32::MAX * self.pagesize / 0x4000_0000) as nat,
            ) + " GiB"@);
            return Err(MkswapError::IoError { msg });
        }
        Ok(Area { plan: self, devsize, pages: pages as u32 })
    }
}

/// The table of bad pages: each number in the four bytes that a byte order gives it.
pub open spec fn badpage_table(endianness: Endian, badpages: Seq<u32>) -> Seq<u8> {
    Seq::new(4 * badpages.len(), |i: int| endianness.bytes(badpages[i / 4])[i % 4])
}

/// The first page of a swap area: the boot bits, the version, the number of the last page, the
/// number of bad pages, the UUID, the label, padding, the table of bad pages, zeros, and the
/// signature at the very end.
pub open spec fn first_page(
    endianness: Endian,
    label: Seq<u8>,
    uuid: Seq<u8>,
    pages: u32,
    badpages: Seq<u32>,
    pagesize: int,
) -> Seq<u8> {
    zeros(BOOTBITS_SIZE as nat) + endianness.bytes(SWAP_VERSION) + endianness.bytes(
        (pages - 1) as u32,
    ) + endianness.bytes(low_word(badpages.len() as int) as u32) + uuid + (label + zeros(
        (SWAP_LABEL_LENGTH - label.len()) as nat,
    )) + zeros(468) + badpage_table(endianness, badpages) + zeros(
        (pagesize - BADPAGES_OFFSET - 4 * badpages.len() - SWAP_SIGNATURE_SZ) as nat,
    ) + SWAP_SIGNATURE@
}

/// What sets up a swap area.
pub struct SwapImage {
    /// Where on the device `bytes` are to be written.
    pub position: u64,
    /// The first page of the area, without the boot bits.
    pub bytes: Vec<u8>,
    /// What to tell the user once they are written.
    pub summary: String,
}

/// A [`SwapImage`] as a mathematical value.
pub struct ImageView {
    pub position: int,
    pub bytes: Seq<u8>,
    pub summary: Seq<char>,
}

impl View for SwapImage {
    type V = ImageView;

    open spec fn view(&self) -> ImageView {
        ImageView { position: self.position as int, bytes: self.bytes@, summary: self.summary@ }
    }
}

impl AreaView {
    /// The fields of a header and the signature fit in a page, and a page in memory, unless
    /// the area is too small anyway.
    pub open spec fn page_fits(self) -> bool {
        self.pages >= MIN_SWAP_PAGES ==> BADPAGES_OFFSET + SWAP_SIGNATURE_SZ <= self.plan.pagesize
            <= isize::MAX
    }

    /// The size of the pages in which the area can keep data.
    pub open spec fn capacity(self) -> int {
        (self.pages - 1) * self.plan.pagesize
    }

    /// What the user is told about the area.
    pub open spec fn summary(self) -> Seq<char> {
        let r = self.plan.request;
        "Setting up swapspace version 1, size = "@ + decimal(
            ((self.pages - 1) * (self.plan.pagesize / 1024)) as nat,
        ) + " KiB ("@ + decimal(self.capacity() as nat) + " bytes)\n"@ + (if r.label.len() == 0 {
            "no label"@
        } else {
            "LABEL="@
        }) + r.label + ", UUID="@ + hyphenated(r.uuid)
    }

    /// The first page of the area.
    pub open spec fn page(self, badpages: Seq<u32>) -> Seq<u8> {
        let r = self.plan.request;
        first_page(
            r.endianness,
            encode_utf8(r.label),
            r.uuid,
            self.pages,
            badpages,
            self.plan.pagesize as int,
        )
    }

    /// What sets up the area, with these bad pages.
    pub open spec fn image(self, badpages: Seq<u32>) -> Result<ImageView, ErrorView> {
        let pagesize = self.plan.pagesize as int;
        if self.pages < MIN_SWAP_PAGES {
            Err(ErrorView::TooFewPages { pages: self.pages as nat })
        } else if badpages.len() > max_badpages_of(pagesize) {
            Err(
                ErrorView::MaxBadPagesExceeded { max_badpages: max_badpages_of(pagesize) as nat },
            )
        } else {
            Ok(
                ImageView {
                    position: self.plan.request.offset + BOOTBITS_SIZE,
                    bytes: self.page(badpages).subrange(BOOTBITS_SIZE as int, pagesize),
                    summary: self.summary(),
                },
            )
        }
    }
}

/// The bytes of the table of bad pages.
fn encode_badpages(endianness: Endian, badpages: &[u32]) -> (r: Vec<u8>)
    ensures
        r@ == badpage_table(endianness, badpages@),
{
    let mut table: Vec<u8> = Vec::new();
    let mut i: usize = 0;
    while i < badpages.len()
        invariant
            i <= badpages@.len(),
            table@ == badpage_table(endianness, badpages@.take(i as int)),
        decreases badpages@.len() - i,
    {
        let bytes: [u8; 4] = native_bytes(endianness.convert(badpages[i]));
        table.push(bytes[0]);
        table.push(bytes[1]);
        table.push(bytes[2]);
        table.push(bytes[3]);
        assert(table@ =~= badpage_table(endianness, badpages@.take(i + 1)));
        i = i + 1;
    }
    assert(badpages@.take(badpages@.len() as int) =~= badpages@);
    table
}

/// Writing `t` into a run of zeros leaves zeros before and behind it.
proof fn lemma_written_into_zeros(a: Seq<u8>, n: nat, b: Seq<u8>, k: nat, t: Seq<u8>)
    requires
        k + t.len() <= n,
    ensures
        written(a + zeros(n) + b, (a.len() + k) as int, t) == a + zeros(k) + t + zeros(
            (n - k - t.len()) as nat,
        ) + b,
{
    assert(written(a + zeros(n) + b, (a.len() + k) as int, t) =~= a + zeros(k) + t + zeros(
        (n - k - t.len()) as nat,
    ) + b);
}

/// A header written into an empty page, and the table of bad pages, make the first page.
proof fn lemma_first_page(
    h: HeaderView,
    endianness: Endian,
    label: Seq<u8>,
    uuid: Seq<u8>,
    pages: u32,
    badpages: Seq<u32>,
    pagesize: int,
)
    requires
        label.len() <= SWAP_LABEL_LENGTH,
        uuid.len() == 16,
        BADPAGES_OFFSET + SWAP_SIGNATURE_SZ <= pagesize,
        badpages.len() <= max_badpages_of(pagesize),
        h.version == endianness.converted(SWAP_VERSION),
        h.last_page == endianness.converted((pages - 1) as u32),
        h.nr_badpages == endianness.converted(low_word(badpages.len() as int) as u32),
        h.uuid == uuid,
        h.label == written(zeros(SWAP_LABEL_LENGTH as nat), 0, label),
    ensures
        written(
            h.written_to(zeros(pagesize as nat), pagesize),
            BADPAGES_OFFSET as int,
            badpage_table(endianness, badpages),
        ) == first_page(endianness, label, uuid, pages, badpages, pagesize),
        badpages.len() == 0 ==> h.written_to(zeros(pagesize as nat), pagesize) == first_page(
            endianness,
            label,
            uuid,
            pages,
            badpages,
            pagesize,
        ),
        first_page(endianness, label, uuid, pages, badpages, pagesize).len() == pagesize,
{
    let none = Seq::<u8>::empty();
    let table = badpage_table(endianness, badpages);
    let fields = h.fields();
    lemma_converted(endianness, SWAP_VERSION);
    lemma_converted(endianness, (pages - 1) as u32);
    lemma_converted(endianness, low_word(badpages.len() as int) as u32);
    assert(h.label =~= label + zeros((SWAP_LABEL_LENGTH - label.len()) as nat));
    assert(fields.len() == 1068);
    let blank = zeros(pagesize as nat);
    assert(blank =~= none + blank + none);
    lemma_written_into_zeros(none, pagesize as nat, none, 0, fields);
    let page1 = written(blank, 0, fields);
    let rest1 = (pagesize - 1068) as nat;
    assert(page1 =~= fields + zeros(rest1) + none);
    let gap = (pagesize - 1068 - SWAP_SIGNATURE_SZ) as nat;
    lemma_written_into_zeros(fields, rest1, none, gap, SWAP_SIGNATURE@);
    let page2 = written(page1, pagesize - SWAP_SIGNATURE_SZ, SWAP_SIGNATURE@);
    assert(page2 =~= fields + zeros(gap) + SWAP_SIGNATURE@);
    lemma_written_into_zeros(fields, gap, SWAP_SIGNATURE@, 468, table);
    if badpages.len() == 0 {
        assert(page2 =~= written(page2, BADPAGES_OFFSET as int, table));
    }
}

impl Area {
    /// Starts the search for bad pages, if it was asked for.
    pub fn start_check(&self) -> (r: Option<PageScan>)
        requires
            self.plan.pagesize <= isize::MAX,
        ensures
            r is Some <==> self.plan.request.check,
            r matches Some(scan) ==> scan@.wf() && scan@ == ScanView::start(
                self.plan.pagesize,
                self.pages,
                self.plan.request.offset,
                self.plan.request.verbose,
            ),
    {
        if self.plan.request.check {
            Some(
                check_device(
                    self.plan.pagesize,
                    self.pages,
                    self.plan.request.offset,
                    self.plan.request.verbose,
                ),
            )
        } else {
            None
        }
    }

    /// What the user is told about the area.
    fn summary(&self) -> (r: String)
        requires
            self@.wf(),
            self.pages >= 1,
        ensures
            r@ == self@.summary(),
    {
        let size: u64 = self.plan.pagesize as u64;
        let count: u64 = self.pages as u64 - 1;
        assert(count * size <= self.pages * size) by (nonlinear_arith)
            requires
                count <= self.pages,
        ;
        assert(count * (size / 1024) <= count * size) by (nonlinear_arith)
            requires
                size / 1024 <= size,
        ;
        let mut text: String = String::new();
        text.append("Setting up swapspace version 1, size = ");
        append_decimal(&mut text, count * (size / 1024));
        text.append(" KiB (");
        append_decimal(&mut text, count * size);
        text.append(" bytes)\n");
        if self.plan.request.label.as_str().is_empty() {
            text.append("no label");
        } else {
            text.append("LABEL=");
        }
        text.append(self.plan.request.label.as_str());
        text.append(", UUID=");
        text.append(uuid_text(self.plan.request.uuid).as_str());
        assert(text@ =~= self@.summary());
        text
    }

    /// What sets up the area, with the bad pages that were found.
    pub fn image(&self, badpages: &[u32]) -> (r: Result<SwapImage, MkswapError>)
        requires
            self@.wf(),
            self@.page_fits(),
        ensures
            outcome(r) == self@.image(badpages@),
    {
        let request = &self.plan.request;
        let pagesize: usize = self.plan.pagesize;
        let header = match SwapHeader::new().label(request.label.as_str()) {
            Ok(header) => header,
            Err(e) => return Err(e),
        };
        let header = match header.pages(self.pages) {
            Ok(header) => header.uuid(request.uuid),
            Err(e) => return Err(e),
        };
        let header = match header.nr_badpages(badpages, pagesize) {
            Ok(header) => header.set_endian(request.endianness),
            Err(e) => return Err(e),
        };
        proof {
            lemma_first_page(
                header@,
                request.endianness,
                encode_utf8(request.label@),
                request.uuid@,
                self.pages,
                badpages@,
                pagesize as int,
            );
        }
        let mut page: Vec<u8> = vec![0u8;pagesize];
        assert(page@ =~= zeros(pagesize as nat));
        header.write_to(&mut page, pagesize);
        if badpages.len() > 0 {
            let table = encode_badpages(request.endianness, badpages);
            write_at(&mut page, BADPAGES_OFFSET, &table);
        }
        assert(page@ == self@.page(badpages@));
        // Skip past bootbits to avoid overwriting data
        let bytes: Vec<u8> = page.split_off(BOOTBITS_SIZE);
        Ok(SwapImage { position: request.offset + 1024, bytes, summary: self.summary() })
    }
}

} // verus!
