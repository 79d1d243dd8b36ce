//! The header of a swap area and the page that holds it.

use vstd::prelude::*;

use crate::endian::{native_bytes, ne_bytes, Endian};
use crate::error::{outcome, ErrorView, MkswapError, MIN_SWAP_PAGES, SWAP_LABEL_LENGTH};

verus! {

/// The bytes at the start of an area that are left to boot loaders.
pub const BOOTBITS_SIZE: usize = 1024;

/// The length of the signature at the end of the first page.
pub const SWAP_SIGNATURE_SZ: usize = 10;

/// The length of a UUID, in bytes.
pub const UUID_LENGTH: usize = 16;

/// The version of the swap area format.
pub const SWAP_VERSION: u32 = 1;

/// Where the table of bad pages starts: behind the boot bits, three numbers, the UUID, the
/// label and 117 words of padding.
pub const BADPAGES_OFFSET: usize = BOOTBITS_SIZE + 12 + UUID_LENGTH + SWAP_LABEL_LENGTH + 468;

/// The size of a header with room for one bad page.
pub const SWAP_HEADER_SIZE: usize = BADPAGES_OFFSET + 4;

/// The signature that marks a page as the first of a swap area: the text `SWAPSPACE2`.
pub const SWAP_SIGNATURE: [u8; 10] = [0x53, 0x57, 0x41, 0x50, 0x53, 0x50, 0x41, 0x43, 0x45, 0x32];

/// `n` bytes that are zero.
pub open spec fn zeros(n: nat) -> Seq<u8> {
    Seq::new(n, |i: int| 0u8)
}

/// What a file that held `buf` holds after `bytes` were written at position `at`. Where the
/// write starts behind the end, zeros fill the gap; writing nothing changes nothing.
pub open spec fn written(buf: Seq<u8>, at: int, bytes: Seq<u8>) -> Seq<u8> {
    let end = at + bytes.len();
    Seq::new(
        if bytes.len() > 0 && end > buf.len() {
            end as nat
        } else {
            buf.len()
        },
        |i: int|
            if at <= i < end {
                bytes[i - at]
            } else if i < buf.len() {
                buf[i]
            } else {
                0u8
            },
    )
}

/// Writes `bytes` at position `at`, extending the buffer where it is too short.
pub fn write_at(buf: &mut Vec<u8>, at: usize, bytes: &[u8])
    requires
        at + bytes@.len() <= usize::MAX,
    ensures
        final(buf)@ == written(old(buf)@, at as int, bytes@),
{
    let ghost before = buf@;
    if bytes.len() == 0 {
        assert(buf@ =~= written(before, at as int, bytes@));
        return ;
    }
    while buf.len() < at
        invariant
            before.len() <= buf@.len(),
            buf@.len() <= at || buf@.len() == before.len(),
            forall|j: int|
                0 <= j < buf@.len() ==> #[trigger] buf@[j] == if j < before.len() {
                    before[j]
                } else {
                    0u8
                },
        decreases at - buf@.len(),
    {
        buf.push(0);
    }
    let mut i: usize = 0;
    while i < bytes.len()
        invariant
            i <= bytes@.len(),
            at + bytes@.len() <= usize::MAX,
            at <= buf@.len(),
            buf@.len() == if at + i > before.len() {
                (at + i) as nat
            } else {
                before.len()
            },
            forall|j: int|
                0 <= j < buf@.len() ==> #[trigger] buf@[j] == if at <= j < at + i {
                    bytes@[j - at]
                } else if j < before.len() {
                    before[j]
                } else {
                    0u8
                },
        decreases bytes@.len() - i,
    {
        if at + i < buf.len() {
            buf.set(at + i, bytes[i]);
        } else {
            buf.push(bytes[i]);
        }
        i = i + 1;
    }
    assert(buf@ =~= written(before, at as int, bytes@));
}

/// The low 32 bits of `n`.
pub open spec fn low_word(n: int) -> int {
    n % 0x1_0000_0000
}

/// The low 32 bits of `n`.
pub(crate) fn truncated(n: usize) -> (r: u32)
    ensures
        r == low_word(n as int),
{
    let wide: u64 = n as u64;
    assert(wide as u32 == wide % 0x1_0000_0000) by (bit_vector);
    wide as u32
}

/// The header of a swap area.
pub struct SwapHeader {
    /// Left to boot loaders.
    pub bootbits: [i8; 1024],
    /// The version of the format.
    pub version: u32,
    /// The number of the area's last page.
    pub last_page: u32,
    /// The number of pages in the table of bad pages.
    pub nr_badpages: u32,
    /// The UUID of the area.
    pub uuid: [u8; 16],
    /// The label of the area, padded with zeros.
    pub label: [u8; 16],
    /// Not used.
    pub padding: [u32; 117],
    /// The start of the table of bad pages.
    pub badpages: [u32; 1],
}

/// A [`SwapHeader`] as a mathematical value.
pub struct HeaderView {
    pub bootbits: Seq<i8>,
    pub version: u32,
    pub last_page: u32,
    pub nr_badpages: u32,
    pub uuid: Seq<u8>,
    pub label: Seq<u8>,
    pub padding: Seq<u32>,
    pub badpages: Seq<u32>,
}

impl View for SwapHeader {
    type V = HeaderView;

    open spec fn view(&self) -> HeaderView {
        HeaderView {
            bootbits: self.bootbits@,
            version: self.version,
            last_page: self.last_page,
            nr_badpages: self.nr_badpages,
            uuid: self.uuid@,
            label: self.label@,
            padding: self.padding@,
            badpages: self.badpages@,
        }
    }
}

/// The most bad pages for which a page of `pagesize` bytes has room, between the fields of
/// the header and the signature.
pub open spec fn max_badpages_of(pagesize: int) -> int {
    (pagesize - SWAP_SIGNATURE_SZ - BADPAGES_OFFSET) / 4
}

impl HeaderView {
    /// A header of which only the version is set.
    pub open spec fn blank() -> HeaderView {
        HeaderView {
            bootbits: Seq::new(BOOTBITS_SIZE as nat, |i: int| 0i8),
            version: SWAP_VERSION,
            last_page: 0,
            nr_badpages: 0,
            uuid: zeros(UUID_LENGTH as nat),
            label: zeros(SWAP_LABEL_LENGTH as nat),
            padding: Seq::new(117, |i: int| 0u32),
            badpages: seq![0u32],
        }
    }

    /// The header with a label whose bytes are `bytes`.
    pub open spec fn with_label(self, bytes: Seq<u8>) -> Result<HeaderView, ErrorView> {
        if bytes.len() > SWAP_LABEL_LENGTH {
            Err(ErrorView::TooLongLabel)
        } else {
            Ok(HeaderView { label: written(self.label, 0, bytes), ..self })
        }
    }

    /// The header of an area of `pages` pages.
    pub open spec fn with_pages(self, pages: u32) -> Result<HeaderView, ErrorView> {
        if pages < MIN_SWAP_PAGES {
            Err(ErrorView::TooFewPages { pages: pages as nat })
        } else {
            Ok(HeaderView { last_page: (pages - 1) as u32, ..self })
        }
    }

    /// The header of an area with `count` bad pages.
    pub open spec fn with_nr_badpages(self, count: nat, pagesize: int) -> Result<
        HeaderView,
        ErrorView,
    > {
        if count > max_badpages_of(pagesize) {
            Err(
                ErrorView::MaxBadPagesExceeded { max_badpages: max_badpages_of(pagesize) as nat },
            )
        } else {
            Ok(HeaderView { nr_badpages: low_word(count as int) as u32, ..self })
        }
    }

    /// The header with its numbers converted to a byte order.
    pub open spec fn with_endian(self, endianness: Endian) -> HeaderView {
        HeaderView {
            version: endianness.converted(self.version),
            last_page: endianness.converted(self.last_page),
            nr_badpages: endianness.converted(self.nr_badpages),
            ..self
        }
    }

    /// The bytes of the header up to its padding, with the boot bits zero.
    pub open spec fn fields(self) -> Seq<u8> {
        zeros(BOOTBITS_SIZE as nat) + ne_bytes(self.version) + ne_bytes(self.last_page) + ne_bytes(
            self.nr_badpages,
        ) + self.uuid + self.label
    }

    /// What a page that held `page` holds after the header was written to it.
    pub open spec fn written_to(self, page: Seq<u8>, pagesize: int) -> Seq<u8> {
        written(
            written(page, 0, self.fields()),
            pagesize - SWAP_SIGNATURE_SZ,
            SWAP_SIGNATURE@,
        )
    }
}

impl SwapHeader {
    /// A header of which only the version is set.
    pub fn new() -> (r: Self)
        ensures
            r@ == HeaderView::blank(),
    {
        let r = SwapHeader {
            bootbits: [0;1024],
            version: SWAP_VERSION,
            last_page: 0,
            nr_badpages: 0,
            uuid: [0;16],
            label: [0;16],
            padding: [0;117],
            badpages: [0],
        };
        assert(r.bootbits@ =~= HeaderView::blank().bootbits);
        assert(r.uuid@ =~= HeaderView::blank().uuid);
        assert(r.label@ =~= HeaderView::blank().label);
        assert(r.padding@ =~= HeaderView::blank().padding);
        assert(r.badpages@ =~= HeaderView::blank().badpages);
        r
    }

    /// Sets the label. Bytes of an earlier label that the new one does not cover stay.
    pub fn label(self, swaplabel: &str) -> (r: Result<Self, MkswapError>)
        ensures
            outcome(r) == self@.with_label(vstd::utf8::encode_utf8(swaplabel@)),
    {
        let mut header = self;
        let bytes = swaplabel.as_bytes();
        if bytes.len() > SWAP_LABEL_LENGTH {
            return Err(MkswapError::TooLongLabel);
        }
        let mut i: usize = 0;
        while i < bytes.len()
            invariant
                i <= bytes@.len() <= SWAP_LABEL_LENGTH,
                header@ == (HeaderView { label: header.label@, ..self@ }),
                forall|j: int|
                    0 <= j < 16 ==> #[trigger] header.label@[j] == if j < i {
                        bytes@[j]
                    } else {
                        self.label@[j]
                    },
            decreases bytes@.len() - i,
        {
            header.label[i] = bytes[i];
            i = i + 1;
        }
        assert(header.label@ =~= written(self.label@, 0, bytes@));
        Ok(header)
    }

    /// Sets the UUID.
    pub fn uuid(self, uuid: [u8; 16]) -> (r: Self)
        ensures
            r@ == (HeaderView { uuid: uuid@, ..self@ }),
    {
        let mut header = self;
        header.uuid = uuid;
        header
    }

    /// Sets the number of pages.
    pub fn pages(self, pages: u32) -> (r: Result<Self, MkswapError>)
        ensures
            outcome(r) == self@.with_pages(pages),
    {
        if pages < MIN_SWAP_PAGES {
            return Err(MkswapError::TooFewPages { pages });
        }
        let mut header = self;
        header.last_page = pages - 1;
        Ok(header)
    }

    /// Sets the number of bad pages.
    pub fn nr_badpages(self, badpages: &[u32], pagesize: usize) -> (r: Result<Self, MkswapError>)
        requires
            pagesize >= BADPAGES_OFFSET + SWAP_SIGNATURE_SZ,
        ensures
            outcome(r) == self@.with_nr_badpages(badpages@.len(), pagesize as int),
    {
        // space between swap signature and start of badpages
        let max_badpages: usize = ((pagesize - SWAP_SIGNATURE_SZ) - BADPAGES_OFFSET) / 4;
        let count: usize = badpages.len();
        if count > max_badpages {
            return Err(MkswapError::MaxBadPagesExceeded { max_badpages });
        }
        let mut header = self;
        header.nr_badpages = truncated(count);
        Ok(header)
    }

    /// Sets the endianness of all relevant fields (version, nr_badpages, last_page). To be
    /// used last, after the fields are set.
    pub fn set_endian(self, endianness: Endian) -> (r: Self)
        ensures
            r@ == self@.with_endian(endianness),
    {
        let mut header = self;
        header.version = endianness.convert(header.version);
        header.last_page = endianness.convert(header.last_page);
        header.nr_badpages = endianness.convert(header.nr_badpages);
        header
    }

    /// Writes the header and the signature into a page of `pagesize` bytes, from its start.
    pub fn write_to(&self, page: &mut Vec<u8>, pagesize: usize)
        requires
            pagesize >= SWAP_SIGNATURE_SZ,
        ensures
            final(page)@ == self@.written_to(old(page)@, pagesize as int),
    {
        let mut fields: Vec<u8> = vec![0u8;BOOTBITS_SIZE];
        assert(fields@ =~= zeros(BOOTBITS_SIZE as nat));
        append_bytes(&mut fields, &native_bytes(self.version));
        append_bytes(&mut fields, &native_bytes(self.last_page));
        append_bytes(&mut fields, &native_bytes(self.nr_badpages));
        append_bytes(&mut fields, &self.uuid);
        append_bytes(&mut fields, &self.label);
        write_at(page, 0, &fields);
        write_at(page, pagesize - SWAP_SIGNATURE_SZ, &SWAP_SIGNATURE);
    }
}

/// Appends `bytes`.
fn append_bytes(out: &mut Vec<u8>, bytes: &[u8])
    ensures
        final(out)@ == old(out)@ + bytes@,
{
    out.extend_from_slice(bytes);
    assert(out@ =~= old(out)@ + bytes@);
}

} // verus!
