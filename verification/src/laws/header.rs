//! What holds of headers, byte by byte and field by field.

use vstd::prelude::*;

use crate::area::AreaView;
use crate::device::{BTRFS_SUPER_MAGIC, FS_NOCOW_FL, SWAP_FILE_MODE};
use crate::endian::{ne_bytes, Endian};
use crate::error::{ErrorView, MIN_SWAP_PAGES, SWAP_LABEL_LENGTH};
use crate::header::{
    low_word, max_badpages_of, written, zeros, HeaderView, BADPAGES_OFFSET, BOOTBITS_SIZE,
    SWAP_HEADER_SIZE, SWAP_SIGNATURE, SWAP_SIGNATURE_SZ, SWAP_VERSION, UUID_LENGTH,
};
use crate::laws::{has_first_page, number_of};
use crate::swapheader;
use crate::swapheader::{listed_count, max_listed};

verus! {

/// The numbers of the format: how Linux lays out a swap area of version 1, and what it calls the
/// things that concern one.
pub proof fn law_format()
    ensures
        BOOTBITS_SIZE == 1024,
        SWAP_VERSION == 1,
        UUID_LENGTH == 16,
        SWAP_LABEL_LENGTH == 16,
        BADPAGES_OFFSET == 1536,
        SWAP_HEADER_SIZE == 1540,
        SWAP_SIGNATURE_SZ == 10,
        MIN_SWAP_PAGES == 10,
        SWAP_SIGNATURE@ == seq![
            'S' as u8,
            'W' as u8,
            'A' as u8,
            'P' as u8,
            'S' as u8,
            'P' as u8,
            'A' as u8,
            'C' as u8,
            'E' as u8,
            '2' as u8,
        ],
        BTRFS_SUPER_MAGIC == 0x9123683e,
        FS_NOCOW_FL == 0x800000,
        SWAP_FILE_MODE == 0o600,
{
    assert(SWAP_SIGNATURE@ =~= seq![
        0x53u8,
        0x57u8,
        0x41u8,
        0x50u8,
        0x53u8,
        0x50u8,
        0x41u8,
        0x43u8,
        0x45u8,
        0x32u8,
    ]);
}

/// A converted number, kept in memory as the machine keeps its numbers, reads as the number in
/// the byte order it was converted to.
pub proof fn law_converted_number_reads_back(endianness: Endian, value: u32)
    ensures
        ne_bytes(endianness.converted(value)).len() == 4,
        number_of(endianness, ne_bytes(endianness.converted(value))) == value,
        number_of(Endian::Native, ne_bytes(value)) == value,
        Endian::Native.converted(value) == value,
{
    crate::endian::lemma_converted(endianness, value);
    crate::laws::law_numbers_read_back(endianness, value);
    crate::laws::law_numbers_read_back(Endian::Native, value);
}

/// Writing bytes into a buffer puts each of them in its place, keeps every other byte, and
/// extends the buffer only as far as it must, with zeros before the bytes.
pub proof fn law_written_bytes_are_in_place(buf: Seq<u8>, at: int, bytes: Seq<u8>)
    requires
        at >= 0,
    ensures
        ({
            let after = written(buf, at, bytes);
            &&& bytes.len() == 0 ==> after == buf
            &&& bytes.len() > 0 && at + bytes.len() > buf.len() ==> after.len() == at + bytes.len()
            &&& at + bytes.len() <= buf.len() ==> after.len() == buf.len()
            &&& forall|i: int| 0 <= i < bytes.len() ==> after[at + i] == #[trigger] bytes[i]
            &&& forall|i: int|
                0 <= i < buf.len() && !(at <= i < at + bytes.len()) ==> after[i]
                    == #[trigger] buf[i]
            &&& forall|i: int|
                buf.len() <= i < after.len() && i < at ==> #[trigger] after[i] == 0
        }),
        forall|n: nat, i: int| 0 <= i < n ==> #[trigger] zeros(n)[i] == 0,
        forall|n: nat| #[trigger] zeros(n).len() == n,
{
    if bytes.len() == 0 {
        assert(written(buf, at, bytes) =~= buf);
    }
    let after = written(buf, at, bytes);
    assert forall|i: int| 0 <= i < bytes.len() implies after[at + i] == #[trigger] bytes[i] by {
        assert(after[at + i] == bytes[at + i - at]);
    }
}

/// A page has room for as many bad pages as fit, four bytes each, between the fields of the
/// header and the signature, and not for one more.
pub proof fn law_room_for_bad_pages(pagesize: int)
    ensures
        1536 + 4 * max_badpages_of(pagesize) + 10 <= pagesize < 1536 + 4 * (max_badpages_of(
            pagesize,
        ) + 1) + 10,
        1536 + 4 * max_listed(pagesize) + 10 <= pagesize < 1536 + 4 * (max_listed(pagesize) + 1)
            + 10,
{
}

/// A count of 32 bits is kept as it is; of a larger one, what is left by a power of two.
pub proof fn law_low_word(n: int)
    requires
        n >= 0,
    ensures
        n <= u32::MAX ==> low_word(n) == n,
        0 <= low_word(n) <= u32::MAX,
        low_word(n + 0x1_0000_0000) == low_word(n),
{
}

/// A new header is empty but for its version.
pub proof fn law_new_header_is_empty()
    ensures
        ({
            let h = HeaderView::blank();
            &&& h.version == 1 && h.last_page == 0 && h.nr_badpages == 0
            &&& h.uuid.len() == 16 && forall|i: int| 0 <= i < 16 ==> #[trigger] h.uuid[i] == 0
            &&& h.label.len() == 16 && forall|i: int| 0 <= i < 16 ==> #[trigger] h.label[i] == 0
            &&& h.bootbits.len() == 1024 && forall|i: int|
                0 <= i < 1024 ==> #[trigger] h.bootbits[i] == 0
            &&& h.padding.len() == 117 && forall|i: int|
                0 <= i < 117 ==> #[trigger] h.padding[i] == 0
            &&& h.badpages == seq![0u32]
        }),
        ({
            let h = swapheader::HeaderView::blank();
            &&& h.version == 1 && h.last_page == 0 && h.nr_badpages == 0
            &&& h.uuid.len() == 16 && forall|i: int| 0 <= i < 16 ==> #[trigger] h.uuid[i] == 0
            &&& h.volume_name.len() == 16 && forall|i: int|
                0 <= i < 16 ==> #[trigger] h.volume_name[i] == 0
            &&& h.bootbits.len() == 1024 && forall|i: int|
                0 <= i < 1024 ==> #[trigger] h.bootbits[i] == 0
            &&& h.padding.len() == 117 && forall|i: int|
                0 <= i < 117 ==> #[trigger] h.padding[i] == 0
            &&& h.badpages == seq![0u32]
        }),
{
}

/// A label of up to sixteen bytes is set, byte by byte, and nothing else changes; a longer one
/// is refused.
pub proof fn law_label_is_set(h: HeaderView, bytes: Seq<u8>)
    requires
        h.label.len() == 16,
    ensures
        bytes.len() > 16 <==> h.with_label(bytes) == Err::<HeaderView, ErrorView>(
            ErrorView::TooLongLabel,
        ),
        bytes.len() <= 16 <==> h.with_label(bytes) is Ok,
        h.with_label(bytes) matches Ok(g) ==> {
            &&& g == (HeaderView { label: g.label, ..h })
            &&& g.label.len() == 16
            &&& forall|i: int| 0 <= i < bytes.len() ==> g.label[i] == #[trigger] bytes[i]
            &&& forall|i: int| bytes.len() <= i < 16 ==> #[trigger] g.label[i] == h.label[i]
        },
{
}

/// The number of pages is set as that of the last one, which is one less; fewer than ten are
/// refused.
pub proof fn law_pages_are_set(h: HeaderView, pages: u32)
    ensures
        pages < 10 <==> h.with_pages(pages) is Err,
        pages < 10 ==> h.with_pages(pages) == Err::<HeaderView, ErrorView>(
            ErrorView::TooFewPages { pages: pages as nat },
        ),
        h.with_pages(pages) matches Ok(g) ==> g.last_page + 1 == pages && g == (HeaderView {
            last_page: g.last_page,
            ..h
        }),
{
}

/// The number of bad pages is set, if the page has room for them.
pub proof fn law_bad_pages_are_counted(h: HeaderView, count: nat, pagesize: int)
    requires
        pagesize >= 1546,
    ensures
        1546 + 4 * count <= pagesize <==> h.with_nr_badpages(count, pagesize) is Ok,
        h.with_nr_badpages(count, pagesize) matches Ok(g) ==> {
            &&& count <= u32::MAX ==> g.nr_badpages == count
            &&& g.nr_badpages == low_word(count as int)
            &&& g == (HeaderView { nr_badpages: g.nr_badpages, ..h })
        },
        h.with_nr_badpages(count, pagesize) matches Err(e) ==> e matches
            ErrorView::MaxBadPagesExceeded { max_badpages } && 1546 + 4 * max_badpages <= pagesize
            && pagesize < 1546 + 4 * (max_badpages + 1),
{
}

/// Setting the byte order of a header makes its three numbers read as they are in that byte
/// order, and changes nothing else.
pub proof fn law_header_numbers_read_back(h: HeaderView, endianness: Endian)
    ensures
        ({
            let g = h.with_endian(endianness);
            &&& number_of(endianness, ne_bytes(g.version)) == h.version
            &&& number_of(endianness, ne_bytes(g.last_page)) == h.last_page
            &&& number_of(endianness, ne_bytes(g.nr_badpages)) == h.nr_badpages
            &&& g == (HeaderView {
                version: g.version,
                last_page: g.last_page,
                nr_badpages: g.nr_badpages,
                ..h
            })
        }),
{
    law_converted_number_reads_back(endianness, h.version);
    law_converted_number_reads_back(endianness, h.last_page);
    law_converted_number_reads_back(endianness, h.nr_badpages);
}

/// A header is written into a page in its place: zeros for the boot bits, its three numbers as
/// the machine keeps them, the UUID, the label, and the signature at the end. All other bytes of
/// the page stay.
pub proof fn law_header_is_written(h: HeaderView, page: Seq<u8>, pagesize: int)
    requires
        h.uuid.len() == 16,
        h.label.len() == 16,
        page.len() == pagesize,
        pagesize >= 1078,
    ensures
        ({
            let after = h.written_to(page, pagesize);
            &&& after.len() == pagesize
            &&& forall|i: int| 0 <= i < 1024 ==> #[trigger] after[i] == 0
            &&& after.subrange(1024, 1028) == ne_bytes(h.version)
            &&& after.subrange(1028, 1032) == ne_bytes(h.last_page)
            &&& after.subrange(1032, 1036) == ne_bytes(h.nr_badpages)
            &&& after.subrange(1036, 1052) == h.uuid
            &&& after.subrange(1052, 1068) == h.label
            &&& forall|i: int| 1068 <= i < pagesize - 10 ==> #[trigger] after[i] == page[i]
            &&& after.subrange(pagesize - 10, pagesize) == SWAP_SIGNATURE@
        }),
{
    let after = h.written_to(page, pagesize);
    assert(ne_bytes(h.version).len() == 4);
    assert(ne_bytes(h.last_page).len() == 4);
    assert(ne_bytes(h.nr_badpages).len() == 4);
    assert(h.fields().len() == 1068);
    assert(after.subrange(1024, 1028) =~= ne_bytes(h.version));
    assert(after.subrange(1028, 1032) =~= ne_bytes(h.last_page));
    assert(after.subrange(1032, 1036) =~= ne_bytes(h.nr_badpages));
    assert(after.subrange(1036, 1052) =~= h.uuid);
    assert(after.subrange(1052, 1068) =~= h.label);
    assert(after.subrange(pagesize - 10, pagesize) =~= SWAP_SIGNATURE@);
}

/// In the first page of an area, everything between the label and the table of bad pages, and
/// between the table and the signature, is zero.
#[verifier::rlimit(40)]
pub proof fn law_rest_of_first_page_is_zero(area: AreaView, badpages: Seq<u32>)
    requires
        has_first_page(area, badpages),
    ensures
        ({
            let page = area.page(badpages);
            let size = area.plan.pagesize as int;
            &&& page.len() == size
            &&& forall|i: int| 1068 <= i < 1536 ==> #[trigger] page[i] == 0
            &&& forall|i: int|
                1536 + 4 * badpages.len() <= i < size - 10 ==> #[trigger] page[i] == 0
        }),
{
    let page = area.page(badpages);
    assert(page.len() == area.plan.pagesize);
}

/// The other builder sets a label as this one does.
pub proof fn law_other_label_is_set(h: swapheader::HeaderView, bytes: Seq<u8>)
    requires
        h.volume_name.len() == 16,
    ensures
        bytes.len() > 16 <==> h.with_label(bytes) == Err::<
            swapheader::HeaderView,
            swapheader::MkswapError,
        >(swapheader::MkswapError::TooLongLabel),
        bytes.len() <= 16 <==> h.with_label(bytes) is Ok,
        h.with_label(bytes) matches Ok(g) ==> {
            &&& g == (swapheader::HeaderView { volume_name: g.volume_name, ..h })
            &&& g.volume_name.len() == 16
            &&& forall|i: int| 0 <= i < bytes.len() ==> g.volume_name[i] == #[trigger] bytes[i]
            &&& forall|i: int|
                bytes.len() <= i < 16 ==> #[trigger] g.volume_name[i] == h.volume_name[i]
        },
{
}

/// The other builder sets the number of pages as this one does.
pub proof fn law_other_pages_are_set(h: swapheader::HeaderView, pages: u32)
    ensures
        pages < 10 <==> h.with_pages(pages) is Err,
        pages < 10 ==> h.with_pages(pages) == Err::<
            swapheader::HeaderView,
            swapheader::MkswapError,
        >(swapheader::MkswapError::TooFewPages { pages }),
        h.with_pages(pages) matches Ok(g) ==> g.last_page + 1 == pages && g == (
        swapheader::HeaderView { last_page: g.last_page, ..h }),
{
}

/// The other builder counts one bad page less than the list has, and none for an empty list; it
/// refuses more than the page can list.
pub proof fn law_other_bad_pages_are_counted(
    h: swapheader::HeaderView,
    len: nat,
    pagesize: int,
)
    requires
        1546 <= pagesize <= usize::MAX,
        len <= u32::MAX,
        pagesize <= 0x3_ffff_ffff,
    ensures
        len == 0 ==> listed_count(len) == 0,
        len > 0 ==> listed_count(len) + 1 == len,
        h.with_bad_pages(len, pagesize) is Ok <==> 1546 + 4 * listed_count(len) <= pagesize,
        h.with_bad_pages(len, pagesize) matches Ok(g) ==> g.nr_badpages == listed_count(len) && g
            == (swapheader::HeaderView { nr_badpages: g.nr_badpages, ..h }),
        h.with_bad_pages(len, pagesize) matches Err(e) ==> e matches
            swapheader::MkswapError::MaxBadPagesExceeded { bad_pages, max_badpages } && bad_pages
            + 1 == len && 1546 + 4 * max_badpages <= pagesize && pagesize < 1546 + 4 * (max_badpages
            + 1),
{
}

/// Beyond what 32 bits can count, the other builder counts by what is left of a number by a
/// power of two.
pub proof fn law_other_counts_have_32_bits(h: swapheader::HeaderView, len: nat, pagesize: int)
    requires
        1546 <= pagesize <= usize::MAX,
    ensures
        listed_count(len + 0x1_0000_0000) == listed_count(len),
        0 <= listed_count(len) < u32::MAX,
        h.with_bad_pages(len, pagesize) is Ok <==> listed_count(len) <= low_word(
            max_listed(pagesize),
        ),
        h.with_bad_pages(len, pagesize) matches Ok(g) ==> g == (swapheader::HeaderView {
            nr_badpages: listed_count(len) as u32,
            ..h
        }),
        h.with_bad_pages(len, pagesize) matches Err(e) ==> e == (
        swapheader::MkswapError::MaxBadPagesExceeded {
            bad_pages: listed_count(len) as usize,
            max_badpages: max_listed(pagesize) as usize,
        }),
{
    law_low_word(len as int);
}

} // verus!
