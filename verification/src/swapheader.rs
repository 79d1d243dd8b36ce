//! A builder for headers in native byte order, which takes its arguments by value.

use vstd::prelude::*;
use vstd::utf8::encode_utf8;

use crate::error::{MIN_SWAP_PAGES, SWAP_LABEL_LENGTH};
use crate::header::{low_word, truncated, written, zeros, SWAP_SIGNATURE_SZ, SWAP_VERSION};
use crate::text::{append_decimal, decimal};

verus! {

/// Why a header could not be built.
#[derive(Debug, Clone, Copy, PartialEq, Eq, Structural)]
pub enum MkswapError {
    /// The label does not fit in the header.
    TooLongLabel,
    /// The area has too few pages.
    TooFewPages { pages: u32 },
    /// The header has no room for that many bad pages.
    MaxBadPagesExceeded { bad_pages: usize, max_badpages: usize },
}

impl MkswapError {
    /// The message for the user.
    pub open spec fn message(self) -> Seq<char> {
        match self {
            MkswapError::TooLongLabel => "Label is too long, maximum size is "@ + decimal(
                SWAP_LABEL_LENGTH as nat,
            ) + " characters"@,
            MkswapError::TooFewPages { pages } => "Too few pages for a swap area ("@ + decimal(
                pages as nat,
            ) + "), minimum is "@ + decimal(MIN_SWAP_PAGES as nat),
            MkswapError::MaxBadPagesExceeded { bad_pages, max_badpages } =>
            "Too many bad pages detected: "@ + decimal(bad_pages as nat) + "/"@ + decimal(
                max_badpages as nat,
            ),
        }
    }

    /// The message for the user.
    pub fn to_string(&self) -> (r: String)
        ensures
            r@ == self.message(),
    {
        let mut out: String = String::new();
        match self {
            MkswapError::TooLongLabel => {
                out.append("Label is too long, maximum size is ");
                append_decimal(&mut out, SWAP_LABEL_LENGTH as u64);
                out.append(" characters");
            },
            MkswapError::TooFewPages { pages } => {
                out.append("Too few pages for a swap area (");
                append_decimal(&mut out, *pages as u64);
                out.append("), minimum is ");
                append_decimal(&mut out, MIN_SWAP_PAGES as u64);
            },
            MkswapError::MaxBadPagesExceeded { bad_pages, max_badpages } => {
                out.append("Too many bad pages detected: ");
                append_decimal(&mut out, *bad_pages as u64);
                out.append("/");
                append_decimal(&mut out, *max_badpages as u64);
            },
        }
        assert(out@ =~= self.message());
        out
    }
}

/// The header of a swap area.
pub struct SwapHeader {
    /// Left to boot loaders.
    pub bootbits: [i8; 1024],
    /// The version of the format.
    pub version: u32,
    /// The number of the area's last page.
    pub last_page: u32,
    /// The count of bad pages.
    pub nr_badpages: u32,
    /// The UUID of the area.
    pub uuid: [u8; 16],
    /// The label of the area, padded with zeros.
    pub volume_name: [u8; 16],
    /// Not used.
    pub padding: [u32; 117],
    /// The start of the table of bad pages.
    pub badpages: [u32; 1],
}

/// A [`SwapHeader`] as a mathematical value.
pub struct HeaderView {
    pub bootbits: Seq<i8>,
    pub version: u32,
    pub last_page: u32,
    pub nr_badpages: u32,
    pub uuid: Seq<u8>,
    pub volume_name: Seq<u8>,
    pub padding: Seq<u32>,
    pub badpages: Seq<u32>,
}

impl View for SwapHeader {
    type V = HeaderView;

    open spec fn view(&self) -> HeaderView {
        HeaderView {
            bootbits: self.bootbits@,
            version: self.version,
            last_page: self.last_page,
            nr_badpages: self.nr_badpages,
            uuid: self.uuid@,
            volume_name: self.volume_name@,
            padding: self.padding@,
            badpages: self.badpages@,
        }
    }
}

/// A header or an error as mathematical values.
pub open spec fn build_outcome(r: Result<SwapHeader, MkswapError>) -> Result<
    HeaderView,
    MkswapError,
> {
    match r {
        Ok(header) => Ok(header@),
        Err(e) => Err(e),
    }
}

/// The most bad pages that a page of `pagesize` bytes can list.
pub open spec fn max_listed(pagesize: int) -> int {
    (pagesize - 1024 - 120 * 4 - 32 - SWAP_SIGNATURE_SZ) / 4
}

/// The count of bad pages for a list of `len`: one less than the list has.
pub open spec fn listed_count(len: nat) -> int {
    if low_word(len as int) == 0 {
        0
    } else {
        low_word(len as int) - 1
    }
}

impl HeaderView {
    /// A header of which only the version is set.
    pub open spec fn blank() -> HeaderView {
        HeaderView {
            bootbits: Seq::new(1024, |i: int| 0i8),
            version: SWAP_VERSION,
            last_page: 0,
            nr_badpages: 0,
            uuid: zeros(16),
            volume_name: zeros(SWAP_LABEL_LENGTH as nat),
            padding: Seq::new(117, |i: int| 0u32),
            badpages: seq![0u32],
        }
    }

    /// The header with a label whose bytes are `bytes`.
    pub open spec fn with_label(self, bytes: Seq<u8>) -> Result<HeaderView, MkswapError> {
        if bytes.len() > SWAP_LABEL_LENGTH {
            Err(MkswapError::TooLongLabel)
        } else {
            Ok(HeaderView { volume_name: written(self.volume_name, 0, bytes), ..self })
        }
    }

    /// The header of an area of `pages` pages.
    pub open spec fn with_pages(self, pages: u32) -> Result<HeaderView, MkswapError> {
        if pages < MIN_SWAP_PAGES {
            Err(MkswapError::TooFewPages { pages })
        } else {
            Ok(HeaderView { last_page: (pages - 1) as u32, ..self })
        }
    }

    /// The header of an area with a list of `len` bad pages.
    pub open spec fn with_bad_pages(self, len: nat, pagesize: int) -> Result<
        HeaderView,
        MkswapError,
    > {
        if listed_count(len) > low_word(max_listed(pagesize)) {
            Err(
                MkswapError::MaxBadPagesExceeded {
                    bad_pages: listed_count(len) as usize,
                    max_badpages: max_listed(pagesize) as usize,
                },
            )
        } else {
            Ok(HeaderView { nr_badpages: listed_count(len) as u32, ..self })
        }
    }
}

impl SwapHeader {
    /// A header of which only the version is set.
    pub fn new() -> (r: Self)
        ensures
            r@ == HeaderView::blank(),
    {
        let r = SwapHeader {
            bootbits: [0;1024],
            version: SWAP_VERSION,
            last_page: 0,
            nr_badpages: 0,
            uuid: [0;16],
            volume_name: [0;16],
            padding: [0;117],
            badpages: [0],
        };
        assert(r.bootbits@ =~= HeaderView::blank().bootbits);
        assert(r.uuid@ =~= HeaderView::blank().uuid);
        assert(r.volume_name@ =~= HeaderView::blank().volume_name);
        assert(r.padding@ =~= HeaderView::blank().padding);
        assert(r.badpages@ =~= HeaderView::blank().badpages);
        r
    }

    /// Sets the label. Bytes of an earlier label that the new one does not cover stay.
    pub fn label(self, label: String) -> (r: Result<Self, MkswapError>)
        ensures
            build_outcome(r) == self@.with_label(encode_utf8(label@)),
    {
        let mut header = self;
        let bytes = label.as_str().as_bytes();
        if bytes.len() > SWAP_LABEL_LENGTH {
            return Err(MkswapError::TooLongLabel);
        }
        let mut i: usize = 0;
        while i < bytes.len()
            invariant
                i <= bytes@.len() <= SWAP_LABEL_LENGTH,
                header@ == (HeaderView { volume_name: header.volume_name@, ..self@ }),
                forall|j: int|
                    0 <= j < 16 ==> #[trigger] header.volume_name@[j] == if j < i {
                        bytes@[j]
                    } else {
                        self.volume_name@[j]
                    },
            decreases bytes@.len() - i,
        {
            header.volume_name[i] = bytes[i];
            i = i + 1;
        }
        assert(header.volume_name@ =~= written(self.volume_name@, 0, bytes@));
        Ok(header)
    }

    /// Sets the UUID.
    pub fn uuid(self, uuid: [u8; 16]) -> (r: Self)
        ensures
            r@ == (HeaderView { uuid: uuid@, ..self@ }),
    {
        let mut header = self;
        header.uuid = uuid;
        header
    }

    /// Sets the number of pages.
    pub fn pages(self, pages: u32) -> (r: Result<Self, MkswapError>)
        ensures
            build_outcome(r) == self@.with_pages(pages),
    {
        if pages < MIN_SWAP_PAGES {
            return Err(MkswapError::TooFewPages { pages });
        }
        let mut header = self;
        header.last_page = pages - 1;
        Ok(header)
    }

    /// Sets the count of bad pages.
    pub fn bad_pages(self, badpages: Vec<u32>, pagesize: usize) -> (r: Result<Self, MkswapError>)
        requires
            pagesize >= 1024 + 120 * 4 + 32 + SWAP_SIGNATURE_SZ,
        ensures
            build_outcome(r) == self@.with_bad_pages(badpages@.len(), pagesize as int),
    {
        let count: u32 = truncated(badpages.len()).saturating_sub(1);
        // the most bad pages that can be listed behind the boot bits, the version, the last
        // page, the padding, the UUID and the label
        let max_badpages: usize = (pagesize - 1024 - 120 * 4 - 32 - SWAP_SIGNATURE_SZ) / 4;
        if count > truncated(max_badpages) {
            return Err(
                MkswapError::MaxBadPagesExceeded { bad_pages: count as usize, max_badpages },
            );
        }
        let mut header = self;
        header.nr_badpages = count;
        Ok(header)
    }
}

} // verus!
