//! What can go wrong while a swap area is set up.

use vstd::prelude::*;

use crate::text::{append_decimal, decimal};

verus! {

/// The longest label of a swap area, in bytes.
pub const SWAP_LABEL_LENGTH: usize = 16;

/// The fewest pages that make a swap area.
pub const MIN_SWAP_PAGES: u32 = 10;

/// Why no swap area was set up.
#[derive(Debug, Clone)]
pub enum MkswapError {
    /// The label does not fit in the header.
    TooLongLabel,
    /// The area has too few pages.
    TooFewPages { pages: u32 },
    /// The header has no room for that many bad pages.
    MaxBadPagesExceeded { max_badpages: usize },
    /// The device or file is too small.
    SwapAreaTooSmall { min_swapsize: u64 },
    /// The system refused an operation.
    IoError { msg: String },
    /// The request makes no sense.
    UsageError { msg: String },
}

/// A [`MkswapError`] as a mathematical value.
pub enum ErrorView {
    TooLongLabel,
    TooFewPages { pages: nat },
    MaxBadPagesExceeded { max_badpages: nat },
    SwapAreaTooSmall { min_swapsize: nat },
    IoError { msg: Seq<char> },
    UsageError { msg: Seq<char> },
}

impl View for MkswapError {
    type V = ErrorView;

    open spec fn view(&self) -> ErrorView {
        match *self {
            MkswapError::TooLongLabel => ErrorView::TooLongLabel,
            MkswapError::TooFewPages { pages } => ErrorView::TooFewPages { pages: pages as nat },
            MkswapError::MaxBadPagesExceeded { max_badpages } => ErrorView::MaxBadPagesExceeded {
                max_badpages: max_badpages as nat,
            },
            MkswapError::SwapAreaTooSmall { min_swapsize } => ErrorView::SwapAreaTooSmall {
                min_swapsize: min_swapsize as nat,
            },
            MkswapError::IoError { msg } => ErrorView::IoError { msg: msg@ },
            MkswapError::UsageError { msg } => ErrorView::UsageError { msg: msg@ },
        }
    }
}

impl ErrorView {
    /// The message for the user.
    pub open spec fn message(self) -> Seq<char> {
        match self {
            ErrorView::TooLongLabel => "Label is too long, maximum size is "@ + decimal(
                SWAP_LABEL_LENGTH as nat,
            ) + " characters"@,
            ErrorView::TooFewPages { pages } => "Too few pages for a swap area ("@ + decimal(pages)
                + "), minimum is "@ + decimal(MIN_SWAP_PAGES as nat),
            ErrorView::MaxBadPagesExceeded { max_badpages } => "Too many bad pages: "@ + decimal(
                max_badpages,
            ),
            ErrorView::SwapAreaTooSmall { min_swapsize } => "Swap area needs to be at least "@
                + decimal(min_swapsize / 1024) + " KiB"@,
            ErrorView::IoError { msg } => msg,
            ErrorView::UsageError { msg } => msg,
        }
    }
}

/// A result as a mathematical value.
pub open spec fn outcome<T: View>(r: Result<T, MkswapError>) -> Result<T::V, ErrorView> {
    match r {
        Ok(v) => Ok(v@),
        Err(e) => Err(e@),
    }
}

impl MkswapError {
    /// The message for the user.
    pub fn to_string(&self) -> (r: String)
        ensures
            r@ == self@.message(),
    {
        let mut out: String = String::new();
        match self {
            MkswapError::TooLongLabel => {
                out.append("Label is too long, maximum size is ");
                append_decimal(&mut out, SWAP_LABEL_LENGTH as u64);
                out.append(" characters");
            },
            MkswapError::TooFewPages { pages } => {
                out.append("Too few pages for a swap area (");
                append_decimal(&mut out, *pages as u64);
                out.append("), minimum is ");
                append_decimal(&mut out, MIN_SWAP_PAGES as u64);
            },
            MkswapError::MaxBadPagesExceeded { max_badpages } => {
                out.append("Too many bad pages: ");
                append_decimal(&mut out, *max_badpages as u64);
            },
            MkswapError::SwapAreaTooSmall { min_swapsize } => {
                out.append("Swap area needs to be at least ");
                append_decimal(&mut out, *min_swapsize / 1024);
                out.append(" KiB");
            },
            MkswapError::IoError { msg } => {
                out.append(msg.as_str());
            },
            MkswapError::UsageError { msg } => {
                out.append(msg.as_str());
            },
        }
        assert(out@ =~= self@.message());
        out
    }
}

} // verus!
