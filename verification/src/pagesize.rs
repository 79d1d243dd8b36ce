//! The page size of a swap area.

use vstd::arithmetic::power2::pow2;
use vstd::prelude::*;

use crate::error::{outcome, ErrorView, MkswapError};
use crate::header::{SWAP_HEADER_SIZE, SWAP_SIGNATURE_SZ};
use crate::text::{append_decimal, decimal, opt_text};

verus! {

/// A question to the system about its page size.
#[derive(Debug, Clone, Copy, PartialEq, Eq, Structural)]
pub enum PageSizeQuery {
    /// The value of `_SC_PAGESIZE`.
    PageSize,
    /// The value of the older `_SC_PAGE_SIZE`.
    PageSizeAlias,
}

/// What is known of the system's page size.
pub enum PageSizeAnswer {
    /// The page size.
    Known(usize),
    /// The system is to be asked this.
    Ask(PageSizeQuery),
    /// It cannot be found out.
    Failed(MkswapError),
}

/// A [`PageSizeAnswer`] as a mathematical value.
pub enum PageSizeView {
    Known(nat),
    Ask(PageSizeQuery),
    Failed(ErrorView),
}

impl View for PageSizeAnswer {
    type V = PageSizeView;

    open spec fn view(&self) -> PageSizeView {
        match *self {
            PageSizeAnswer::Known(size) => PageSizeView::Known(size as nat),
            PageSizeAnswer::Ask(query) => PageSizeView::Ask(query),
            PageSizeAnswer::Failed(e) => PageSizeView::Failed(e@),
        }
    }
}

/// What the reply `value` to a question tells of the page size.
pub open spec fn page_size_known(query: PageSizeQuery, value: i64) -> PageSizeView {
    if value <= 0 {
        match query {
            PageSizeQuery::PageSize => PageSizeView::Ask(PageSizeQuery::PageSizeAlias),
            PageSizeQuery::PageSizeAlias => PageSizeView::Failed(
                ErrorView::IoError {
                    msg: "Failed to determine page size, please check your system configuration"@,
                },
            ),
        }
    } else if value > usize::MAX {
        PageSizeView::Failed(
            ErrorView::IoError {
                msg: "Page size too large, max page size: "@ + decimal(usize::MAX as nat),
            },
        )
    } else {
        PageSizeView::Known(value as nat)
    }
}

/// Decides what the reply `value` to a question tells of the page size. The first question
/// is [`PageSizeQuery::PageSize`].
pub fn getpagesize(query: PageSizeQuery, value: i64) -> (r: PageSizeAnswer)
    ensures
        r@ == page_size_known(query, value),
{
    let mut msg: String = String::new();
    if value <= 0 {
        match query {
            PageSizeQuery::PageSize => PageSizeAnswer::Ask(PageSizeQuery::PageSizeAlias),
            PageSizeQuery::PageSizeAlias => {
                msg.append("Failed to determine page size, please check your system configuration");
                assert(msg@
                    =~= "Failed to determine page size, please check your system configuration"@);
                PageSizeAnswer::Failed(MkswapError::IoError { msg })
            },
        }
    } else if value as u64 > usize::MAX as u64 {
        msg.append("Page size too large, max page size: ");
        append_decimal(&mut msg, usize::MAX as u64);
        assert(msg@ =~= "Page size too large, max page size: "@ + decimal(usize::MAX as nat));
        PageSizeAnswer::Failed(MkswapError::IoError { msg })
    } else {
        PageSizeAnswer::Known(value as usize)
    }
}

/// `n` is a power of two.
pub open spec fn is_power_of_two(n: nat) -> bool {
    exists|k: nat| n == #[trigger] pow2(k)
}

/// `usize::is_power_of_two` of std.
pub assume_specification[ usize::is_power_of_two ](n: usize) -> (r: bool)
    ensures
        r == is_power_of_two(n as nat),
;

/// A page size that needs no force: a header and the signature fit, and it is a power of two.
pub open spec fn is_sound_page_size(size: nat) -> bool {
    size > SWAP_HEADER_SIZE + SWAP_SIGNATURE_SZ && is_power_of_two(size)
}

/// The page size of an area, and what to tell the user about it.
pub struct PageSizeChoice {
    /// The page size.
    pub size: usize,
    /// A notice for the user, where the size is not that of the system.
    pub notice: Option<String>,
}

/// A [`PageSizeChoice`] as a mathematical value.
pub struct ChoiceView {
    pub size: usize,
    pub notice: Option<Seq<char>>,
}

impl View for PageSizeChoice {
    type V = ChoiceView;

    open spec fn view(&self) -> ChoiceView {
        ChoiceView { size: self.size, notice: opt_text(self.notice) }
    }
}

/// The page size of an area: the one that was asked for, if it is sound or `force` is set, or
/// else that of the system.
pub open spec fn chosen_page_size(requested: Option<usize>, force: bool, system: usize) -> Result<
    ChoiceView,
    ErrorView,
> {
    match requested {
        None => Ok(ChoiceView { size: system, notice: None }),
        Some(size) => if !force && !is_sound_page_size(size as nat) {
            Err(
                ErrorView::UsageError {
                    msg: "Bad user-specified page size "@ + decimal(size as nat),
                },
            )
        } else if size == system {
            Ok(ChoiceView { size, notice: None })
        } else {
            Ok(
                ChoiceView {
                    size,
                    notice: Some(
                        "Using user-specified page size "@ + decimal(size as nat)
                            + ", instead of the system value "@ + decimal(system as nat),
                    ),
                },
            )
        },
    }
}

/// Chooses the page size of an area.
pub fn choose_page_size(requested: Option<usize>, force: bool, system: usize) -> (r: Result<
    PageSizeChoice,
    MkswapError,
>)
    ensures
        outcome(r) == chosen_page_size(requested, force, system),
        requested is None ==> (r matches Ok(choice) && choice.size == system && choice.notice
            is None),
        requested matches Some(size) ==> (r matches Ok(choice) ==> choice.size == size),
{
    match requested {
        None => Ok(PageSizeChoice { size: system, notice: None }),
        Some(size) => {
            let mut msg: String = String::new();
            if !force && (size <= SWAP_HEADER_SIZE + SWAP_SIGNATURE_SZ || !size.is_power_of_two()) {
                msg.append("Bad user-specified page size ");
                append_decimal(&mut msg, size as u64);
                assert(msg@ =~= "Bad user-specified page size "@ + decimal(size as nat));
                return Err(MkswapError::UsageError { msg });
            }
            if size == system {
                return Ok(PageSizeChoice { size, notice: None });
            }
            msg.append("Using user-specified page size ");
            append_decimal(&mut msg, size as u64);
            msg.append(", instead of the system value ");
            append_decimal(&mut msg, system as u64);
            assert(msg@ =~= "Using user-specified page size "@ + decimal(size as nat)
                + ", instead of the system value "@ + decimal(system as nat));
            Ok(PageSizeChoice { size, notice: Some(msg) })
        },
    }
}

} // verus!
