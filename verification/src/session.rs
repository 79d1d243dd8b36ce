//! Setting up a swap area, one operation of the system after the other.
//!
//! A [`Session`] says which operation is to be performed; the [`Reply`] to it leads to the next
//! one, or to the end.

use vstd::prelude::*;

use crate::area::{
    min_swapsize, plan_of, Area, AreaView, ImageView, Plan, PlanView, SizeSource, SwapImage,
};
use crate::device::{
    get_blockdev_size, open_device, open_device_step, open_step, parse_blockdev_size, reply_view,
    size_in_line, sysfs_path, BlockSize, OpenOperation, OpenProgress, OpenView,
};
use crate::error::{ErrorView, MkswapError, MIN_SWAP_PAGES};
use crate::header::{BADPAGES_OFFSET, SWAP_SIGNATURE_SZ};
use crate::mkswap::{Request, RequestView};
use crate::pagesize::{
    choose_page_size, chosen_page_size, getpagesize, page_size_known, PageSizeAnswer,
    PageSizeQuery, PageSizeView,
};
use crate::scan::{PageScan, ScanView};
use crate::text::opt_text;

verus! {

/// Where setting up a swap area stands: the operation that is to be performed next.
pub enum Session {
    /// The system is to be asked for its page size. The reply is a number.
    AskingPageSize { request: Request, query: PageSizeQuery },
    /// An operation that opens the device is to be performed. The reply is a number, 0 where
    /// the operation has no result, or an error.
    Opening { plan: Plan, op: OpenOperation },
    /// The metadata of the device is to be read. The reply is the metadata or an error.
    Examining { plan: Plan },
    /// The block device is to be asked for its size. The reply is a block size.
    AskingBlockSize { plan: Plan },
    /// The first line of a file is to be read. The reply is the line, empty where the file is,
    /// or an error.
    ReadingSizeFile { plan: Plan, path: String },
    /// A page is to be read. The reply is the count of bytes that came, negative for a failure.
    Checking { area: Area, scan: PageScan },
    /// The image is to be written, and the device to be synchronised. The reply is a number or
    /// an error.
    Writing { image: SwapImage },
}

/// A [`Session`] as a mathematical value.
pub enum SessionView {
    AskingPageSize { request: RequestView, query: PageSizeQuery },
    Opening { plan: PlanView, op: OpenOperation },
    Examining { plan: PlanView },
    AskingBlockSize { plan: PlanView },
    ReadingSizeFile { plan: PlanView, path: Seq<char> },
    Checking { area: AreaView, scan: ScanView },
    Writing { image: ImageView },
}

impl View for Session {
    type V = SessionView;

    open spec fn view(&self) -> SessionView {
        match *self {
            Session::AskingPageSize { request, query } => SessionView::AskingPageSize {
                request: request@,
                query,
            },
            Session::Opening { plan, op } => SessionView::Opening { plan: plan@, op },
            Session::Examining { plan } => SessionView::Examining { plan: plan@ },
            Session::AskingBlockSize { plan } => SessionView::AskingBlockSize { plan: plan@ },
            Session::ReadingSizeFile { plan, path } => SessionView::ReadingSizeFile {
                plan: plan@,
                path: path@,
            },
            Session::Checking { area, scan } => SessionView::Checking { area: area@, scan: scan@ },
            Session::Writing { image } => SessionView::Writing { image: image@ },
        }
    }
}

/// The reply to an operation.
pub enum Reply {
    /// It was performed, with this result.
    Number(i64),
    /// It failed, with this message.
    Error(String),
    /// The owner of the device, the user of the program, whether the device is a block device,
    /// and its size.
    Metadata { owner: u32, user: u32, is_block_device: bool, size: u64 },
    /// The status with which the block device was asked for its size, negative for a failure,
    /// and the size.
    BlockSize { status: i32, size: u64 },
    /// A line of a file.
    Line(String),
    /// How many bytes were read, negative for a failure.
    Count(isize),
}

/// A [`Reply`] as a mathematical value.
pub enum ReplyView {
    Number(i64),
    Error(Seq<char>),
    Metadata { owner: u32, user: u32, is_block_device: bool, size: u64 },
    BlockSize { status: i32, size: u64 },
    Line(Seq<char>),
    Count(isize),
}

impl View for Reply {
    type V = ReplyView;

    open spec fn view(&self) -> ReplyView {
        match *self {
            Reply::Number(n) => ReplyView::Number(n),
            Reply::Error(text) => ReplyView::Error(text@),
            Reply::Metadata { owner, user, is_block_device, size } => ReplyView::Metadata {
                owner,
                user,
                is_block_device,
                size,
            },
            Reply::BlockSize { status, size } => ReplyView::BlockSize { status, size },
            Reply::Line(line) => ReplyView::Line(line@),
            Reply::Count(count) => ReplyView::Count(count),
        }
    }
}

/// What follows a reply.
pub enum Progress {
    /// Another operation.
    Continue(Session),
    /// The end: the area is set up. The text is for the user.
    Finished(String),
    /// The end: the area is not set up.
    Failed(MkswapError),
}

/// A [`Progress`] as a mathematical value.
pub enum ProgressView {
    Continue(SessionView),
    Finished(Seq<char>),
    Failed(ErrorView),
}

impl View for Progress {
    type V = ProgressView;

    open spec fn view(&self) -> ProgressView {
        match *self {
            Progress::Continue(session) => ProgressView::Continue(session@),
            Progress::Finished(summary) => ProgressView::Finished(summary@),
            Progress::Failed(e) => ProgressView::Failed(e@),
        }
    }
}

/// What follows a reply, and what to tell the user first.
pub struct Step {
    /// A notice for the user.
    pub notice: Option<String>,
    /// What follows.
    pub next: Progress,
}

/// A [`Step`] as a mathematical value.
pub struct StepView {
    pub notice: Option<Seq<char>>,
    pub next: ProgressView,
}

impl View for Step {
    type V = StepView;

    open spec fn view(&self) -> StepView {
        StepView { notice: opt_text(self.notice), next: self.next@ }
    }
}

/// What follows once the bad pages of an area are known.
pub open spec fn after_check(area: AreaView, badpages: Seq<u32>) -> ProgressView {
    match area.image(badpages) {
        Ok(image) => ProgressView::Continue(SessionView::Writing { image }),
        Err(e) => ProgressView::Failed(e),
    }
}

/// What follows once the size of the device is known.
pub open spec fn after_size(plan: PlanView, devsize: u64) -> ProgressView {
    match plan.area(devsize) {
        Err(e) => ProgressView::Failed(e),
        Ok(area) => {
            let r = plan.request;
            let scan = ScanView::start(plan.pagesize, area.pages, r.offset, r.verbose);
            if r.check && scan.pending() {
                ProgressView::Continue(SessionView::Checking { area, scan })
            } else {
                after_check(area, Seq::empty())
            }
        },
    }
}

/// The pages of the area on a device of `devsize` bytes can be handled: they are not empty,
/// and one of them fits in memory and is large enough for a header, as far as that matters.
pub open spec fn size_fits(plan: PlanView, devsize: u64) -> bool {
    &&& plan.pagesize > 0
    &&& plan.area(devsize) matches Ok(area) ==> if plan.request.check {
        plan.pagesize <= isize::MAX
    } else {
        area.page_fits()
    }
}

impl SessionView {
    /// The parts of a session go together.
    pub open spec fn wf(self) -> bool {
        match self {
            SessionView::AskingPageSize { request, .. } => request.wf(),
            SessionView::Opening { plan, .. } => plan.request.wf(),
            SessionView::Examining { plan } => plan.request.wf(),
            SessionView::AskingBlockSize { plan } => plan.request.wf(),
            SessionView::ReadingSizeFile { plan, .. } => plan.request.wf(),
            SessionView::Checking { area, scan } => {
                &&& area.wf()
                &&& scan.wf()
                &&& scan.pending()
                &&& scan.pagesize == area.plan.pagesize
                &&& scan.pages == area.pages
                &&& scan.offset == area.plan.request.offset
                &&& scan.verbose == area.plan.request.verbose
            },
            SessionView::Writing { .. } => true,
        }
    }

    /// The reply is one to the operation of the session.
    pub open spec fn expects(self, reply: ReplyView) -> bool {
        match self {
            SessionView::AskingPageSize { .. } => reply is Number,
            SessionView::Opening { .. } => reply is Number || reply is Error,
            SessionView::Examining { .. } => reply is Metadata || reply is Error,
            SessionView::AskingBlockSize { .. } => reply is BlockSize,
            SessionView::ReadingSizeFile { .. } => reply is Line || reply is Error,
            SessionView::Checking { .. } => reply is Count,
            SessionView::Writing { .. } => reply is Number || reply is Error,
        }
    }

    /// The reply is one to the operation of the session, and the pages can be handled, as far
    /// as that matters for what follows.
    pub open spec fn accepts(self, reply: ReplyView) -> bool {
        self.expects(reply) && self.fits(reply)
    }

    /// The pages can be handled, as far as that matters for what follows the reply.
    pub open spec fn fits(self, reply: ReplyView) -> bool {
        match (self, reply) {
            (
                SessionView::Examining { plan },
                ReplyView::Metadata { is_block_device, size, .. },
            ) => {
                match plan.size_source(is_block_device, size) {
                    SizeSource::Known(devsize) => size_fits(plan, devsize),
                    SizeSource::BlockDevice => true,
                }
            },
            (SessionView::AskingBlockSize { plan }, ReplyView::BlockSize { status, size }) => {
                size == 0 || status < 0 || size_fits(plan, size)
            },
            (SessionView::ReadingSizeFile { plan, .. }, ReplyView::Line(line)) => {
                size_in_line(plan.request.devname, line) matches Ok(devsize) ==> size_fits(
                    plan,
                    devsize,
                )
            },
            (SessionView::Checking { area, scan }, ReplyView::Count(count)) => {
                scan.recorded(count).pending() || area.page_fits()
            },
            _ => true,
        }
    }

    /// What follows a reply to the operation of the session.
    pub open spec fn step(self, reply: ReplyView) -> StepView {
        match (self, reply) {
            (SessionView::AskingPageSize { request, query }, ReplyView::Number(value)) => {
                match page_size_known(query, value) {
                    PageSizeView::Ask(query) => silently(
                        ProgressView::Continue(SessionView::AskingPageSize { request, query }),
                    ),
                    PageSizeView::Failed(e) => silently(ProgressView::Failed(e)),
                    PageSizeView::Known(system) => match chosen_page_size(
                        request.pagesize,
                        request.force,
                        system as usize,
                    ) {
                        Err(e) => silently(ProgressView::Failed(e)),
                        Ok(choice) => StepView {
                            notice: choice.notice,
                            next: match plan_of(request, choice.size) {
                                Err(e) => ProgressView::Failed(e),
                                Ok(plan) => ProgressView::Continue(
                                    SessionView::Opening {
                                        plan,
                                        op: OpenOperation::Open { create: request.create },
                                    },
                                ),
                            },
                        },
                    },
                }
            },
            (SessionView::Opening { plan, op }, ReplyView::Number(value)) => after_open(
                plan,
                open_step(plan.request.devname, plan.request.filesize, op, Ok(value)),
            ),
            (SessionView::Opening { plan, op }, ReplyView::Error(text)) => after_open(
                plan,
                open_step(plan.request.devname, plan.request.filesize, op, Err(text)),
            ),
            (
                SessionView::Examining { plan },
                ReplyView::Metadata { owner, user, is_block_device, size },
            ) => StepView {
                notice: plan.owner_warning(owner, user),
                next: match plan.size_source(is_block_device, size) {
                    SizeSource::Known(devsize) => after_size(plan, devsize),
                    SizeSource::BlockDevice => ProgressView::Continue(
                        SessionView::AskingBlockSize { plan },
                    ),
                },
            },
            (SessionView::AskingBlockSize { plan }, ReplyView::BlockSize { status, size }) => {
                silently(
                    if size == 0 || status < 0 {
                        ProgressView::Continue(
                            SessionView::ReadingSizeFile {
                                plan,
                                path: sysfs_path(plan.request.devname),
                            },
                        )
                    } else {
                        after_size(plan, size)
                    },
                )
            },
            (SessionView::ReadingSizeFile { plan, .. }, ReplyView::Line(line)) => silently(
                match size_in_line(plan.request.devname, line) {
                    Ok(devsize) => after_size(plan, devsize),
                    Err(e) => ProgressView::Failed(e),
                },
            ),
            (SessionView::Checking { area, scan }, ReplyView::Count(count)) => StepView {
                notice: scan.report(count),
                next: {
                    let scan = scan.recorded(count);
                    if scan.pending() {
                        ProgressView::Continue(SessionView::Checking { area, scan })
                    } else {
                        after_check(area, scan.badpages)
                    }
                },
            },
            (SessionView::Writing { image }, ReplyView::Number(_)) => silently(
                ProgressView::Finished(image.summary),
            ),
            (_, ReplyView::Error(text)) => silently(
                ProgressView::Failed(ErrorView::IoError { msg: text }),
            ),
            _ => silently(ProgressView::Continue(self)),
        }
    }
}

/// A step without a notice.
pub open spec fn silently(next: ProgressView) -> StepView {
    StepView { notice: None, next }
}

/// What follows a reply while the device is opened.
pub open spec fn after_open(plan: PlanView, progress: OpenView) -> StepView {
    silently(
        match progress {
            OpenView::Next(op) => ProgressView::Continue(SessionView::Opening { plan, op }),
            OpenView::Opened => ProgressView::Continue(SessionView::Examining { plan }),
            OpenView::Failed(e) => ProgressView::Failed(e),
        },
    )
}

impl Request {
    /// Starts to set up the area: the system is asked for its page size.
    pub fn begin(self) -> (r: Session)
        requires
            self@.wf(),
        ensures
            r@ == (SessionView::AskingPageSize {
                request: self@,
                query: PageSizeQuery::PageSize,
            }),
            r@.wf(),
    {
        Session::AskingPageSize { request: self, query: PageSizeQuery::PageSize }
    }
}

/// Tells whether the pages of the area on a device of `devsize` bytes can be handled.
fn fits_size(plan: &Plan, devsize: u64) -> (r: bool)
    ensures
        r == size_fits(plan@, devsize),
{
    let pagesize: usize = plan.pagesize;
    if pagesize == 0 {
        return false;
    }
    let swapsize: u64 = devsize.saturating_sub(plan.request.offset);
    if swapsize < min_swapsize(pagesize) {
        return true;
    }
    let pages: u64 = swapsize / pagesize as u64;
    if pages > u32::MAX as u64 {
        return true;
    }
    if plan.request.check {
        pagesize <= isize::MAX as usize
    } else {
        fits_page(pages as u32, pagesize)
    }
}

/// Tells whether a header fits in a page, and a page in memory, unless there are too few pages
/// anyway.
fn fits_page(pages: u32, pagesize: usize) -> (r: bool)
    ensures
        r == (pages >= MIN_SWAP_PAGES ==> BADPAGES_OFFSET + SWAP_SIGNATURE_SZ <= pagesize
            <= isize::MAX),
{
    pages < MIN_SWAP_PAGES || (BADPAGES_OFFSET + SWAP_SIGNATURE_SZ <= pagesize && pagesize
        <= isize::MAX as usize)
}

/// Decides what follows once the bad pages of an area are known.
fn checked(area: &Area, badpages: &[u32]) -> (r: Progress)
    requires
        area@.wf(),
        area@.page_fits(),
    ensures
        r@ == after_check(area@, badpages@),
        r matches Progress::Continue(session) ==> session@.wf(),
{
    match area.image(badpages) {
        Ok(image) => Progress::Continue(Session::Writing { image }),
        Err(e) => Progress::Failed(e),
    }
}

/// Decides what follows once the size of the device is known.
fn measured(plan: Plan, devsize: u64) -> (r: Progress)
    requires
        plan@.request.wf(),
        size_fits(plan@, devsize),
    ensures
        r@ == after_size(plan@, devsize),
        r matches Progress::Continue(session) ==> session@.wf(),
{
    let area = match plan.area(devsize) {
        Ok(area) => area,
        Err(e) => return Progress::Failed(e),
    };
    if area.plan.request.check {
        if let Some(scan) = area.start_check() {
            if scan.is_pending() {
                return Progress::Continue(Session::Checking { area, scan });
            }
        }
    }
    let none: Vec<u32> = Vec::new();
    assert(none@ =~= Seq::<u32>::empty());
    checked(&area, &none)
}

/// Decides what follows a reply while the device is opened.
fn opened(plan: Plan, op: OpenOperation, reply: Result<i64, String>) -> (r: Step)
    requires
        plan@.request.wf(),
    ensures
        r@ == after_open(
            plan@,
            open_step(plan@.request.devname, plan@.request.filesize, op, reply_view(reply)),
        ),
        r.next matches Progress::Continue(session) ==> session@.wf(),
{
    let next = match open_device_step(
        plan.request.devname.as_str(),
        plan.request.filesize,
        op,
        reply,
    ) {
        OpenProgress::Next(op) => Progress::Continue(Session::Opening { plan, op }),
        OpenProgress::Opened => Progress::Continue(Session::Examining { plan }),
        OpenProgress::Failed(e) => Progress::Failed(e),
    };
    Step { notice: None, next }
}

/// Decides what follows a reply about the page size of the system.
fn page_size_told(request: Request, query: PageSizeQuery, value: i64) -> (r: Step)
    requires
        request@.wf(),
    ensures
        r@ == (SessionView::AskingPageSize { request: request@, query }).step(
            ReplyView::Number(value),
        ),
        r.next matches Progress::Continue(session) ==> session@.wf(),
{
    let system: usize = match getpagesize(query, value) {
        PageSizeAnswer::Known(size) => size,
        PageSizeAnswer::Ask(query) => {
            return Step {
                notice: None,
                next: Progress::Continue(Session::AskingPageSize { request, query }),
            };
        },
        PageSizeAnswer::Failed(e) => return Step { notice: None, next: Progress::Failed(e) },
    };
    let choice = match choose_page_size(request.pagesize, request.force, system) {
        Ok(choice) => choice,
        Err(e) => return Step { notice: None, next: Progress::Failed(e) },
    };
    let next = match request.plan(choice.size) {
        Ok(plan) => {
            let op = open_device(plan.request.create);
            Progress::Continue(Session::Opening { plan, op })
        },
        Err(e) => Progress::Failed(e),
    };
    Step { notice: choice.notice, next }
}

impl Session {
    /// Tells whether the reply is one to the operation of the session, and whether the pages
    /// can be handled, as far as that matters for what follows.
    pub fn is_accepted(&self, reply: &Reply) -> (r: bool)
        requires
            self@.wf(),
        ensures
            r == self@.accepts(reply@),
    {
        match (self, reply) {
            (Session::AskingPageSize { .. }, Reply::Number(_)) => true,
            (Session::Opening { .. }, Reply::Number(_)) => true,
            (Session::Opening { .. }, Reply::Error(_)) => true,
            (
                Session::Examining { plan },
                Reply::Metadata { is_block_device, size, .. },
            ) => match plan.size_source(*is_block_device, *size) {
                SizeSource::Known(devsize) => fits_size(plan, devsize),
                SizeSource::BlockDevice => true,
            },
            (Session::Examining { .. }, Reply::Error(_)) => true,
            (Session::AskingBlockSize { plan }, Reply::BlockSize { status, size }) => {
                *size == 0 || *status < 0 || fits_size(plan, *size)
            },
            (Session::ReadingSizeFile { plan, .. }, Reply::Line(line)) => {
                match parse_blockdev_size(plan.request.devname.as_str(), line.as_str()) {
                    Ok(devsize) => fits_size(plan, devsize),
                    Err(_) => true,
                }
            },
            (Session::ReadingSizeFile { .. }, Reply::Error(_)) => true,
            (Session::Checking { area, scan }, Reply::Count(_)) => {
                scan.next + 1 < scan.pages || fits_page(
                    area.pages,
                    area.plan.pagesize,
                )
            },
            (Session::Writing { .. }, Reply::Number(_)) => true,
            (Session::Writing { .. }, Reply::Error(_)) => true,
            _ => false,
        }
    }

    /// Decides what follows a reply to the operation of the session.
    pub fn step(self, reply: Reply) -> (r: Step)
        requires
            self@.wf(),
            self@.accepts(reply@),
        ensures
            r@ == self@.step(reply@),
            r.next matches Progress::Continue(session) ==> session@.wf(),
    {
        match (self, reply) {
            (Session::AskingPageSize { request, query }, Reply::Number(value)) => {
                page_size_told(request, query, value)
            },
            (Session::Opening { plan, op }, Reply::Number(value)) => opened(plan, op, Ok(value)),
            (Session::Opening { plan, op }, Reply::Error(text)) => opened(plan, op, Err(text)),
            (
                Session::Examining { plan },
                Reply::Metadata { owner, user, is_block_device, size },
            ) => {
                let notice = plan.owner_warning(owner, user);
                let next = match plan.size_source(is_block_device, size) {
                    SizeSource::Known(devsize) => measured(plan, devsize),
                    SizeSource::BlockDevice => Progress::Continue(
                        Session::AskingBlockSize { plan },
                    ),
                };
                Step { notice, next }
            },
            (Session::AskingBlockSize { plan }, Reply::BlockSize { status, size }) => {
                let next = match get_blockdev_size(plan.request.devname.as_str(), status, size) {
                    BlockSize::Known(devsize) => measured(plan, devsize),
                    BlockSize::InFile(path) => Progress::Continue(
                        Session::ReadingSizeFile { plan, path },
                    ),
                };
                Step { notice: None, next }
            },
            (Session::ReadingSizeFile { plan, .. }, Reply::Line(line)) => {
                let next = match parse_blockdev_size(
                    plan.request.devname.as_str(),
                    line.as_str(),
                ) {
                    Ok(devsize) => measured(plan, devsize),
                    Err(e) => Progress::Failed(e),
                };
                Step { notice: None, next }
            },
            (Session::Checking { area, scan }, Reply::Count(count)) => {
                let mut scan = scan;
                let notice = scan.record(count);
                let next = if scan.is_pending() {
                    Progress::Continue(Session::Checking { area, scan })
                } else {
                    checked(&area, &scan.badpages)
                };
                Step { notice, next }
            },
            (Session::Writing { image }, Reply::Number(_)) => Step {
                notice: None,
                next: Progress::Finished(image.summary),
            },
            (_, Reply::Error(text)) => Step {
                notice: None,
                next: Progress::Failed(MkswapError::IoError { msg: text }),
            },
            (session, _) => Step { notice: None, next: Progress::Continue(session) },
        }
    }
}

} // verus!
