//! What holds of single steps: which reply is taken, what follows, and what the user is told.

use vstd::prelude::*;

use crate::area::{plan_of, AreaView, PlanView, SizeSource};
use crate::device::{open_step, size_in_line, OpenOperation, OpenView};
use crate::error::ErrorView;
use crate::mkswap::RequestView;
use crate::pagesize::{chosen_page_size, page_size_known, PageSizeQuery, PageSizeView};
use crate::scan::ScanView;
use crate::session::{
    after_check, after_size, size_fits, ProgressView, ReplyView, SessionView,
};

verus! {

/// Opening takes one operation after the other: a file that is created gets the permissions of a
/// swap file, on btrfs the flag against copy-on-write, and all of its size allocated.
pub proof fn law_operations_of_opening(
    devname: Seq<char>,
    filesize: u64,
    op: OpenOperation,
    value: i64,
    text: Seq<char>,
)
    ensures
        ({
            let next = open_step(devname, filesize, op, Ok(value));
            let failed = open_step(devname, filesize, op, Err(text));
            let all = OpenView::Next(OpenOperation::Allocate { len: filesize as i64 });
            &&& filesize <= i64::MAX ==> filesize as i64 == filesize
            &&& match op {
                OpenOperation::Open { create: false } => next == OpenView::Opened,
                OpenOperation::Open { create: true } => next == OpenView::Next(
                    OpenOperation::SetPermissions { mode: 0o600 },
                ),
                OpenOperation::SetPermissions { .. } => next == OpenView::Next(
                    OpenOperation::QueryFilesystem,
                ),
                OpenOperation::QueryFilesystem => if value == 0x9123683e {
                    next == OpenView::Next(OpenOperation::ReadFlags)
                } else {
                    next == all
                },
                OpenOperation::ReadFlags => next == OpenView::Next(
                    OpenOperation::WriteFlags { flags: value as i32 | 0x800000 },
                ),
                OpenOperation::WriteFlags { .. } => next == all,
                OpenOperation::Allocate { .. } => next == OpenView::Opened,
            }
            &&& match op {
                OpenOperation::Open { .. } => failed == OpenView::Failed(
                    ErrorView::IoError { msg: "failed to open "@ + devname + ": "@ + text },
                ),
                OpenOperation::Allocate { .. } => failed == OpenView::Opened,
                _ => failed == OpenView::Failed(ErrorView::IoError { msg: text }),
            }
        }),
{
}

/// The size of a device can be worked with: its pages are not empty, and where an area comes of
/// it, a page fits in memory, and, where it is to be written at once, has room for a header.
pub proof fn law_workable_sizes(plan: PlanView, devsize: u64)
    ensures
        size_fits(plan, devsize) <==> {
            &&& plan.pagesize > 0
            &&& plan.area(devsize) matches Ok(area) ==> if plan.request.check {
                plan.pagesize <= isize::MAX
            } else {
                area.pages < 10 || (1546 <= plan.pagesize && plan.pagesize <= isize::MAX)
            }
        },
{
}

/// A session takes the replies to its operation, and no others; it leaves out only sizes that it
/// cannot work with.
pub proof fn law_replies_that_are_taken(session: SessionView, reply: ReplyView)
    ensures
        session.accepts(reply) <==> match session {
            SessionView::AskingPageSize { .. } => reply is Number,
            SessionView::Opening { .. } => reply is Number || reply is Error,
            SessionView::Examining { plan } => match reply {
                ReplyView::Error(_) => true,
                ReplyView::Metadata { is_block_device, size, .. } => if plan.request.create {
                    size_fits(plan, plan.request.filesize)
                } else {
                    is_block_device || size_fits(plan, size)
                },
                _ => false,
            },
            SessionView::AskingBlockSize { plan } => match reply {
                ReplyView::BlockSize { status, size } => size > 0 && status >= 0 ==> size_fits(
                    plan,
                    size,
                ),
                _ => false,
            },
            SessionView::ReadingSizeFile { plan, .. } => match reply {
                ReplyView::Error(_) => true,
                ReplyView::Line(line) => match size_in_line(plan.request.devname, line) {
                    Ok(size) => size_fits(plan, size),
                    Err(_) => true,
                },
                _ => false,
            },
            SessionView::Checking { area, scan } => match reply {
                ReplyView::Count(count) => scan.recorded(count).pending() || area.page_fits(),
                _ => false,
            },
            SessionView::Writing { .. } => reply is Number || reply is Error,
        },
{
}

/// What the system tells of its page size leads to the second question, to the error that it
/// comes to, or to opening, with a plan for the page size that was chosen. The user is told what
/// the choice tells, and nothing else.
pub proof fn law_page_size_leads_on(request: RequestView, query: PageSizeQuery, value: i64)
    ensures
        ({
            let session = SessionView::AskingPageSize { request, query };
            let step = session.step(ReplyView::Number(value));
            let known = page_size_known(query, value);
            &&& known matches PageSizeView::Ask(second) ==> step.notice is None && step.next
                == ProgressView::Continue(SessionView::AskingPageSize { request, query: second })
            &&& known matches PageSizeView::Failed(e) ==> step.notice is None && step.next
                == ProgressView::Failed(e)
            &&& known matches PageSizeView::Known(system) ==> {
                let choice = chosen_page_size(request.pagesize, request.force, system as usize);
                &&& choice matches Err(e) ==> step.notice is None && step.next
                    == ProgressView::Failed(e)
                &&& choice matches Ok(c) ==> {
                    &&& step.notice == c.notice
                    &&& plan_of(request, c.size) matches Err(e) ==> step.next
                        == ProgressView::Failed(e)
                    &&& plan_of(request, c.size) matches Ok(plan) ==> step.next
                        == ProgressView::Continue(
                        SessionView::Opening {
                            plan,
                            op: OpenOperation::Open { create: request.create },
                        },
                    )
                }
            }
        }),
{
}

/// While a device is opened, each reply leads to the next operation of opening, to its end or to
/// its error, and the user is told nothing.
pub proof fn law_opening_leads_on(plan: PlanView, op: OpenOperation, value: i64, text: Seq<char>)
    ensures
        ({
            let session = SessionView::Opening { plan, op };
            let devname = plan.request.devname;
            let size = plan.request.filesize;
            &&& session.step(ReplyView::Number(value)).notice is None
            &&& session.step(ReplyView::Error(text)).notice is None
            &&& follows(
                plan,
                open_step(devname, size, op, Ok(value)),
                session.step(ReplyView::Number(value)).next,
            )
            &&& follows(
                plan,
                open_step(devname, size, op, Err(text)),
                session.step(ReplyView::Error(text)).next,
            )
        }),
{
}

/// `next` is what follows where opening stands at `progress`.
pub open spec fn follows(plan: PlanView, progress: OpenView, next: ProgressView) -> bool {
    &&& progress matches OpenView::Next(op) ==> next == ProgressView::Continue(
        SessionView::Opening { plan, op },
    )
    &&& progress is Opened ==> next == ProgressView::Continue(SessionView::Examining { plan })
    &&& progress matches OpenView::Failed(e) ==> next == ProgressView::Failed(e)
}

/// Where the size of a device is known, it leads to what comes of it, wherever it is known from;
/// the user is told about the owner when the device is examined, and nothing else.
pub proof fn law_size_leads_on(
    plan: PlanView,
    path: Seq<char>,
    owner: u32,
    user: u32,
    size: u64,
    status: i32,
    line: Seq<char>,
    is_block_device: bool,
)
    ensures
        ({
            let examining = SessionView::Examining { plan };
            let metadata = ReplyView::Metadata { owner, user, is_block_device, size };
            let step = examining.step(metadata);
            &&& step.notice == plan.owner_warning(owner, user)
            &&& plan.size_source(is_block_device, size) matches SizeSource::Known(n) ==> step.next
                == after_size(plan, n)
            &&& plan.size_source(is_block_device, size) is BlockDevice ==> step.next
                == ProgressView::Continue(SessionView::AskingBlockSize { plan })
        }),
        ({
            let step = (SessionView::AskingBlockSize { plan }).step(
                ReplyView::BlockSize { status, size },
            );
            &&& step.notice is None
            &&& status >= 0 && size > 0 ==> step.next == after_size(plan, size)
            &&& status < 0 || size == 0 ==> step.next == ProgressView::Continue(
                SessionView::ReadingSizeFile {
                    plan,
                    path: "/sys/class/block/"@ + plan.request.devname + "/size"@,
                },
            )
        }),
        ({
            let step = (SessionView::ReadingSizeFile { plan, path }).step(ReplyView::Line(line));
            &&& step.notice is None
            &&& size_in_line(plan.request.devname, line) matches Ok(n) ==> step.next == after_size(
                plan,
                n,
            )
            &&& size_in_line(plan.request.devname, line) matches Err(e) ==> step.next
                == ProgressView::Failed(e)
        }),
{
}

/// A known size leads to the error that it comes to, to the search for bad pages, if it was
/// asked for and there is a page to search, or else to the image without bad pages.
pub proof fn law_size_comes_to_an_area(plan: PlanView, devsize: u64)
    ensures
        plan.area(devsize) matches Err(e) ==> after_size(plan, devsize) == ProgressView::Failed(e),
        plan.area(devsize) matches Ok(area) ==> if plan.request.check && area.pages > 1 {
            after_size(plan, devsize) == ProgressView::Continue(
                SessionView::Checking {
                    area,
                    scan: ScanView {
                        pagesize: plan.pagesize,
                        pages: area.pages,
                        offset: plan.request.offset,
                        verbose: plan.request.verbose,
                        next: 1,
                        badpages: Seq::empty(),
                    },
                },
            )
        } else {
            after_size(plan, devsize) == after_check(area, Seq::empty())
        },
{
}

/// Each read of the search is recorded and reported, and the last one leads to the image that
/// lists what was found, or to the reason why there is none.
pub proof fn law_reads_lead_on(area: AreaView, scan: ScanView, count: isize, badpages: Seq<u32>)
    ensures
        ({
            let step = (SessionView::Checking { area, scan }).step(ReplyView::Count(count));
            let found = scan.recorded(count);
            &&& step.notice == scan.report(count)
            &&& found.next < found.pages ==> step.next == ProgressView::Continue(
                SessionView::Checking { area, scan: found },
            )
            &&& found.next >= found.pages ==> step.next == after_check(area, found.badpages)
        }),
        area.image(badpages) matches Ok(image) ==> after_check(area, badpages)
            == ProgressView::Continue(SessionView::Writing { image }),
        area.image(badpages) matches Err(e) ==> after_check(area, badpages) == ProgressView::Failed(
            e,
        ),
{
}

/// What was written is told at the end, and an error of the system ends a session with nothing
/// else to tell.
pub proof fn law_end_is_told(session: SessionView, reply: ReplyView, text: Seq<char>)
    requires
        session.expects(reply),
    ensures
        session matches SessionView::Writing { image } ==> reply is Number ==> session.step(
            reply,
        ).next == ProgressView::Finished(image.summary) && session.step(reply).notice is None,
        reply == ReplyView::Error(text) && !(session is Opening) ==> session.step(reply).next
            == ProgressView::Failed(ErrorView::IoError { msg: text }) && session.step(
            reply,
        ).notice is None,
{
}

} // verus!
