//! The mathematical values show what the types hold, all of it and unchanged.

use vstd::prelude::*;

use crate::area::{Area, Plan, SwapImage};
use crate::cli::{opt_str, ArgDef, Options};
use crate::device::{
    reply_view, size_outcome, BlockSize, BlockSizeView, OpenOperation, OpenProgress, OpenView,
};
use crate::error::{outcome, ErrorView, MkswapError};
use crate::header::SwapHeader;
use crate::mkswap::{text_or_empty, uuid_view, Launch, LaunchView, Request};
use crate::pagesize::{PageSizeAnswer, PageSizeChoice, PageSizeQuery, PageSizeView};
use crate::scan::PageScan;
use crate::session::{
    silently, Progress, ProgressView, Reply, ReplyView, Session, SessionView, Step,
};
use crate::swapheader;
use crate::text::{opt_text, texts};

verus! {

/// Texts, lists of texts and texts that may be missing are shown as they are.
pub proof fn law_texts_are_shown(s: String, t: &'static str, list: Seq<String>)
    ensures
        opt_text(Some(s)) == Some(s@),
        opt_text(None) is None,
        opt_str(Some(t)) == Some(t@),
        opt_str(None) is None,
        text_or_empty(Some(s@)) == s@,
        text_or_empty(None).len() == 0,
        texts(list).len() == list.len(),
        forall|i: int| 0 <= i < list.len() ==> texts(list)[i] == (#[trigger] list[i])@,
{
}

/// Outcomes are shown as they are.
pub proof fn law_outcomes_are_shown(
    e: MkswapError,
    size: u64,
    n: i64,
    text: String,
    uuid: [u8; 16],
    header: swapheader::SwapHeader,
    other: swapheader::MkswapError,
)
    ensures
        size_outcome(Ok(size)) == Ok::<u64, ErrorView>(size),
        size_outcome(Err(e)) == Err::<u64, ErrorView>(e@),
        reply_view(Ok(n)) == Ok::<i64, Seq<char>>(n),
        reply_view(Err(text)) == Err::<i64, Seq<char>>(text@),
        uuid_view(Ok(uuid)) == Ok::<Seq<u8>, Seq<char>>(uuid@),
        uuid_view(Err(text)) == Err::<Seq<u8>, Seq<char>>(text@),
        swapheader::build_outcome(Ok(header)) == Ok::<_, swapheader::MkswapError>(header@),
        swapheader::build_outcome(Err(other)) == Err::<swapheader::HeaderView, _>(other),
{
}

/// An outcome of any kind is shown as it is.
pub proof fn law_any_outcome_is_shown<T: View>(v: T, e: MkswapError)
    ensures
        outcome::<T>(Ok(v)) == Ok::<T::V, ErrorView>(v@),
        outcome::<T>(Err(e)) == Err::<T::V, ErrorView>(e@),
{
}

/// An error is shown with its numbers and its text.
pub proof fn law_errors_are_shown(e: MkswapError)
    ensures
        e is TooLongLabel <==> e@ is TooLongLabel,
        e matches MkswapError::TooFewPages { pages } ==> e@ == (ErrorView::TooFewPages {
            pages: pages as nat,
        }),
        e matches MkswapError::MaxBadPagesExceeded { max_badpages } ==> e@ == (
        ErrorView::MaxBadPagesExceeded { max_badpages: max_badpages as nat }),
        e matches MkswapError::SwapAreaTooSmall { min_swapsize } ==> e@ == (
        ErrorView::SwapAreaTooSmall { min_swapsize: min_swapsize as nat }),
        e matches MkswapError::IoError { msg } ==> e@ == (ErrorView::IoError { msg: msg@ }),
        e matches MkswapError::UsageError { msg } ==> e@ == (ErrorView::UsageError { msg: msg@ }),
{
}

/// Options are shown one by one.
pub proof fn law_options_are_shown(o: Options)
    ensures
        o@.device == opt_text(o.device),
        o@.label == opt_text(o.label),
        o@.uuid == opt_text(o.uuid),
        o@.file == o.file,
        o@.check == o.check,
        o@.filesize == o.filesize,
        o@.pagesize == o.pagesize,
        o@.verbose == o.verbose,
        o@.force == o.force,
        o@.endianness == opt_text(o.endianness),
        o@.offset == o.offset,
{
}

/// An argument is shown with all that describes it.
pub proof fn law_arguments_are_shown(a: ArgDef)
    ensures
        a@.id == a.id@,
        a@.short == a.short,
        a@.long == opt_str(a.long),
        a@.required == a.required,
        a@.needs == opt_str(a.needs),
        a@.value_name == opt_str(a.value_name),
        a@.help == a.help@,
{
}

/// A request is shown with all its fields.
pub proof fn law_requests_are_shown(r: Request)
    ensures
        r@.device == r.device@,
        r@.devname == r.devname@,
        r@.label == r.label@,
        r@.endianness == r.endianness,
        r@.uuid == r.uuid@,
        r@.create == r.create,
        r@.filesize == r.filesize,
        r@.pagesize == r.pagesize,
        r@.force == r.force,
        r@.check == r.check,
        r@.verbose == r.verbose,
        r@.offset == r.offset,
{
}

/// What a request leads to is shown with all its fields.
pub proof fn law_areas_are_shown(plan: Plan, area: Area, image: SwapImage, launch: Launch)
    ensures
        plan@.request == plan.request@,
        plan@.pagesize == plan.pagesize,
        area@.plan == area.plan@,
        area@.devsize == area.devsize,
        area@.pages == area.pages,
        image@.position == image.position,
        image@.bytes == image.bytes@,
        image@.summary == image.summary@,
        launch matches Launch::Exit { status } ==> launch@ == (LaunchView::Exit { status }),
        launch matches Launch::Proceed(request) ==> launch@ == LaunchView::Proceed(request@),
{
}

/// Headers are shown with all their fields.
pub proof fn law_headers_are_shown(h: SwapHeader, g: swapheader::SwapHeader)
    ensures
        h@.bootbits == h.bootbits@ && g@.bootbits == g.bootbits@,
        h@.version == h.version && g@.version == g.version,
        h@.last_page == h.last_page && g@.last_page == g.last_page,
        h@.nr_badpages == h.nr_badpages && g@.nr_badpages == g.nr_badpages,
        h@.uuid == h.uuid@ && g@.uuid == g.uuid@,
        h@.label == h.label@ && g@.volume_name == g.volume_name@,
        h@.padding == h.padding@ && g@.padding == g.padding@,
        h@.badpages == h.badpages@ && g@.badpages == g.badpages@,
{
}

/// A search is shown with all its fields.
pub proof fn law_searches_are_shown(s: PageScan)
    ensures
        s@.pagesize == s.pagesize,
        s@.pages == s.pages,
        s@.offset == s.offset,
        s@.verbose == s.verbose,
        s@.next == s.next,
        s@.badpages == s.badpages@,
{
}

/// Answers about page sizes and about opening are shown as they are.
pub proof fn law_answers_are_shown(
    size: usize,
    query: PageSizeQuery,
    e: MkswapError,
    choice: PageSizeChoice,
    op: OpenOperation,
    n: u64,
    path: String,
)
    ensures
        PageSizeAnswer::Known(size)@ == PageSizeView::Known(size as nat),
        PageSizeAnswer::Ask(query)@ == PageSizeView::Ask(query),
        PageSizeAnswer::Failed(e)@ == PageSizeView::Failed(e@),
        choice@.size == choice.size,
        choice@.notice == opt_text(choice.notice),
        OpenProgress::Next(op)@ == OpenView::Next(op),
        OpenProgress::Opened@ == OpenView::Opened,
        OpenProgress::Failed(e)@ == OpenView::Failed(e@),
        BlockSize::Known(n)@ == BlockSizeView::Known(n),
        BlockSize::InFile(path)@ == BlockSizeView::InFile(path@),
{
}

/// A session is shown with all that it holds.
pub proof fn law_sessions_are_shown(s: Session)
    ensures
        match s {
            Session::AskingPageSize { request, query } => s@ == (SessionView::AskingPageSize {
                request: request@,
                query,
            }),
            Session::Opening { plan, op } => s@ == (SessionView::Opening { plan: plan@, op }),
            Session::Examining { plan } => s@ == (SessionView::Examining { plan: plan@ }),
            Session::AskingBlockSize { plan } => s@ == (SessionView::AskingBlockSize {
                plan: plan@,
            }),
            Session::ReadingSizeFile { plan, path } => s@ == (SessionView::ReadingSizeFile {
                plan: plan@,
                path: path@,
            }),
            Session::Checking { area, scan } => s@ == (SessionView::Checking {
                area: area@,
                scan: scan@,
            }),
            Session::Writing { image } => s@ == (SessionView::Writing { image: image@ }),
        },
{
}

/// Replies and what follows them are shown with all that they hold.
pub proof fn law_replies_are_shown(reply: Reply, progress: Progress, step: Step)
    ensures
        match reply {
            Reply::Number(n) => reply@ == ReplyView::Number(n),
            Reply::Error(text) => reply@ == ReplyView::Error(text@),
            Reply::Metadata { owner, user, is_block_device, size } => reply@ == (
            ReplyView::Metadata { owner, user, is_block_device, size }),
            Reply::BlockSize { status, size } => reply@ == (ReplyView::BlockSize { status, size }),
            Reply::Line(line) => reply@ == ReplyView::Line(line@),
            Reply::Count(count) => reply@ == ReplyView::Count(count),
        },
        match progress {
            Progress::Continue(session) => progress@ == ProgressView::Continue(session@),
            Progress::Finished(summary) => progress@ == ProgressView::Finished(summary@),
            Progress::Failed(e) => progress@ == ProgressView::Failed(e@),
        },
        step@.notice == opt_text(step.notice),
        step@.next == step.next@,
        silently(progress@).notice is None && silently(progress@).next == progress@,
{
}

/// What a session and a search have to fulfil, to be worked with.
pub proof fn law_sound_sessions(session: SessionView)
    ensures
        session.wf() <==> match session {
            SessionView::AskingPageSize { request, .. } => request.wf(),
            SessionView::Opening { plan, .. } => plan.request.wf(),
            SessionView::Examining { plan } => plan.request.wf(),
            SessionView::AskingBlockSize { plan } => plan.request.wf(),
            SessionView::ReadingSizeFile { plan, .. } => plan.request.wf(),
            SessionView::Checking { area, scan } => {
                &&& area.wf() && scan.wf() && scan.next < scan.pages
                &&& scan.pagesize == area.plan.pagesize && scan.pages == area.pages
                &&& scan.offset == area.plan.request.offset
                &&& scan.verbose == area.plan.request.verbose
            },
            SessionView::Writing { .. } => true,
        },
        session matches SessionView::Checking { scan, .. } ==> (scan.wf() <==> {
            &&& scan.pagesize <= isize::MAX
            &&& scan.next == 1 || 1 < scan.next <= scan.pages
            &&& forall|i: int|
                0 <= i < scan.badpages.len() ==> 1 <= #[trigger] scan.badpages[i] < scan.next
            &&& forall|i: int, j: int|
                0 <= i < j < scan.badpages.len() ==> scan.badpages[i] < scan.badpages[j]
        }),
{
}

} // verus!
