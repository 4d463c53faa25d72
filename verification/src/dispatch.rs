//! The course of a command. Each command is a short chain of steps. A step
//! names one piece of outside work (read a file, send a request, write a
//! file) or the end of the command; the caller does the work and answers
//! with the function that belongs to the step, which gives the next step.

use vstd::prelude::*;

use crate::error::ClientError;
use crate::post::{lemma_row_views_reverse, row_views, PostRow, PostRowView};
use crate::reply::{
    confirm_reply,
    is_success,
    posts_in_reply,
    spec_confirmation,
    spec_posts_in_reply,
    spec_text_in_reply,
    text_in_reply,
    Reply,
    ReplyBody,
};
use crate::request::{
    add_post,
    delete_post,
    get_post_list,
    get_single_post,
    request_view,
    spec_add_post,
    spec_delete_post,
    spec_list_request,
    spec_single_post_request,
    Request,
    RequestView,
};
use crate::token::{well_drawn, TokenMinter};

verus! {

/// What the user asked for.
#[derive(Debug, Clone, PartialEq, Eq)]
pub enum Command {
    /// List all posts.
    List,
    /// Fetch one post and save its text to a file.
    Get { id: u16, file_name: String },
    /// Create a post whose text is read from a file.
    Add { title: String, file_path: String, rank: String, summary: String },
    /// Change a post. Accepted, and not implemented.
    Update { id: u16, title: String, file_path: String, rank: String, summary: String },
    /// Delete a post.
    Delete { id: u16 },
}

/// The fields of a post to be added, kept while its text is being read.
#[derive(Debug, Clone, PartialEq, Eq)]
pub struct AddDraft {
    pub title: String,
    pub rank: String,
    pub summary: String,
}

/// The mathematical content of an [`AddDraft`].
pub struct AddDraftView {
    pub title: Seq<char>,
    pub rank: Seq<char>,
    pub summary: Seq<char>,
}

impl View for AddDraft {
    type V = AddDraftView;

    open spec fn view(&self) -> AddDraftView {
        AddDraftView { title: self.title@, rank: self.rank@, summary: self.summary@ }
    }
}

/// What a command does with the reply to the request it sent.
#[derive(Debug, Clone, PartialEq, Eq)]
pub enum Pending {
    /// Show the posts of the reply.
    Listing,
    /// Save the text of the post in the reply to this file.
    Fetching { file_name: String },
    /// Report success.
    Mutating,
}

/// The mathematical content of a [`Pending`].
pub enum PendingView {
    Listing,
    Fetching { file_name: Seq<char> },
    Mutating,
}

impl View for Pending {
    type V = PendingView;

    open spec fn view(&self) -> PendingView {
        match self {
            Pending::Listing => PendingView::Listing,
            Pending::Fetching { file_name } => PendingView::Fetching { file_name: file_name@ },
            Pending::Mutating => PendingView::Mutating,
        }
    }
}

/// How a command ended when it did not fail.
#[derive(Debug, Clone, PartialEq, Eq)]
pub enum Outcome {
    /// The posts to show, newest first.
    Listed { rows: Vec<PostRow> },
    /// The command did what it was asked to.
    Succeeded,
    /// The command is accepted and does nothing.
    Unimplemented,
}

/// The mathematical content of an [`Outcome`].
pub enum OutcomeView {
    Listed { rows: Seq<PostRowView> },
    Succeeded,
    Unimplemented,
}

impl View for Outcome {
    type V = OutcomeView;

    open spec fn view(&self) -> OutcomeView {
        match self {
            Outcome::Listed { rows } => OutcomeView::Listed { rows: row_views(rows@) },
            Outcome::Succeeded => OutcomeView::Succeeded,
            Outcome::Unimplemented => OutcomeView::Unimplemented,
        }
    }
}

/// What is to happen next in a command: one piece of outside work, to be
/// answered by the function named with it, or the end of the command.
#[derive(Debug, Clone)]
pub enum Step {
    /// Read the text of the new post from `path`; answer with [`body_read`].
    ReadBody { path: String, draft: AddDraft },
    /// Send `request`; answer with [`replied`].
    Send { request: Request, pending: Pending },
    /// Write `contents` to `path`; answer with [`body_written`].
    WriteBody { path: String, contents: String },
    /// The command is done.
    Done { outcome: Outcome },
    /// The command failed; nothing more is to be tried.
    Failed { error: ClientError },
}

/// The mathematical content of a [`Step`].
pub enum StepView {
    ReadBody { path: Seq<char>, draft: AddDraftView },
    Send { request: RequestView, pending: PendingView },
    WriteBody { path: Seq<char>, contents: Seq<char> },
    Done { outcome: OutcomeView },
    Failed { error: ClientError },
}

impl View for Step {
    type V = StepView;

    open spec fn view(&self) -> StepView {
        match self {
            Step::ReadBody { path, draft } => StepView::ReadBody { path: path@, draft: draft@ },
            Step::Send { request, pending } => StepView::Send {
                request: request@,
                pending: pending@,
            },
            Step::WriteBody { path, contents } => StepView::WriteBody {
                path: path@,
                contents: contents@,
            },
            Step::Done { outcome } => StepView::Done { outcome: outcome@ },
            Step::Failed { error } => StepView::Failed { error: *error },
        }
    }
}

impl StepView {
    /// Whether the step asks for a network call.
    pub open spec fn calls_network(self) -> bool {
        self is Send
    }

    /// Whether the step asks for file input or output.
    pub open spec fn touches_files(self) -> bool {
        self is ReadBody || self is WriteBody
    }

    /// Whether the step ends the command.
    pub open spec fn is_final(self) -> bool {
        self is Done || self is Failed
    }

    /// An upper bound on the number of steps that still ask for outside
    /// work, this one included.
    pub open spec fn remaining(self) -> nat {
        match self {
            StepView::ReadBody { .. } => 3,
            StepView::Send { .. } => 2,
            StepView::WriteBody { .. } => 1,
            StepView::Done { .. } => 0,
            StepView::Failed { .. } => 0,
        }
    }
}

/// The step that sends a request once it is built, or the failure to build
/// it.
pub open spec fn spec_send(request: Result<RequestView, ClientError>) -> StepView {
    match request {
        Ok(request) => StepView::Send { request, pending: PendingView::Mutating },
        Err(error) => StepView::Failed { error },
    }
}

/// The first step of a command, when the clock reads `now` and the
/// request identifier drawn is `request_id`. Only a delete mints a token
/// at once, so only its first step depends on the two.
pub open spec fn spec_start(
    command: Command,
    minter: TokenMinter,
    now: int,
    request_id: Seq<char>,
) -> StepView {
    match command {
        Command::List => StepView::Send {
            request: spec_list_request(),
            pending: PendingView::Listing,
        },
        Command::Get { id, file_name } => StepView::Send {
            request: spec_single_post_request(id),
            pending: PendingView::Fetching { file_name: file_name@ },
        },
        Command::Add { title, file_path, rank, summary } => StepView::ReadBody {
            path: file_path@,
            draft: AddDraftView { title: title@, rank: rank@, summary: summary@ },
        },
        Command::Update { .. } => StepView::Done { outcome: OutcomeView::Unimplemented },
        Command::Delete { id } => spec_send(spec_delete_post(minter, id, now, request_id)),
    }
}

/// The step after the text of a new post was read, or could not be read.
pub open spec fn spec_body_read(
    draft: AddDraftView,
    contents: Option<Seq<char>>,
    minter: TokenMinter,
    now: int,
    request_id: Seq<char>,
) -> StepView {
    match contents {
        None => StepView::Failed { error: ClientError::Io },
        Some(text) => spec_send(
            spec_add_post(minter, draft.title, text, draft.rank, draft.summary, now, request_id),
        ),
    }
}

/// The step after a request was answered, or was not.
pub open spec fn spec_replied(pending: PendingView, reply: Reply) -> StepView {
    match pending {
        PendingView::Listing => match spec_posts_in_reply(reply) {
            Ok(rows) => StepView::Done { outcome: OutcomeView::Listed { rows } },
            Err(error) => StepView::Failed { error },
        },
        PendingView::Fetching { file_name } => match spec_text_in_reply(reply) {
            Ok(text) => StepView::WriteBody { path: file_name, contents: text },
            Err(error) => StepView::Failed { error },
        },
        PendingView::Mutating => match spec_confirmation(reply) {
            Ok(_) => StepView::Done { outcome: OutcomeView::Succeeded },
            Err(error) => StepView::Failed { error },
        },
    }
}

/// The step after the text of a fetched post was written, or could not be
/// written.
pub open spec fn spec_body_written(written: bool) -> StepView {
    if written {
        StepView::Done { outcome: OutcomeView::Succeeded }
    } else {
        StepView::Failed { error: ClientError::Io }
    }
}

/// The status with which the process leaves once a command has ended:
/// zero when it is done, not zero when it failed. A command that has not
/// ended has none.
pub open spec fn spec_exit_code(step: StepView) -> Option<u8> {
    match step {
        StepView::Done { .. } => Some(0u8),
        StepView::Failed { .. } => Some(1u8),
        _ => None,
    }
}

/// The view of an optional text.
pub open spec fn text_view(text: Option<String>) -> Option<Seq<char>> {
    match text {
        Some(t) => Some(t@),
        None => None,
    }
}

fn send(request: Result<Request, ClientError>) -> (step: Step)
    ensures
        step@ == spec_send(request_view(request)),
{
    match request {
        Ok(request) => Step::Send { request, pending: Pending::Mutating },
        Err(error) => Step::Failed { error },
    }
}

/// Begins a command: decides the first thing to do for it.
pub fn start(command: Command, minter: &TokenMinter) -> (step: Step)
    ensures
        exists|now: int, request_id: Seq<char>|
            well_drawn(now, request_id) && step@ == #[trigger] spec_start(
                command,
                *minter,
                now,
                request_id,
            ),
        !(command is Delete) ==> step@ == spec_start(command, *minter, 0, Seq::<char>::empty()),
        command is Update ==> step@.is_final(),
        command is Delete && minter.secret() is None ==> step@ == (StepView::Failed {
            error: ClientError::Configuration,
        }),
{
    let ghost any_id = Seq::new(36, |i: int| '0');
    match command {
        Command::List => {
            let step = Step::Send { request: get_post_list(), pending: Pending::Listing };
            assert(step@ == spec_start(command, *minter, 0, any_id));
            step
        },
        Command::Get { id, file_name } => {
            let step = Step::Send {
                request: get_single_post(id),
                pending: Pending::Fetching { file_name },
            };
            assert(step@ == spec_start(command, *minter, 0, any_id));
            step
        },
        Command::Add { title, file_path, rank, summary } => {
            let step = Step::ReadBody { path: file_path, draft: AddDraft { title, rank, summary } };
            assert(step@ == spec_start(command, *minter, 0, any_id));
            step
        },
        Command::Update { .. } => {
            let step = Step::Done { outcome: Outcome::Unimplemented };
            assert(step@ == spec_start(command, *minter, 0, any_id));
            step
        },
        Command::Delete { id } => {
            let request = delete_post(id, minter);
            let ghost (now, request_id) = choose|now: int, request_id: Seq<char>|
                well_drawn(now, request_id) && request_view(request) == #[trigger] spec_delete_post(
                    *minter,
                    id,
                    now,
                    request_id,
                );
            let step = send(request);
            assert(step@ == spec_start(command, *minter, now, request_id));
            step
        },
    }
}

/// Goes on with an add once the text of the new post was read; `None`
/// stands for a file that could not be read. The token is minted here, after
/// the read and before anything is sent.
pub fn body_read(draft: AddDraft, contents: Option<String>, minter: &TokenMinter) -> (step: Step)
    ensures
        exists|now: int, request_id: Seq<char>|
            well_drawn(now, request_id) && step@ == #[trigger] spec_body_read(
                draft@,
                text_view(contents),
                *minter,
                now,
                request_id,
            ),
        contents is None ==> step@ == (StepView::Failed { error: ClientError::Io }),
        contents is Some && minter.secret() is None ==> step@ == (StepView::Failed {
            error: ClientError::Configuration,
        }),
        step@.remaining() <= 2,
{
    match contents {
        None => {
            let step = Step::Failed { error: ClientError::Io };
            assert(step@ == spec_body_read(
                draft@,
                text_view(contents),
                *minter,
                0,
                Seq::new(36, |i: int| '0'),
            ));
            step
        },
        Some(text) => {
            let request = add_post(draft.title, text, draft.rank, draft.summary, minter);
            let ghost (now, request_id) = choose|now: int, request_id: Seq<char>|
                well_drawn(now, request_id) && request_view(request) == #[trigger] spec_add_post(
                    *minter,
                    draft.title@,
                    text@,
                    draft.rank@,
                    draft.summary@,
                    now,
                    request_id,
                );
            let step = send(request);
            assert(step@ == spec_body_read(
                draft@,
                text_view(contents),
                *minter,
                now,
                request_id,
            ));
            step
        },
    }
}

/// Goes on with a command once its request was answered, or was not.
pub fn replied(pending: Pending, reply: Reply) -> (step: Step)
    ensures
        step@ == spec_replied(pending@, reply),
        step@.remaining() <= 1,
{
    match pending {
        Pending::Listing => match posts_in_reply(reply) {
            Ok(rows) => Step::Done { outcome: Outcome::Listed { rows } },
            Err(error) => Step::Failed { error },
        },
        Pending::Fetching { file_name } => match text_in_reply(reply) {
            Ok(text) => Step::WriteBody { path: file_name, contents: text },
            Err(error) => Step::Failed { error },
        },
        Pending::Mutating => match confirm_reply(&reply) {
            Ok(_) => Step::Done { outcome: Outcome::Succeeded },
            Err(error) => Step::Failed { error },
        },
    }
}

/// Ends a get once the text of the post was written, or could not be
/// written.
pub fn body_written(written: bool) -> (step: Step)
    ensures
        step@ == spec_body_written(written),
        step@.is_final(),
{
    if written {
        Step::Done { outcome: Outcome::Succeeded }
    } else {
        Step::Failed { error: ClientError::Io }
    }
}

/// The status with which the process leaves after `step`, if the step ends
/// the command.
pub fn exit_code(step: &Step) -> (code: Option<u8>)
    ensures
        code == spec_exit_code(step@),
        code is Some <==> step@.is_final(),
        step@ is Failed ==> code != Some(0u8),
{
    match step {
        Step::Done { .. } => Some(0),
        Step::Failed { .. } => Some(1),
        _ => None,
    }
}

/// An update is accepted and does nothing: whatever its arguments, its
/// first step ends the command, and asks for no network call and no file.
pub proof fn lemma_update_does_nothing(
    command: Command,
    minter: TokenMinter,
    now: int,
    request_id: Seq<char>,
)
    requires
        command is Update,
    ensures
        spec_start(command, minter, now, request_id) == (StepView::Done {
            outcome: OutcomeView::Unimplemented,
        }),
        !spec_start(command, minter, now, request_id).calls_network(),
        !spec_start(command, minter, now, request_id).touches_files(),
        spec_start(command, minter, now, request_id).is_final(),
{
}

/// Without a signing secret no request that needs a token is ever sent:
/// a delete fails at its first step and an add right after its text was
/// read, both with a configuration error, and only a list or a get reaches
/// the network.
pub proof fn lemma_no_secret_no_request(
    minter: TokenMinter,
    command: Command,
    draft: AddDraftView,
    contents: Option<Seq<char>>,
    now: int,
    request_id: Seq<char>,
)
    requires
        minter.secret() is None,
    ensures
        command is Delete ==> spec_start(command, minter, now, request_id) == (StepView::Failed {
            error: ClientError::Configuration,
        }),
        spec_start(command, minter, now, request_id).calls_network() ==> command is List
            || command is Get,
        contents is Some ==> spec_body_read(draft, contents, minter, now, request_id)
            == (StepView::Failed { error: ClientError::Configuration }),
        !spec_body_read(draft, contents, minter, now, request_id).calls_network(),
{
}

/// Every command sends at most one request and comes to an end: each
/// answer leads to a step with less outside work left than the step it
/// answers, and nothing that follows a request is a request.
pub proof fn lemma_one_request_per_command(
    draft: AddDraftView,
    contents: Option<Seq<char>>,
    minter: TokenMinter,
    now: int,
    request_id: Seq<char>,
    pending: PendingView,
    reply: Reply,
    written: bool,
)
    ensures
        spec_body_read(draft, contents, minter, now, request_id).remaining() <= 2,
        !spec_body_read(draft, contents, minter, now, request_id).touches_files(),
        spec_replied(pending, reply).remaining() <= 1,
        !spec_replied(pending, reply).calls_network(),
        spec_body_written(written).is_final(),
{
}

/// What a get writes is the text of the post as the server sent it, to the
/// file that the command named, and nothing is written unless the server
/// answered with success and a post.
pub proof fn lemma_get_writes_the_text(file_name: Seq<char>, reply: Reply)
    ensures
        spec_replied(PendingView::Fetching { file_name }, reply) matches StepView::WriteBody {
            path,
            contents,
        } ==> {
            &&& path == file_name
            &&& reply matches Reply::Answered { status, body: ReplyBody::Post { post } }
            &&& is_success(status)
            &&& contents == post.bodytext@
        },
        !(spec_replied(PendingView::Fetching { file_name }, reply) is Done),
{
}

/// What a list shows is what the server sent, the order reversed.
pub proof fn lemma_list_shows_newest_first(reply: Reply)
    ensures
        spec_replied(PendingView::Listing, reply) matches StepView::Done { outcome } ==> {
            &&& reply matches Reply::Answered { status, body: ReplyBody::Posts { rows } }
            &&& is_success(status)
            &&& outcome == (OutcomeView::Listed { rows: row_views(rows@).reverse() })
            &&& outcome == (OutcomeView::Listed { rows: row_views(rows@.reverse()) })
        },
{
    match reply {
        Reply::Answered { status, body: ReplyBody::Posts { rows } } => {
            lemma_row_views_reverse(rows@);
        },
        _ => {},
    }
}

} // verus!
