//! The posts of the service as they travel: list rows, single posts, and the
//! body of an add request.

use vstd::prelude::*;

verus! {

/// One post as the list operation returns it.
#[derive(Debug, Clone, PartialEq, Eq)]
pub struct PostRow {
    pub post_id: u16,
    pub create_date: String,
    pub title: String,
    pub summary: String,
    pub ranking: String,
}

/// The mathematical content of a [`PostRow`].
pub struct PostRowView {
    pub post_id: u16,
    pub create_date: Seq<char>,
    pub title: Seq<char>,
    pub summary: Seq<char>,
    pub ranking: Seq<char>,
}

impl View for PostRow {
    type V = PostRowView;

    open spec fn view(&self) -> PostRowView {
        PostRowView {
            post_id: self.post_id,
            create_date: self.create_date@,
            title: self.title@,
            summary: self.summary@,
            ranking: self.ranking@,
        }
    }
}

/// The views of a sequence of rows, in the same order.
pub open spec fn row_views(rows: Seq<PostRow>) -> Seq<PostRowView> {
    Seq::new(rows.len(), |i: int| rows[i]@)
}

/// One post with its full text, as the get operation returns it.
#[derive(Debug, Clone, PartialEq, Eq)]
pub struct PostBody {
    pub post_id: u16,
    pub create_date: String,
    pub title: String,
    pub summary: String,
    pub ranking: String,
    pub bodytext: String,
}

/// The body of an add request.
#[derive(Debug, Clone, PartialEq, Eq)]
pub struct AddJson {
    pub title: String,
    /// The text of the post, base64-encoded.
    pub post_body: String,
    pub ranking: String,
    pub summary: String,
}

/// The mathematical content of an [`AddJson`].
pub struct AddJsonView {
    pub title: Seq<char>,
    pub post_body: Seq<char>,
    pub ranking: Seq<char>,
    pub summary: Seq<char>,
}

impl View for AddJson {
    type V = AddJsonView;

    open spec fn view(&self) -> AddJsonView {
        AddJsonView {
            title: self.title@,
            post_body: self.post_body@,
            ranking: self.ranking@,
            summary: self.summary@,
        }
    }
}

/// What `base64::encode` returns for a text: the base64 encoding of its
/// UTF-8 bytes, in the standard alphabet with padding.
pub uninterp spec fn base64_standard(text: Seq<char>) -> Seq<char>;

/// Encodes a text with `base64::encode`, which uses the standard alphabet
/// and pads the output. The result depends on the text alone. The encoder
/// gives up only where the encoded length would not fit a `usize`, which no
/// text in memory reaches.
#[verifier::external_body]
fn base64_encode(text: &str) -> (encoded: String)
    ensures
        encoded@ == base64_standard(text@),
{
    base64::encode(text)
}

/// The body of the request that adds a post with the given fields: each
/// field as given, the text of the post encoded.
pub open spec fn add_payload(
    title: Seq<char>,
    text: Seq<char>,
    rank: Seq<char>,
    summary: Seq<char>,
) -> AddJsonView {
    AddJsonView { title, post_body: base64_standard(text), ranking: rank, summary }
}

impl AddJson {
    /// Builds the body of an add request from the fields of the new post
    /// and its text.
    pub fn new(title: String, text: &str, rank: String, summary: String) -> (payload: AddJson)
        ensures
            payload@ == add_payload(title@, text@, rank@, summary@),
    {
        AddJson { title, post_body: base64_encode(text), ranking: rank, summary }
    }
}

/// Puts the rows the server sent into presentation order, newest first:
/// the server's order reversed.
pub fn newest_first(rows: Vec<PostRow>) -> (ordered: Vec<PostRow>)
    ensures
        ordered@ == rows@.reverse(),
{
    let mut rest = rows;
    let mut ordered: Vec<PostRow> = Vec::new();
    while rest.len() > 0
        invariant
            rest@.len() + ordered@.len() == rows@.len(),
            rest@ == rows@.subrange(0, rest@.len() as int),
            forall|i: int| 0 <= i < ordered@.len() ==> ordered@[i] == rows@[rows@.len() - 1 - i],
        decreases rest@.len(),
    {
        match rest.pop() {
            Some(row) => {
                ordered.push(row);
            },
            None => {},
        }
    }
    assert(ordered@ =~= rows@.reverse());
    ordered
}

/// Reversing the rows reverses their views.
pub proof fn lemma_row_views_reverse(rows: Seq<PostRow>)
    ensures
        row_views(rows.reverse()) == row_views(rows).reverse(),
{
    assert(row_views(rows.reverse()) =~= row_views(rows).reverse());
}

} // verus!
