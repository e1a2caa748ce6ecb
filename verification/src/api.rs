//! The listing interface: a listing or its failure, as it is handed to a client.

use crate::listing::{dirvec, listing, scan_view, Child, ChildView, DirItem, DirItemView};
use vstd::prelude::*;

verus! {

/// The answer to a request for a listing.
#[derive(Clone, Debug, PartialEq, Eq)]
pub enum ApiReply {
    /// The directory was scanned: its listing.
    Success(Vec<DirItem>),
    /// The directory could not be scanned: the message for the client.
    Fail(String),
}

/// What an `ApiReply` stands for.
pub enum ApiReplyView {
    Success(Seq<DirItemView>),
    Fail(Seq<char>),
}

impl View for ApiReply {
    type V = ApiReplyView;

    open spec fn view(&self) -> ApiReplyView {
        match self {
            ApiReply::Success(items) => ApiReplyView::Success(items.deep_view()),
            ApiReply::Fail(message) => ApiReplyView::Fail(message@),
        }
    }
}

/// The answer to a request for the listing of the directory `path`: its listing where the
/// directory could be scanned, and otherwise one and the same failure, whatever went wrong.
pub open spec fn reply_of(path: Seq<char>, scan: Option<Seq<ChildView>>) -> ApiReplyView {
    match scan {
        Some(children) => ApiReplyView::Success(listing(path, children)),
        None => ApiReplyView::Fail("this path does not exist"@),
    }
}

impl ApiReply {
    /// The status word that a client reads first.
    pub fn status(&self) -> (word: &'static str)
        ensures
            word@ == match self {
                ApiReply::Success(_) => "success"@,
                ApiReply::Fail(_) => "fail"@,
            },
    {
        match self {
            ApiReply::Success(_) => "success",
            ApiReply::Fail(_) => "fail",
        }
    }
}

/// Answers a request for the listing of the directory `path`. `scan` holds the children
/// of the directory, or nothing where the directory could not be read.
pub fn api(path: &str, scan: Option<Vec<Child>>) -> (reply: ApiReply)
    ensures
        reply@ == reply_of(path@, scan_view(scan)),
{
    match scan {
        Some(children) => ApiReply::Success(dirvec(path, &children)),
        None => ApiReply::Fail("this path does not exist".to_owned()),
    }
}

/// Answers a request for the listing of the gallery root.
pub fn apihome(scan: Option<Vec<Child>>) -> (reply: ApiReply)
    ensures
        reply@ == reply_of(Seq::<char>::empty(), scan_view(scan)),
{
    proof {
        reveal_strlit("");
        assert(""@ =~= Seq::<char>::empty());
    }
    api("", scan)
}

} // verus!
