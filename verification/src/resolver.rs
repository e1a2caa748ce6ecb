//! The thumbnail resolver: what a request for a thumbnail comes to, given what is in the
//! cache and whether there is a source.

use crate::paths::{joined, Config};
use crate::thumb::{genthumb, made_of, ThumbError};
use vstd::prelude::*;

verus! {

/// What a request for a thumbnail is answered with.
#[derive(Debug)]
pub enum Resolved {
    /// The thumbnail was in the cache: these are its bytes, to be served unchanged.
    Cached(Vec<u8>),
    /// The thumbnail was made from the source: these bytes are to be written to the cache
    /// and served.
    Generated(Vec<u8>),
    /// There is neither a cached thumbnail nor a source: the placeholder image is served.
    Placeholder,
}

/// What a `Resolved` stands for.
pub enum ResolvedView {
    Cached(Seq<u8>),
    Generated(Seq<u8>),
    Placeholder,
}

impl View for Resolved {
    type V = ResolvedView;

    open spec fn view(&self) -> ResolvedView {
        match self {
            Resolved::Cached(bytes) => ResolvedView::Cached(bytes@),
            Resolved::Generated(bytes) => ResolvedView::Generated(bytes@),
            Resolved::Placeholder => ResolvedView::Placeholder,
        }
    }
}

/// The answer to a request or the error it ends in, by what it stands for.
pub open spec fn outcome_view(outcome: Result<Resolved, ThumbError>) -> Result<
    ResolvedView,
    ThumbError,
> {
    match outcome {
        Ok(resolved) => Ok(resolved@),
        Err(error) => Err(error),
    }
}

/// What a request for a thumbnail comes to. `cached` is the cached thumbnail, if there is
/// one; `generated` is what making the thumbnail from the source gave, if there is a
/// source. A cached thumbnail is served whatever else there is; without one the source is
/// used; without a source the placeholder is served.
pub open spec fn resolution(
    cached: Option<Seq<u8>>,
    generated: Option<Result<Seq<u8>, ThumbError>>,
) -> Result<ResolvedView, ThumbError> {
    match cached {
        Some(bytes) => Ok(ResolvedView::Cached(bytes)),
        None => match generated {
            Some(Ok(bytes)) => Ok(ResolvedView::Generated(bytes)),
            Some(Err(error)) => Err(error),
            None => Ok(ResolvedView::Placeholder),
        },
    }
}

/// The cached thumbnail, if any, by what it stands for.
pub open spec fn cached_view(cached: Option<Vec<u8>>) -> Option<Seq<u8>> {
    match cached {
        Some(bytes) => Some(bytes@),
        None => None,
    }
}

/// What making the thumbnail gave, if it was tried, by what it stands for.
pub open spec fn generated_view(generated: Option<Result<Vec<u8>, ThumbError>>) -> Option<
    Result<Seq<u8>, ThumbError>,
> {
    match generated {
        Some(Ok(bytes)) => Some(Ok(bytes@)),
        Some(Err(error)) => Some(Err(error)),
        None => None,
    }
}

/// Answers a request for a thumbnail from the cached thumbnail, if there is one, and from
/// what making the thumbnail gave, if there is a source.
pub fn settle(cached: Option<Vec<u8>>, generated: Option<Result<Vec<u8>, ThumbError>>) -> (outcome:
    Result<Resolved, ThumbError>)
    ensures
        outcome_view(outcome) == resolution(cached_view(cached), generated_view(generated)),
{
    match cached {
        Some(bytes) => Ok(Resolved::Cached(bytes)),
        None => match generated {
            Some(Ok(bytes)) => Ok(Resolved::Generated(bytes)),
            Some(Err(error)) => Err(error),
            None => Ok(Resolved::Placeholder),
        },
    }
}

/// Answers a request for the thumbnail of the media file `path`. `cached` holds the bytes
/// of the cached thumbnail, if there is one; `source` holds the bytes of the media file, if
/// there is one. A cached thumbnail is served as it is. Without one, the thumbnail is made
/// of the source, and a source that gives none is an error; without a source the
/// placeholder is served.
pub fn resolve(cached: Option<Vec<u8>>, source: Option<Vec<u8>>, path: &str) -> (outcome: Result<
    Resolved,
    ThumbError,
>)
    ensures
        outcome_view(outcome) == resolution(
            cached_view(cached),
            match source {
                Some(bytes) => Some(made_of(bytes@, path@)),
                None => None,
            },
        ),
{
    if cached.is_some() {
        return settle(cached, None);
    }
    let generated = match source {
        Some(bytes) => match genthumb(bytes.as_slice(), path) {
            Ok(thumb) => Some(Ok(thumb.bytes)),
            Err(error) => Some(Err(error)),
        },
        None => None,
    };
    settle(None, generated)
}

/// The bytes that an answer serves, where `placeholder` holds the placeholder image.
pub open spec fn served(answer: ResolvedView, placeholder: Seq<u8>) -> Seq<u8> {
    match answer {
        ResolvedView::Cached(bytes) => bytes,
        ResolvedView::Generated(bytes) => bytes,
        ResolvedView::Placeholder => placeholder,
    }
}

/// The cached thumbnail after a request was answered: a thumbnail that was made has been
/// written to the cache, and nothing else changes it.
pub open spec fn cache_after(cached: Option<Seq<u8>>, outcome: Result<ResolvedView, ThumbError>)
    -> Option<Seq<u8>> {
    match outcome {
        Ok(ResolvedView::Generated(bytes)) => Some(bytes),
        _ => cached,
    }
}

/// How often the cache is written to in answering a request.
pub open spec fn writes(outcome: Result<ResolvedView, ThumbError>) -> nat {
    match outcome {
        Ok(ResolvedView::Generated(_)) => 1,
        _ => 0,
    }
}

/// Asking twice for the same thumbnail, with nothing else touching the files in between.
/// `first` and `second` are what making the thumbnail gives at the first and at the second
/// request, if there is a source. Where the first request is answered, the second serves
/// the same bytes, and serves them from the cache wherever the first served a thumbnail;
/// where the first request fails and making the thumbnail gives the same again, the second
/// fails alike. The second request leaves the cache as it found it, and over both requests
/// the cache is written to once where the thumbnail had to be made and was, and never
/// otherwise.
pub proof fn lemma_resolve_twice(
    cached: Option<Seq<u8>>,
    first: Option<Result<Seq<u8>, ThumbError>>,
    second: Option<Result<Seq<u8>, ThumbError>>,
    placeholder: Seq<u8>,
)
    requires
        first is Some <==> second is Some,
    ensures
        ({
            let one = resolution(cached, first);
            let cache = cache_after(cached, one);
            let two = resolution(cache, second);
            &&& one matches Ok(answer) ==> {
                &&& two is Ok
                &&& served(two->Ok_0, placeholder) == served(answer, placeholder)
                &&& !(answer is Placeholder) ==> two->Ok_0 is Cached
                &&& cache_after(cache, two) == cache
            }
            &&& one is Err && first == second ==> two == one && cache_after(cache, two) == cache
            &&& first == second || one is Ok ==> writes(one) + writes(two) == if cached is None
                && first matches Some(Ok(_)) {
                1nat
            } else {
                0nat
            }
        }),
{
}

/// Asking twice for the thumbnail of a media file that does not change, with nothing else
/// touching the files in between: the second request is answered as the first, from the
/// cache wherever the first served a thumbnail, and leaves the cache as it found it; over
/// both requests the cache is written to once where the thumbnail had to be made and was,
/// and never otherwise.
pub proof fn lemma_resolve_again(
    cached: Option<Seq<u8>>,
    source: Option<Seq<u8>>,
    path: Seq<char>,
    placeholder: Seq<u8>,
)
    ensures
        ({
            let made = match source {
                Some(bytes) => Some(made_of(bytes, path)),
                None => None,
            };
            let one = resolution(cached, made);
            let cache = cache_after(cached, one);
            let two = resolution(cache, made);
            &&& one is Err ==> two == one
            &&& one matches Ok(answer) ==> {
                &&& two is Ok
                &&& served(two->Ok_0, placeholder) == served(answer, placeholder)
                &&& !(answer is Placeholder) ==> two->Ok_0 is Cached
            }
            &&& cache_after(cache, two) == cache
            &&& writes(one) + writes(two) == if cached is None && made matches Some(Ok(_)) {
                1nat
            } else {
                0nat
            }
        }),
{
    let made = match source {
        Some(bytes) => Some(made_of(bytes, path)),
        None => None,
    };
    lemma_resolve_twice(cached, made, made, placeholder);
}

/// The file to serve for a request for the media file `path` itself: the file
/// itself where it exists, else the placeholder image.
pub fn gallery_file(config: &Config, path: &str, is_file: bool) -> (location: String)
    ensures
        location@ == if is_file {
            joined(config.gallery@, path@)
        } else {
            config.notfound@
        },
{
    if is_file {
        config.source_location(path)
    } else {
        config.notfound.clone()
    }
}

} // verus!
