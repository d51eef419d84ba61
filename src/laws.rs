use vstd::prelude::*;
use crate::bridge::{frame_of, message_of, BodyFrame, ConversionError};
use crate::reference::{is_locator, locator_of, parts_valid};
use crate::response::{plan_of, FetchError, ResponsePlan};

verus! {

/// A locator names exactly one reference: two valid references with the
/// same locator are the same, so `resolve` on the locator of a valid
/// reference gives back that reference, part for part.
pub proof fn lemma_locator_names_one_reference(
    a1: Seq<char>,
    b1: Seq<char>,
    c1: Seq<char>,
    d1: Seq<char>,
    a2: Seq<char>,
    b2: Seq<char>,
    c2: Seq<char>,
    d2: Seq<char>,
)
    requires
        parts_valid(a1, b1, c1, d1),
        parts_valid(a2, b2, c2, d2),
        locator_of(a1, b1, c1, d1) == locator_of(a2, b2, c2, d2),
    ensures
        a1 == a2 && b1 == b2 && c1 == c2 && d1 == d2,
        is_locator(locator_of(a1, b1, c1, d1)),
{
    crate::reference::lemma_separators(a1, b1, c1, d1);
    crate::reference::lemma_separators(a2, b2, c2, d2);
    let s = locator_of(a1, b1, c1, d1);
    if a1.len() < a2.len() {
        assert(s[a1.len() as int] == '/');
    } else if a2.len() < a1.len() {
        assert(s[a2.len() as int] == '/');
    }
    let k: int = a1.len() as int + 1;
    if b1.len() < b2.len() {
        assert(s[k + b1.len()] == '/');
    } else if b2.len() < b1.len() {
        assert(s[k + b2.len()] == '/');
    }
    let m: int = k + b1.len() + 1;
    if c1.len() < c2.len() {
        assert(s[m + c1.len()] == '/');
    } else if c2.len() < c1.len() {
        assert(s[m + c2.len()] == '/');
    }
}

/// A fetch that succeeds is answered with status 200, the octet-stream type
/// and a stream, and the body's one data frame carries exactly the bytes
/// that the conversion produced; the pull after it ends the body.
pub proof fn lemma_success_streams_the_bytes(b: bytes::Bytes)
    ensures
        plan_of(None).spec_status() == 200,
        plan_of(None).spec_has_content_type(),
        plan_of(None).spec_opens_stream(),
        frame_of(Some(message_of(Ok(b)))) == BodyFrame::Data(b),
{
}

/// A fetch that fails is answered before any channel or producer exists:
/// with the failure's status, no content type and no body.
pub proof fn lemma_failed_fetch_opens_nothing(e: FetchError)
    ensures
        plan_of(Some(e)) == ResponsePlan::Reject(e),
        !plan_of(Some(e)).spec_opens_stream(),
        !plan_of(Some(e)).spec_has_content_type(),
        e == FetchError::NotFound ==> plan_of(Some(e)).spec_status() == 404,
{
}

/// A conversion that fails after a successful fetch leaves the status at
/// 200 and breaks the body off instead of ending it.
pub proof fn lemma_late_failure_breaks_the_body(e: ConversionError)
    ensures
        plan_of(None).spec_status() == 200,
        frame_of(Some(message_of(Err(e)))) == BodyFrame::Abort(e),
        frame_of(Some(message_of(Err(e)))) != BodyFrame::End,
{
}

/// The preflight answer is status 200 with an empty body, no content type
/// and no stream.
pub proof fn lemma_preflight_is_empty()
    ensures
        ResponsePlan::Empty.spec_status() == 200,
        !ResponsePlan::Empty.spec_opens_stream(),
        !ResponsePlan::Empty.spec_has_content_type(),
{
}

} // verus!
