use vstd::prelude::*;
use vstd::string::*;

use crate::address::{normalize_address, storage_key};
use crate::problem::{
    http_reason_phrase, title_from_reason, ABOUT_BLANK, INTERNAL_SERVER_ERROR,
    ApiProblem,
};

verus! {

/// The largest request body accepted for a gallery upload (10 MiB).
pub const MAX_BODY_BYTES: usize = 10 * 1024 * 1024;

/// The path prefix of a gallery document.
pub const GALLERY_PATH_PREFIX: &'static str = "/v1/galleries/";

pub const BAD_REQUEST: u16 = 400;
pub const NOT_FOUND: u16 = 404;

pub const NOT_FOUND_DETAIL: &'static str = "Gallery not found";
pub const NOT_AN_ARRAY_DETAIL: &'static str = "`data` must be a JSON array of galleries";
pub const INTERNAL_ERROR_DETAIL: &'static str = "Internal server error";

/// The path of the gallery document stored under `key`, used as the
/// `instance` of problems about it.
pub open spec fn gallery_path(key: Seq<char>) -> Seq<char> {
    GALLERY_PATH_PREFIX@ + key
}

/// The failure of a storage operation (the store's own error is logged where
/// the operation ran).
#[derive(Debug, Clone, Copy)]
pub struct StoreError;

/// The kind of JSON value sent as the `data` member of an upload.
#[derive(Debug, Clone, Copy, PartialEq, Eq)]
pub enum JsonKind {
    Null,
    Bool,
    Number,
    String,
    Array,
    Object,
}

/// What came of reading an upload's body.
#[derive(Debug)]
pub enum UploadBody {
    /// The body could not be read as `{ "data": ... }` (malformed JSON, a
    /// wrong content type, a missing or ill-typed `data`, or a body over the
    /// size limit): the text of the rejection.
    Rejected { text: String },
    /// The body was read; `data` has this kind.
    Read(JsonKind),
}

/// What a gallery request is answered with.
#[derive(Debug)]
pub enum GalleryReply<R> {
    /// 200 with the stored document.
    Document(R),
    /// 204 without a body.
    NoContent,
    /// A problem+json response.
    Problem(ApiProblem),
}

/// What to do with an upload.
#[derive(Debug)]
pub enum UploadPlan {
    /// Store the uploaded `data` under `key`.
    Store { key: String },
    /// Answer with this problem; nothing is stored.
    Refuse(ApiProblem),
}

/// `p` is the problem with this status and detail, titled by the status's
/// reason phrase, whose instance is `instance` (absent when `None`).
pub open spec fn is_problem(
    p: ApiProblem,
    status: u16,
    detail: Seq<char>,
    instance: Option<Seq<char>>,
) -> bool {
    &&& p.problem_type@ == ABOUT_BLANK@
    &&& p.title@ == title_from_reason(http_reason_phrase(status))
    &&& p.status == status
    &&& p.detail matches Some(d) && d@ == detail
    &&& match instance {
        Some(i) => p.instance matches Some(pi) && pi@ == i,
        None => p.instance is None,
    }
}

/// The path of the gallery document stored under `key`.
pub fn gallery_instance(key: &str) -> (path: String)
    ensures
        path@ == gallery_path(key@),
{
    let mut path = String::from_str(GALLERY_PATH_PREFIX);
    path.append(key);
    path
}

/// The problem answered when a storage operation failed: 500 with no
/// instance, so that nothing of the store's error leaks.
pub fn internal_error_problem() -> (p: ApiProblem)
    ensures
        is_problem(p, INTERNAL_SERVER_ERROR, INTERNAL_ERROR_DETAIL@, None),
{
    ApiProblem::new(INTERNAL_SERVER_ERROR, Some(String::from_str(INTERNAL_ERROR_DETAIL)), None)
}

/// The answer to a read of the document under `key`, given what the store
/// returned: the document, 404 when there is none, 500 when the store failed.
pub fn fetch_reply<R>(key: &str, fetched: Result<Option<R>, StoreError>) -> (reply: GalleryReply<R>)
    ensures
        match fetched {
            Ok(Some(row)) => reply == GalleryReply::Document(row),
            Ok(None) => reply matches GalleryReply::Problem(p) && is_problem(
                p,
                NOT_FOUND,
                NOT_FOUND_DETAIL@,
                Some(gallery_path(key@)),
            ),
            Err(_) => reply matches GalleryReply::Problem(p) && is_problem(
                p,
                INTERNAL_SERVER_ERROR,
                INTERNAL_ERROR_DETAIL@,
                None,
            ),
        },
{
    match fetched {
        Ok(Some(row)) => GalleryReply::Document(row),
        Ok(None) => GalleryReply::Problem(
            ApiProblem::new(
                NOT_FOUND,
                Some(String::from_str(NOT_FOUND_DETAIL)),
                Some(gallery_instance(key)),
            ),
        ),
        Err(_) => GalleryReply::Problem(internal_error_problem()),
    }
}

/// Decides an upload to `address` from what came of reading its body: a body
/// that could not be read is refused with 400 and the rejection's text, a
/// `data` that is not an array is refused with 400, and an array is stored
/// under the address's key. Problems name the document's path.
pub fn plan_upload(address: &str, body: UploadBody) -> (plan: UploadPlan)
    ensures
        match body {
            UploadBody::Rejected { text } => plan matches UploadPlan::Refuse(p) && is_problem(
                p,
                BAD_REQUEST,
                text@,
                Some(gallery_path(storage_key(address@))),
            ),
            UploadBody::Read(JsonKind::Array) => plan matches UploadPlan::Store { key }
                && key@ == storage_key(address@),
            UploadBody::Read(_) => plan matches UploadPlan::Refuse(p) && is_problem(
                p,
                BAD_REQUEST,
                NOT_AN_ARRAY_DETAIL@,
                Some(gallery_path(storage_key(address@))),
            ),
        },
{
    let key = normalize_address(address);
    let instance = gallery_instance(key.as_str());
    match body {
        UploadBody::Rejected { text } => UploadPlan::Refuse(
            ApiProblem::new(BAD_REQUEST, Some(text), Some(instance)),
        ),
        UploadBody::Read(JsonKind::Array) => UploadPlan::Store { key },
        UploadBody::Read(_) => UploadPlan::Refuse(
            ApiProblem::new(BAD_REQUEST, Some(String::from_str(NOT_AN_ARRAY_DETAIL)), Some(instance)),
        ),
    }
}

/// The answer to an upload, given what the store returned: the stored
/// document, or 500 when the store failed.
pub fn store_reply<R>(stored: Result<R, StoreError>) -> (reply: GalleryReply<R>)
    ensures
        match stored {
            Ok(row) => reply == GalleryReply::Document(row),
            Err(_) => reply matches GalleryReply::Problem(p) && is_problem(
                p,
                INTERNAL_SERVER_ERROR,
                INTERNAL_ERROR_DETAIL@,
                None,
            ),
        },
{
    match stored {
        Ok(row) => GalleryReply::Document(row),
        Err(_) => GalleryReply::Problem(internal_error_problem()),
    }
}

/// The answer to a deletion, given what the store returned: 204 whether or
/// not a document existed (deletion is idempotent), 500 when the store
/// failed.
pub fn remove_reply<R>(removed: Result<(), StoreError>) -> (reply: GalleryReply<R>)
    ensures
        match removed {
            Ok(()) => reply is NoContent,
            Err(_) => reply matches GalleryReply::Problem(p) && is_problem(
                p,
                INTERNAL_SERVER_ERROR,
                INTERNAL_ERROR_DETAIL@,
                None,
            ),
        },
{
    match removed {
        Ok(()) => GalleryReply::NoContent,
        Err(_) => GalleryReply::Problem(internal_error_problem()),
    }
}

} // verus!
