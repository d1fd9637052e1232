//! Checks on the arguments of an entry point, with their error texts.

use vstd::prelude::*;
use vstd::utf8::*;

use crate::image::BlitzImage;
use crate::status::{Failure, BLITZ_ERR_INVALID_ARG, BLITZ_ERR_INVALID_UTF8};
use crate::text;

verus! {

/// The contents of an optional slice.
pub open spec fn slice_of(p: Option<&[u8]>) -> Option<Seq<u8>> {
    match p {
        Some(b) => Some(b@),
        None => None,
    }
}

/// What a string argument of the given name comes to: its text, or why it is
/// refused.
pub open spec fn cstr_result(p: Option<Seq<u8>>, name: Seq<char>) -> Result<
    Seq<char>,
    (i32, Seq<char>),
> {
    match p {
        None => Err((BLITZ_ERR_INVALID_ARG, name + " is NULL"@)),
        Some(b) => if valid_utf8(b) {
            Ok(decode_utf8(b))
        } else {
            Err((BLITZ_ERR_INVALID_UTF8, name + " is not valid UTF-8"@))
        },
    }
}

/// What a string argument that may be missing comes to.
pub open spec fn optional_cstr_result(p: Option<Seq<u8>>, name: Seq<char>) -> Result<
    Option<Seq<char>>,
    (i32, Seq<char>),
> {
    match p {
        None => Ok(None),
        Some(b) => match cstr_result(p, name) {
            Ok(s) => Ok(Some(s)),
            Err(f) => Err(f),
        },
    }
}

/// Refuses a missing context.
pub fn require_ctx(present: bool) -> (r: Result<(), Failure>)
    ensures
        r is Ok <==> present,
        r matches Err(f) ==> f@ == (BLITZ_ERR_INVALID_ARG, "context is NULL"@),
{
    if present {
        Ok(())
    } else {
        Err(Failure::new(BLITZ_ERR_INVALID_ARG, "context is NULL"))
    }
}

/// Refuses a missing out-parameter.
pub fn require_out(present: bool) -> (r: Result<(), Failure>)
    ensures
        r is Ok <==> present,
        r matches Err(f) ==> f@ == (BLITZ_ERR_INVALID_ARG, "out is NULL"@),
{
    if present {
        Ok(())
    } else {
        Err(Failure::new(BLITZ_ERR_INVALID_ARG, "out is NULL"))
    }
}

/// Why an image argument is refused, if it is: it is missing, or holds no bytes.
pub open spec fn image_refusal(image: Option<&BlitzImage>) -> Option<(i32, Seq<char>)> {
    match image {
        None => Some((BLITZ_ERR_INVALID_ARG, "image is NULL"@)),
        Some(i) => match i@.data {
            Some(d) if d.len() > 0 => None,
            _ => Some((BLITZ_ERR_INVALID_ARG, "image is empty"@)),
        },
    }
}

/// Refuses a missing or empty image.
pub fn require_image(image: Option<&BlitzImage>) -> (r: Result<&BlitzImage, Failure>)
    ensures
        match r {
            Ok(i) => image_refusal(image) is None && image == Some(i),
            Err(f) => image_refusal(image) == Some(f@),
        },
{
    match image {
        None => Err(Failure::new(BLITZ_ERR_INVALID_ARG, "image is NULL")),
        Some(i) => {
            if i.len() == 0 {
                Err(Failure::new(BLITZ_ERR_INVALID_ARG, "image is empty"))
            } else {
                Ok(i)
            }
        },
    }
}

/// Reads a string argument. `p` holds the bytes before the terminating NUL.
pub fn cstr<'a>(p: Option<&'a [u8]>, name: &str) -> (r: Result<&'a str, Failure>)
    ensures
        match r {
            Ok(s) => cstr_result(slice_of(p), name@) == Ok::<_, (i32, Seq<char>)>(s@),
            Err(f) => cstr_result(slice_of(p), name@) == Err::<Seq<char>, _>(f@),
        },
{
    match p {
        None => Err(Failure::of_two(BLITZ_ERR_INVALID_ARG, name, " is NULL")),
        Some(b) => match text::decode_text(b) {
            Ok(s) => Ok(s),
            Err(_) => Err(Failure::of_two(BLITZ_ERR_INVALID_UTF8, name, " is not valid UTF-8")),
        },
    }
}

/// The text of an optional string.
pub open spec fn text_of(s: Option<&str>) -> Option<Seq<char>> {
    match s {
        Some(s) => Some(s@),
        None => None,
    }
}

/// Reads a string argument that may be missing.
pub fn optional_cstr<'a>(p: Option<&'a [u8]>, name: &str) -> (r: Result<Option<&'a str>, Failure>)
    ensures
        match r {
            Ok(s) => optional_cstr_result(slice_of(p), name@) == Ok::<_, (i32, Seq<char>)>(
                text_of(s),
            ),
            Err(f) => optional_cstr_result(slice_of(p), name@) == Err::<Option<Seq<char>>, _>(f@),
        },
{
    if p.is_none() {
        return Ok(None);
    }
    let s = cstr(p, name)?;
    Ok(Some(s))
}

} // verus!
