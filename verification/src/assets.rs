//! The routes that serve the script, the style sheet and the thumbnails.

use crate::response::asset_response;
use crate::response::Css;
use crate::response::Either;
use crate::response::Js;
use crate::response::Response;
use crate::response::ResponseView;
use crate::response::StatusCode;
use crate::response::NOT_FOUND;
use crate::response::OK;
use crate::text::same_text;
use vstd::prelude::*;

verus! {

/// The name under which the script is served.
pub const SCRIPT_NAME: &'static str = "axios.min.js";

/// The name under which the style sheet is served.
pub const STYLE_NAME: &'static str = "style.css";

/// The answer to a request for the asset `name`: the script or the style
/// sheet under their names, and not found for any other name.
pub open spec fn style_script(name: Seq<char>, script: &'static str, style: &'static str) -> Either<
    Either<Css, Js>,
    StatusCode,
> {
    if name == SCRIPT_NAME@ {
        Either::Left(Either::Right(Js(script)))
    } else if name == STYLE_NAME@ {
        Either::Left(Either::Left(Css(style)))
    } else {
        Either::Right(StatusCode(NOT_FOUND))
    }
}

/// Answers a request for the asset `name`, given the script and the style
/// sheet that the server holds.
pub fn style_script_get(name: &str, script: &'static str, style: &'static str) -> (r: Either<
    Either<Css, Js>,
    StatusCode,
>)
    ensures
        r == style_script(name@, script, style),
{
    if same_text(name, SCRIPT_NAME) {
        Either::Left(Either::Right(Js(script)))
    } else if same_text(name, STYLE_NAME) {
        Either::Left(Either::Left(Css(style)))
    } else {
        Either::Right(StatusCode(NOT_FOUND))
    }
}

/// The answer to a request for a thumbnail: the image, cacheable like the
/// other assets, or not found where the thumbnail area holds no such file.
pub open spec fn image_answer(found: Option<Seq<u8>>) -> Either<ResponseView, StatusCode> {
    match found {
        Some(bytes) => Either::Left(asset_response("image/webp"@, bytes)),
        None => Either::Right(StatusCode(NOT_FOUND)),
    }
}

/// Answers a request for a thumbnail, given the content of the file if
/// there is one.
pub fn images_get(found: Option<Vec<u8>>) -> (r: Either<Response, StatusCode>)
    ensures
        match r {
            Either::Left(response) => image_answer(
                match found {
                    Some(bytes) => Some(bytes@),
                    None => None,
                },
            ) == Either::<ResponseView, StatusCode>::Left(response@),
            Either::Right(status) => image_answer(
                match found {
                    Some(bytes) => Some(bytes@),
                    None => None,
                },
            ) == Either::<ResponseView, StatusCode>::Right(status),
        },
{
    match found {
        Some(bytes) => Either::Left(
            Response {
                status: StatusCode(OK),
                cache_control: Some("public, max-age=604800"),
                content_type: Some("image/webp"),
                body: bytes,
            },
        ),
        None => Either::Right(StatusCode(NOT_FOUND)),
    }
}

} // verus!
