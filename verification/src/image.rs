//! Images: reading image URLs into bytes, naming files by MIME type, and the image
//! generation request and its event loop.
use vstd::prelude::*;

use base64::Engine;

use crate::error::AppError;
use crate::model::{model_of_name, unsupported_model_message, CopilotModel};
use crate::protocol::{opt_event, or_default, str_of_first, EventView, Payload, PayloadView, ServerEvent};
use crate::text::{
    chars_of, concat, debug_quoted, ends_with, find_char, first_index_of, has_prefix, has_suffix,
    owned, starts_with, str_debug_repr, str_eq, substring,
};
use crate::types::{opt_str, ImageData, ImageGenerationRequest, ImageGenerationResponse};
use vstd::utf8::encode_utf8;

verus! {

#[verifier::external_type_specification]
#[verifier::external_body]
pub struct ExDecodeError(base64::DecodeError);

/// What `base64::engine::general_purpose::STANDARD.decode` makes of the bytes of a
/// string: the decoded bytes, or `None` where it reports a `DecodeError`.
pub uninterp spec fn base64_standard_decode(input: Seq<char>) -> Option<Seq<u8>>;

/// Calls `Engine::decode` of `base64::engine::general_purpose::STANDARD` on the bytes
/// of `data`. The contract names the outcome; it says nothing of the decoding itself.
#[verifier::external_body]
fn decode_base64_standard(data: &str) -> (r: Result<Vec<u8>, base64::DecodeError>)
    ensures
        match r {
            Ok(v) => base64_standard_decode(data@) == Some(v@),
            Err(_) => base64_standard_decode(data@) is None,
        },
{
    base64::engine::general_purpose::STANDARD.decode(data)
}

/// The file extensions that `mime_guess::get_mime_extensions_str` lists for a MIME
/// type, or `None` where it knows none.
pub uninterp spec fn mime_guess_extensions(mime: Seq<char>) -> Option<Seq<Seq<char>>>;

/// Calls `mime_guess::get_mime_extensions_str(mime)` and copies the extensions it
/// returns. The contract names the result; it states no entry of the table.
#[verifier::external_body]
fn mime_extensions(mime: &str) -> (r: Option<Vec<String>>)
    ensures
        match r {
            Some(v) => mime_guess_extensions(mime@) == Some(v@.map_values(|s: String| s@)),
            None => mime_guess_extensions(mime@) is None,
        },
{
    match mime_guess::get_mime_extensions_str(mime) {
        Some(exts) => Some(exts.iter().map(|e| e.to_string()).collect()),
        None => None,
    }
}

/// The first extension of a list, or `bin`.
pub open spec fn first_or_bin(exts: Option<Seq<Seq<char>>>) -> Seq<char> {
    match exts {
        Some(v) => if v.len() > 0 {
            v[0]
        } else {
            "bin"@
        },
        None => "bin"@,
    }
}

/// The file extension for a MIME type.
pub open spec fn mime_ext(mime: Seq<char>) -> Seq<char> {
    if mime == "image/jpeg"@ || mime == "image/jpg"@ {
        "jpg"@
    } else if mime == "image/png"@ {
        "png"@
    } else if mime == "image/gif"@ {
        "gif"@
    } else if mime == "image/webp"@ {
        "webp"@
    } else {
        first_or_bin(mime_guess_extensions(mime))
    }
}

/// The file name under which an image of a MIME type is uploaded.
pub open spec fn image_file_name(mime: Seq<char>) -> Seq<char> {
    "image_1."@ + mime_ext(mime)
}

/// The first of the guessed extensions, or `bin` when there is none.
pub fn first_extension_or_bin(exts: Option<Vec<String>>) -> (r: String)
    ensures
        r@ == first_or_bin(
            match exts {
                Some(v) => Some(v@.map_values(|s: String| s@)),
                None => None,
            },
        ),
{
    match exts {
        Some(v) => {
            if v.len() > 0 {
                let ghost views = v@.map_values(|s: String| s@);
                assert(views[0] == v@[0]@);
                v[0].clone()
            } else {
                owned("bin")
            }
        },
        None => owned("bin"),
    }
}

/// Maps a MIME type to a file extension.
pub fn mime_to_ext(mime: &str) -> (r: String)
    ensures
        r@ == mime_ext(mime@),
{
    if str_eq(mime, "image/jpeg") || str_eq(mime, "image/jpg") {
        owned("jpg")
    } else if str_eq(mime, "image/png") {
        owned("png")
    } else if str_eq(mime, "image/gif") {
        owned("gif")
    } else if str_eq(mime, "image/webp") {
        owned("webp")
    } else {
        first_extension_or_bin(mime_extensions(mime))
    }
}

/// Why an inline image could not be read.
#[derive(Debug, Clone, Copy, PartialEq, Eq, Structural)]
pub enum ImageError {
    /// A `data:` URL without a `,`.
    InvalidDataUrl,
    /// Base64 data that does not decode.
    Base64Decode,
}

impl ImageError {
    /// The error message.
    pub fn message(&self) -> (r: String)
        ensures
            r@ == match *self {
                ImageError::InvalidDataUrl => "invalid data URL format"@,
                ImageError::Base64Decode => "base64 decode failed"@,
            },
    {
        match self {
            ImageError::InvalidDataUrl => owned("invalid data URL format"),
            ImageError::Base64Decode => owned("base64 decode failed"),
        }
    }
}

/// The media-type part and the data part of a `data:` URL (`data:<meta>,<data>`).
pub open spec fn data_url_parts(url: Seq<char>) -> Option<(Seq<char>, Seq<char>)> {
    let rest = url.subrange(5, url.len() as int);
    match first_index_of(rest, ',') {
        Some(i) => Some((rest.subrange(0, i), rest.subrange(i + 1, rest.len() as int))),
        None => None,
    }
}

/// The MIME type of a data URL's media-type part, and whether its data is base64.
pub open spec fn data_url_mime(meta: Seq<char>) -> (Seq<char>, bool) {
    if has_suffix(meta, ";base64"@) {
        (meta.subrange(0, meta.len() - 7), true)
    } else {
        (meta, false)
    }
}

/// `r` is the image read from a data URL whose media-type and data parts are `meta` and `data`.
pub open spec fn data_url_image(
    r: Result<(Vec<u8>, String, String), ImageError>,
    meta: Seq<char>,
    data: Seq<char>,
) -> bool {
    let (mime, is_base64) = data_url_mime(meta);
    let bytes = if is_base64 {
        base64_standard_decode(data)
    } else {
        Some(encode_utf8(data))
    };
    match bytes {
        None => r == Err::<(Vec<u8>, String, String), ImageError>(ImageError::Base64Decode),
        Some(b) => r matches Ok((v, name, ct)) && v@ == b && name@ == image_file_name(mime) && ct@
            == mime,
    }
}

/// Reads an inline image. A URL that is not a `data:` URL gives `None` (the image is
/// to be downloaded); otherwise the bytes, file name and MIME type of the image.
pub fn process_data_url(url: &str) -> (r: Option<Result<(Vec<u8>, String, String), ImageError>>)
    ensures
        r is None <==> !has_prefix(url@, "data:"@),
        r matches Some(res) ==> match data_url_parts(url@) {
            None => res == Err::<(Vec<u8>, String, String), ImageError>(ImageError::InvalidDataUrl),
            Some((meta, data)) => data_url_image(res, meta, data),
        },
{
    if !starts_with(url, "data:") {
        return None;
    }
    proof {
        reveal_strlit("data:");
    }
    let n = url.unicode_len();
    let rest = substring(url, 5, n);
    let rest_chars = chars_of(rest.as_str());
    match find_char(&rest_chars, ',') {
        None => Some(Err(ImageError::InvalidDataUrl)),
        Some(i) => {
            let meta = substring(rest.as_str(), 0, i);
            let data = substring(rest.as_str(), i + 1, rest_chars.len());
            let is_base64 = ends_with(meta.as_str(), ";base64");
            let mime = if is_base64 {
                proof {
                    reveal_strlit(";base64");
                }
                substring(meta.as_str(), 0, meta.as_str().unicode_len() - 7)
            } else {
                meta.clone()
            };
            let bytes = if is_base64 {
                match decode_base64_standard(data.as_str()) {
                    Ok(v) => v,
                    Err(_) => return Some(Err(ImageError::Base64Decode)),
                }
            } else {
                data.as_str().as_bytes_vec()
            };
            let ext = mime_to_ext(mime.as_str());
            let filename = concat("image_1.", ext.as_str());
            Some(Ok((bytes, filename, mime)))
        },
    }
}

/// The MIME type of a downloaded image: its `Content-Type`, or `image/png`.
pub open spec fn downloaded_mime(content_type: Option<Seq<char>>) -> Seq<char> {
    or_default(content_type, "image/png"@)
}

/// The image read from a download: its bytes, file name and MIME type, given the
/// response's `Content-Type` header where it has a readable one.
pub fn downloaded_image(data: Vec<u8>, content_type: Option<String>) -> (r: (Vec<u8>, String, String))
    ensures
        r.0@ == data@,
        r.2@ == downloaded_mime(opt_str(content_type)),
        r.1@ == image_file_name(downloaded_mime(opt_str(content_type))),
{
    let ct = match content_type {
        Some(c) => c,
        None => owned("image/png"),
    };
    let ext = mime_to_ext(ct.as_str());
    let filename = concat("image_1.", ext.as_str());
    (data, filename, ct)
}

/// The attachment ID in an upload response body.
pub open spec fn attachment_id_of(body: PayloadView) -> Seq<char> {
    or_default(str_of_first(body, seq!["attachment_id"@, "id"@, "attachmentId"@]), Seq::empty())
}

/// Reads the attachment ID from the JSON body of an upload response (empty when absent).
pub fn extract_attachment_id(body: &Payload) -> (r: String)
    ensures
        r@ == attachment_id_of(body@),
{
    proof {
        reveal_strlit("");
        assert(""@ =~= Seq::<char>::empty());
    }
    match body.str_of3("attachment_id", "id", "attachmentId") {
        Some(s) => s,
        None => owned(""),
    }
}

// ─── Image generation ───

/// The model name of a request: the given one, or `default`.
pub open spec fn requested_model(model: Option<String>) -> Seq<char> {
    or_default(opt_str(model), "default"@)
}

/// The message for an unsupported `response_format`.
pub open spec fn response_format_message(f: Seq<char>) -> Seq<char> {
    "response_format "@ + str_debug_repr(f) + " is not supported; only url is available"@
}

/// `e` is an invalid-request error with message `m`.
pub open spec fn is_invalid_request(e: AppError, m: Seq<char>) -> bool {
    e matches AppError::InvalidRequest(s) && s@ == m
}

/// The error for an unsupported response format, given the format as `{:?}` renders it.
pub fn unsupported_format_error(quoted_format: &str) -> (r: AppError)
    ensures
        is_invalid_request(
            r,
            "response_format "@ + quoted_format@ + " is not supported; only url is available"@,
        ),
{
    let head = concat("response_format ", quoted_format);
    let msg = concat(head.as_str(), " is not supported; only url is available");
    AppError::InvalidRequest(msg)
}

/// A response format other than `url` was asked for.
pub open spec fn unsupported_format(f: Option<String>) -> bool {
    f matches Some(s) && s@ != "url"@
}

/// The model name of a request, defaulting to `default`.
pub fn model_name_or_default(model: &Option<String>) -> (r: String)
    ensures
        r@ == requested_model(*model),
{
    match model {
        Some(m) => m.clone(),
        None => owned("default"),
    }
}

/// Checks an image generation request: `n` must be 1, the response format (if given)
/// must be `url`, the prompt must not be empty, and the model must be known. On
/// success, the requested model name and the model.
pub fn validate_image_request(req: &ImageGenerationRequest) -> (r: Result<(String, CopilotModel), AppError>)
    ensures
        req.n != 1 ==> (r matches Err(e) && is_invalid_request(
            e,
            "n must be 1; only n=1 is available"@,
        )),
        req.n == 1 && unsupported_format(req.response_format) ==> (r matches Err(e)
            && is_invalid_request(e, response_format_message(req.response_format->0@))),
        req.n == 1 && !unsupported_format(req.response_format) && req.prompt@.len() == 0 ==> (r matches Err(
            e,
        ) && is_invalid_request(e, "prompt cannot be empty"@)),
        req.n == 1 && !unsupported_format(req.response_format) && req.prompt@.len() > 0 ==> match model_of_name(
            requested_model(req.model),
        ) {
            Some(m) => (r matches Ok((name, rm)) && name@ == requested_model(req.model) && rm == m),
            None => (r matches Err(e) && (e matches AppError::UnsupportedModel(msg) && msg@
                == unsupported_model_message(requested_model(req.model)))),
        },
{
    if req.n != 1 {
        return Err(AppError::InvalidRequest(owned("n must be 1; only n=1 is available")));
    }
    match &req.response_format {
        Some(f) => {
            if !str_eq(f.as_str(), "url") {
                let quoted = debug_quoted(f.as_str());
                return Err(unsupported_format_error(quoted.as_str()));
            }
        },
        None => {},
    }
    if req.prompt.as_str().is_empty() {
        return Err(AppError::InvalidRequest(owned("prompt cannot be empty")));
    }
    let name = model_name_or_default(&req.model);
    match CopilotModel::from_openai_name(name.as_str()) {
        Ok(m) => Ok((name, m)),
        Err(e) => Err(e),
    }
}

/// What waiting for a generated image does on one event.
#[derive(Debug)]
pub enum ImageStep {
    /// Keep waiting.
    Waiting,
    /// Done: the image URL, or the error to answer with.
    Finished(Result<String, AppError>),
}

/// `e` is an upstream error with message `m`.
pub open spec fn is_upstream(e: AppError, m: Seq<char>) -> bool {
    e matches AppError::CopilotUpstream(s) && s@ == m
}

/// One step of waiting for a generated image, given the image URL seen so far.
pub open spec fn image_step_is(r: ImageStep, image_url: Seq<char>, ev: Option<EventView>) -> bool {
    match ev {
        Some(EventView::ImageGenerated(url)) => r matches ImageStep::Finished(Ok(u)) && u@ == url,
        Some(EventView::ImageFailed(reason)) => r matches ImageStep::Finished(Err(e))
            && is_upstream(e, "image generation failed: "@ + reason),
        Some(EventView::Error(m, _)) => r matches ImageStep::Finished(Err(e)) && is_upstream(e, m),
        Some(EventView::TurnComplete) | None => if image_url.len() == 0 {
            r matches ImageStep::Finished(Err(e)) && is_upstream(
                e,
                "copilot finished without imageGenerated event"@,
            )
        } else {
            r matches ImageStep::Finished(Ok(u)) && u@ == image_url
        },
        Some(_) => r is Waiting,
    }
}

/// Handles one event while waiting for a generated image.
pub fn image_step(image_url: &str, ev: Option<ServerEvent>) -> (r: ImageStep)
    ensures
        image_step_is(r, image_url@, opt_event(ev)),
{
    match ev {
        Some(ServerEvent::ImageGenerated { url }) => ImageStep::Finished(Ok(url)),
        Some(ServerEvent::ImageFailed { reason }) => ImageStep::Finished(
            Err(AppError::CopilotUpstream(concat("image generation failed: ", reason.as_str()))),
        ),
        Some(ServerEvent::Error { message, .. }) => ImageStep::Finished(
            Err(AppError::CopilotUpstream(message)),
        ),
        Some(ServerEvent::TurnComplete) | None => {
            if image_url.is_empty() {
                ImageStep::Finished(
                    Err(
                        AppError::CopilotUpstream(
                            owned("copilot finished without imageGenerated event"),
                        ),
                    ),
                )
            } else {
                ImageStep::Finished(Ok(owned(image_url)))
            }
        },
        Some(_) => ImageStep::Waiting,
    }
}

/// The response for a generated image.
pub fn build_image_response(created: i64, url: String) -> (r: ImageGenerationResponse)
    ensures
        r.created == created,
        r.data@.len() == 1,
        r.data@[0].url == url,
{
    let mut data: Vec<ImageData> = Vec::new();
    data.push(ImageData { url });
    ImageGenerationResponse { created, data }
}

/// While an image is awaited, an event that neither delivers the image, reports a
/// failure or an error, nor ends the turn or the channel (a partial preview, a text delta,
/// the start of generation, anything else) leaves the request waiting.
pub proof fn lemma_image_step_waits(r: ImageStep, image_url: Seq<char>, ev: EventView)
    requires
        image_step_is(r, image_url, Some(ev)),
        !(ev is ImageGenerated),
        !(ev is ImageFailed),
        !(ev is Error),
        !(ev is TurnComplete),
    ensures
        r is Waiting,
{
}

/// A request finishes with an image URL only with the URL of a generated image, or, when
/// the turn or the channel ends, with the URL seen before; a partial preview never
/// finishes it.
pub proof fn lemma_image_step_url_source(r: ImageStep, image_url: Seq<char>, ev: Option<EventView>)
    requires
        image_step_is(r, image_url, ev),
    ensures
        r matches ImageStep::Finished(Ok(u)) ==> (ev == Some(EventView::ImageGenerated(u@)) || ((
        ev is None || ev == Some(EventView::TurnComplete)) && u@ == image_url && image_url.len()
            > 0)),
        ev matches Some(EventView::ImagePartial(_)) ==> r is Waiting,
{
}

} // verus!
