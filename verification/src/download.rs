//! The download pipeline: a file name from the URL, the image decoded,
//! brought to the chosen size and encoded as JPEG.

use sha1::{Digest, Sha1};
use vstd::prelude::*;
use vstd::utf8::encode_utf8;
use crate::raster::{decoded, encode_jpeg, jpeg_encoding, resample, Raster, RasterView};
use crate::text::{append_hex, hex_encode, lemma_hex_encode_len};
use crate::thumbs::bytes_view;

verus! {

/// The width of the canvas that `DownloadPolicy::FixedCanvas` resizes to.
pub const CANVAS_WIDTH: u32 = 3840;

/// The height of the canvas that `DownloadPolicy::FixedCanvas` resizes to.
pub const CANVAS_HEIGHT: u32 = 2160;

/// The length of a SHA-1 digest in bytes.
pub const DIGEST_LEN: usize = 20;

/// What happens to the image between decoding and encoding.
#[derive(Clone, Copy, Debug, PartialEq, Eq, Structural)]
pub enum DownloadPolicy {
    /// The image is saved at the size it came in.
    NativeResolution,
    /// The image is resized to `CANVAS_WIDTH` by `CANVAS_HEIGHT`.
    FixedCanvas,
}

/// Why a download came to nothing.
#[derive(Clone, Copy, Debug, PartialEq, Eq, Structural)]
pub enum DownloadError {
    /// The request failed or was answered with an error status.
    Network,
    /// The bytes are no image.
    Decode,
    /// The file could not be encoded or written.
    Io,
}

/// A download that is ready to be written.
#[derive(Debug)]
pub struct SavePlan {
    /// The name of the file within the download directory.
    pub file_name: String,
    /// The content of the file.
    pub jpeg: Vec<u8>,
}

/// The SHA-1 digest of a message.
pub uninterp spec fn sha1_digest(message: Seq<u8>) -> Seq<u8>;

/// The file name for a digest: its lower-case hexadecimal form and
/// `.jpg`.
pub open spec fn file_name_of(digest: Seq<u8>) -> Seq<char> {
    hex_encode(digest) + ".jpg"@
}

/// The file name under which the image at `url` is saved: it goes by
/// the URL's text and nothing else.
pub open spec fn download_name(url: Seq<char>) -> Seq<char> {
    file_name_of(sha1_digest(encode_utf8(url)))
}

/// Whether `canvas` is what `policy` makes of `image`. Resampled pixels
/// are left open; the size is not.
pub open spec fn rendered(image: RasterView, policy: DownloadPolicy, canvas: RasterView) -> bool {
    &&& canvas.wf()
    &&& match policy {
        DownloadPolicy::NativeResolution => canvas == image,
        DownloadPolicy::FixedCanvas => canvas.width == CANVAS_WIDTH && canvas.height
            == CANVAS_HEIGHT,
    }
}

/// Whether `result` is what becomes of an encoder's answer.
pub open spec fn packaged(
    file_name: Seq<char>,
    encoded: Option<Seq<u8>>,
    result: Result<SavePlan, DownloadError>,
) -> bool {
    match encoded {
        None => result == Err::<SavePlan, DownloadError>(DownloadError::Io),
        Some(jpeg) => result is Ok && result.unwrap().file_name@ == file_name
            && result.unwrap().jpeg@ == jpeg,
    }
}

/// Whether `result` is the encoding of `canvas` under the name for
/// `url`, and `canvas` what the policy makes of `image`.
pub open spec fn delivered(
    url: Seq<char>,
    image: RasterView,
    policy: DownloadPolicy,
    canvas: RasterView,
    result: Result<SavePlan, DownloadError>,
) -> bool {
    rendered(image, policy, canvas) && packaged(
        download_name(url),
        jpeg_encoding(canvas.width, canvas.height, canvas.rgba),
        result,
    )
}

/// Whether `result` is what the pipeline owes for a decoded image: the
/// encoding of some canvas that the policy allows.
pub open spec fn completed(
    url: Seq<char>,
    image: RasterView,
    policy: DownloadPolicy,
    result: Result<SavePlan, DownloadError>,
) -> bool {
    exists|canvas: RasterView| delivered(url, image, policy, canvas, result)
}

/// Whether `result` is what the pipeline owes for a response.
pub open spec fn prepared(
    url: Seq<char>,
    response: Option<Seq<u8>>,
    policy: DownloadPolicy,
    result: Result<SavePlan, DownloadError>,
) -> bool {
    match response {
        None => result == Err::<SavePlan, DownloadError>(DownloadError::Network),
        Some(bytes) => match decoded(bytes) {
            None => result == Err::<SavePlan, DownloadError>(DownloadError::Decode),
            Some(image) => completed(url, image, policy, result),
        },
    }
}

/// The status line of a finished download.
pub open spec fn download_status_text(saved: Result<Seq<char>, DownloadError>) -> Seq<char> {
    match saved {
        Ok(path) => "Saved wallpaper to "@ + path,
        Err(_) => "Failed to download wallpaper"@,
    }
}

/// What a write reported, as a plain value.
pub open spec fn saved_view(saved: Result<&str, DownloadError>) -> Result<Seq<char>, DownloadError> {
    match saved {
        Ok(path) => Ok(path@),
        Err(e) => Err(e),
    }
}

/// Encoded bytes as a plain value.
pub open spec fn encoded_view(encoded: Option<Vec<u8>>) -> Option<Seq<u8>> {
    match encoded {
        Some(bytes) => Some(bytes@),
        None => None,
    }
}

/// Computes the SHA-1 digest of a message.
///
/// Trusted: calls `Digest::digest` of `sha1::Sha1`. The contract claims
/// that the digest depends on the message alone and is twenty bytes
/// long.
#[verifier::external_body]
pub(crate) fn sha1_of(message: &[u8]) -> (digest: Vec<u8>)
    ensures
        digest@ == sha1_digest(message@),
        digest@.len() == DIGEST_LEN,
{
    Sha1::digest(message).to_vec()
}

/// The file name for a digest.
pub fn file_name_from_digest(digest: &[u8]) -> (name: String)
    ensures
        name@ == file_name_of(digest@),
        name@.len() == 2 * digest@.len() + 4,
{
    let mut name = String::new();
    append_hex(&mut name, digest);
    name.append(".jpg");
    proof {
        reveal_strlit(".jpg");
        lemma_hex_encode_len(digest@);
        assert(name@ =~= file_name_of(digest@));
    }
    name
}

/// The file name under which the image at `url` is saved: forty
/// hexadecimal digits and `.jpg`.
pub fn download_file_name(url: &str) -> (name: String)
    ensures
        name@ == download_name(url@),
        name@.len() == 44,
{
    let digest = sha1_of(url.as_bytes());
    file_name_from_digest(digest.as_slice())
}

/// Brings a decoded image to the size that the policy asks for.
pub fn apply_policy(image: Raster, policy: DownloadPolicy) -> (canvas: Raster)
    requires
        image@.wf(),
    ensures
        rendered(image@, policy, canvas@),
{
    match policy {
        DownloadPolicy::NativeResolution => image,
        DownloadPolicy::FixedCanvas => {
            assert(CANVAS_WIDTH * CANVAS_HEIGHT * 4 == 33177600) by (nonlinear_arith);
            resample(&image, CANVAS_WIDTH, CANVAS_HEIGHT)
        },
    }
}

/// Puts a plan together from a file name and the encoder's answer: no
/// encoding, no plan.
pub fn package(file_name: String, encoded: Option<Vec<u8>>) -> (result: Result<
    SavePlan,
    DownloadError,
>)
    ensures
        packaged(file_name@, encoded_view(encoded), result),
{
    match encoded {
        Some(jpeg) => Ok(SavePlan { file_name, jpeg }),
        None => Err(DownloadError::Io),
    }
}

/// Runs the pipeline on the response to the request for `url`: `None`
/// where the request failed or was refused. Nothing is decoded for a
/// failed request, and the file name never depends on the image.
pub fn prepare_download(url: &str, response: Option<&[u8]>, policy: DownloadPolicy) -> (result:
    Result<SavePlan, DownloadError>)
    ensures
        prepared(url@, bytes_view(response), policy, result),
{
    match response {
        None => Err(DownloadError::Network),
        Some(bytes) => {
            assert(bytes_view(response) == Some(bytes@));
            match Raster::decode(bytes) {
                None => Err(DownloadError::Decode),
                Some(image) => {
                    let ghost source = image@;
                    let canvas = apply_policy(image, policy);
                    let encoded = encode_jpeg(&canvas);
                    let ghost answer = encoded_view(encoded);
                    let result = package(download_file_name(url), encoded);
                    proof {
                        assert(decoded(bytes@) == Some(source));
                        assert(answer == jpeg_encoding(
                            canvas@.width,
                            canvas@.height,
                            canvas@.rgba,
                        ));
                        assert(rendered(source, policy, canvas@));
                        assert(delivered(url@, source, policy, canvas@, result));
                        assert(completed(url@, source, policy, result));
                        assert(prepared(url@, Some(bytes@), policy, result));
                    }
                    result
                },
            }
        },
    }
}

/// The status line for a download: the saved path after a full
/// success, one and the same failure text otherwise.
pub fn download_status(saved: Result<&str, DownloadError>) -> (text: String)
    ensures
        text@ == download_status_text(saved_view(saved)),
{
    match saved {
        Ok(path) => {
            let mut text = String::from_str("Saved wallpaper to ");
            text.append(path);
            text
        },
        Err(_) => String::from_str("Failed to download wallpaper"),
    }
}

/// Two downloads of one URL are saved under one name, whatever bytes
/// came back and whatever the policy: the name goes by the URL alone.
pub proof fn lemma_name_goes_by_url(
    url: Seq<char>,
    first: Option<Seq<u8>>,
    first_policy: DownloadPolicy,
    first_result: Result<SavePlan, DownloadError>,
    second: Option<Seq<u8>>,
    second_policy: DownloadPolicy,
    second_result: Result<SavePlan, DownloadError>,
)
    requires
        prepared(url, first, first_policy, first_result),
        prepared(url, second, second_policy, second_result),
        first_result is Ok,
        second_result is Ok,
    ensures
        first_result.unwrap().file_name@ == download_name(url),
        second_result.unwrap().file_name@ == download_name(url),
{
}

/// A request that failed yields no plan, and so no file: the error is
/// the network's, and the status line is the failure text.
pub proof fn lemma_failed_request_saves_nothing(
    url: Seq<char>,
    policy: DownloadPolicy,
    result: Result<SavePlan, DownloadError>,
)
    requires
        prepared(url, None, policy, result),
    ensures
        result == Err::<SavePlan, DownloadError>(DownloadError::Network),
        download_status_text(Err(DownloadError::Network)) == "Failed to download wallpaper"@,
{
}

} // verus!
