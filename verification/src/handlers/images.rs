//! What the image endpoints decide: which part of an upload is the image,
//! whether it may be stored, and under which name.

use vstd::prelude::*;
use vstd::string::StringExecFns;
use crate::error::{fails_with, AppError, AppResult, ErrorKind, STATUS_CREATED};
use crate::services::storage::{is_uuid_text, new_uuid_text};
use crate::text::{
    decimal, lowercase_text, opt_text, push_decimal, str_eq, to_lowercase,
};

verus! {

/// The answer to an upload.
#[derive(Debug, Clone)]
pub struct ImageUploadResponse {
    pub url: String,
    pub filename: String,
    pub size: usize,
}

/// The name of the part of an upload that holds the image.
pub const IMAGE_FIELD: &'static str = "image";

/// Whether a content type is that of an image, or the type under which
/// some browsers send one.
pub open spec fn is_image_type(content_type: Seq<char>) -> bool {
    ||| content_type == "image/jpeg"@
    ||| content_type == "image/jpg"@
    ||| content_type == "image/png"@
    ||| content_type == "image/gif"@
    ||| content_type == "image/webp"@
    ||| content_type == "image/pjpeg"@
    ||| content_type == "application/octet-stream"@
}

/// Tests whether a content type is that of an image.
pub fn is_image_content_type(content_type: &str) -> (r: bool)
    ensures
        r == is_image_type(content_type@),
{
    str_eq(content_type, "image/jpeg") || str_eq(content_type, "image/jpg") || str_eq(
        content_type,
        "image/png",
    ) || str_eq(content_type, "image/gif") || str_eq(content_type, "image/webp") || str_eq(
        content_type,
        "image/pjpeg",
    ) || str_eq(content_type, "application/octet-stream")
}

/// Whether an extension, already in lower case, is that of an image.
pub open spec fn is_image_suffix(extension: Seq<char>) -> bool {
    ||| extension == "jpg"@
    ||| extension == "jpeg"@
    ||| extension == "png"@
    ||| extension == "gif"@
    ||| extension == "webp"@
}

/// Whether a name is read alike on every platform: it holds no backslash
/// and no colon, which some platforms read as separator and as drive, and
/// does not begin with two slashes, where some platforms look for a server.
pub open spec fn is_portable_name(name: Seq<char>) -> bool {
    &&& forall|i: int| 0 <= i < name.len() ==> #[trigger] name[i] != '\\' && name[i] != ':'
    &&& name.len() >= 2 ==> !(name[0] == '/' && name[1] == '/')
}

/// What follows the last slash of a name; the whole name where it holds no
/// slash.
pub open spec fn last_segment(name: Seq<char>) -> Seq<char>
    decreases name.len(),
{
    if name.len() == 0 || name.last() == '/' {
        Seq::empty()
    } else {
        last_segment(name.drop_last()).push(name.last())
    }
}

/// The file name of a path: its last segment between slashes, slashes at the
/// end and segments `.` being passed over. A path without segment has no
/// file name, and neither has one whose last segment is `..`.
pub open spec fn file_name_of(name: Seq<char>) -> Option<Seq<char>>
    decreases name.len(),
{
    if name.len() == 0 {
        None
    } else if name.last() == '/' {
        file_name_of(name.drop_last())
    } else if last_segment(name) == seq!['.'] {
        file_name_of(name.drop_last())
    } else if last_segment(name) == seq!['.', '.'] {
        None
    } else {
        Some(last_segment(name))
    }
}

/// The extension of a file name: what follows its last full stop, unless
/// the name has none or has its only one in front.
pub open spec fn plain_extension(name: Seq<char>) -> Option<Seq<char>> {
    if exists|k: int| 0 < k < name.len() && name[k] == '.' {
        let k = choose|k: int|
            0 < k < name.len() && name[k] == '.' && forall|j: int|
                k < j < name.len() ==> name[j] != '.';
        Some(name.subrange(k + 1, name.len() as int))
    } else {
        None
    }
}

/// The extension of the file that a path names, where it names one that
/// has an extension.
pub open spec fn extension_of(name: Seq<char>) -> Option<Seq<char>> {
    match file_name_of(name) {
        Some(file_name) => plain_extension(file_name),
        None => None,
    }
}

/// The extension of the file that a path names. Wraps `Path::extension` of
/// std, which gives the part of the file name behind its last full stop, and
/// nothing where the path has no file name, the file name has no full stop,
/// or its only full stop stands in front. The file name is the last
/// component of the path; repeated and trailing separators and components
/// `.` are passed over, and a path that ends in `..` has no file name. The
/// slash separates components on every platform. What a backslash, a colon
/// or two slashes in front mean depends on the platform, so the result for
/// such names is left open.
#[verifier::external_body]
pub(crate) fn path_extension(filename: &str) -> (r: Option<String>)
    ensures
        is_portable_name(filename@) ==> opt_text(r) == extension_of(filename@),
{
    match std::path::Path::new(filename).extension() {
        Some(extension) => match extension.to_str() {
            Some(text) => Some(text.to_string()),
            None => None,
        },
        None => None,
    }
}

/// Tests whether an extension is that of an image, whatever its case.
pub fn extension_is_image(extension: &str) -> (r: bool)
    ensures
        r == is_image_suffix(lowercase_text(extension@)),
{
    let lowered = to_lowercase(extension);
    let e = lowered.as_str();
    str_eq(e, "jpg") || str_eq(e, "jpeg") || str_eq(e, "png") || str_eq(e, "gif") || str_eq(
        e,
        "webp",
    )
}

/// Whether a path names a file with the extension of an image, whatever the
/// case of the extension. A file without extension has none.
pub open spec fn has_image_extension(name: Seq<char>) -> bool {
    match extension_of(name) {
        Some(e) => is_image_suffix(lowercase_text(e)),
        None => false,
    }
}

/// Tests whether the name of a file ends in the extension of an image.
pub fn is_image_extension(filename: &str) -> (r: bool)
    ensures
        is_portable_name(filename@) ==> r == has_image_extension(filename@),
{
    match path_extension(filename) {
        Some(extension) => extension_is_image(extension.as_str()),
        None => false,
    }
}

/// The name under which an upload is stored: the time of the upload in
/// milliseconds, a UUID and the extension, as `time_uuid.extension`.
pub open spec fn unique_name(timestamp_millis: u128, uuid: Seq<char>, extension: Seq<char>) -> Seq<
    char,
> {
    decimal(timestamp_millis as nat) + "_"@ + uuid + "."@ + extension
}

/// The name under which an upload is stored, from its three parts.
pub fn unique_filename(timestamp_millis: u128, uuid: &str, extension: &str) -> (r: String)
    ensures
        r@ == unique_name(timestamp_millis, uuid@, extension@),
{
    let mut r = String::new();
    push_decimal(&mut r, timestamp_millis);
    r.append("_");
    r.append(uuid);
    r.append(".");
    r.append(extension);
    proof {
        assert(r@ =~= unique_name(timestamp_millis, uuid@, extension@));
    }
    r
}

/// A name for an upload that no other upload has: the time of the upload, a
/// fresh random UUID, and the extension of the name that the file came
/// with, or `jpg` where it has none.
pub fn generate_unique_filename(original_filename: &str, timestamp_millis: u128) -> (r: String)
    ensures
        exists|uuid: Seq<char>, extension: Seq<char>|
            is_uuid_text(uuid) && #[trigger] unique_name(timestamp_millis, uuid, extension) == r@
                && (is_portable_name(original_filename@) ==> extension == match extension_of(
                original_filename@,
            ) {
                Some(e) => e,
                None => "jpg"@,
            }),
{
    let extension = match path_extension(original_filename) {
        Some(e) => e,
        None => String::from_str("jpg"),
    };
    let uuid = new_uuid_text();
    let r = unique_filename(timestamp_millis, uuid.as_str(), extension.as_str());
    proof {
        assert(unique_name(timestamp_millis, uuid@, extension@) == r@);
    }
    r
}

/// The image of an upload: the name of its file and its content type.
#[derive(Debug, Clone)]
pub struct ImageField {
    pub filename: String,
    pub content_type: String,
}

/// The text of a part's property, or the given text where the part does not
/// state the property.
pub open spec fn stated_or(value: Option<&str>, fallback: Seq<char>) -> Seq<char> {
    match value {
        Some(s) => s@,
        None => fallback,
    }
}

/// The complaint about an upload that is no image.
pub open spec fn not_an_image(content_type: Seq<char>, filename: Seq<char>) -> Seq<char> {
    "Only image files are allowed (JPEG, PNG, GIF, WebP). Got content-type: "@ + content_type
        + ", filename: "@ + filename
}

/// Whether `r` is what becomes of a part of an upload, the extension of its
/// file name being or not being that of an image: a part under another name
/// than `image` is passed over; the image is taken where its content type or
/// the extension of its file name is that of an image, and refused
/// otherwise. A part without file name counts as `image.jpg`, one without
/// content type as `application/octet-stream`.
pub open spec fn is_field_outcome(
    r: AppResult<Option<ImageField>>,
    name: Option<&str>,
    file_name: Option<&str>,
    content_type: Option<&str>,
    extension_valid: bool,
) -> bool {
    let filename = stated_or(file_name, "image.jpg"@);
    let kind = stated_or(content_type, "application/octet-stream"@);
    if stated_or(name, ""@) != IMAGE_FIELD@ {
        r matches Ok(None)
    } else if is_image_type(kind) || extension_valid {
        r matches Ok(Some(field)) && field.filename@ == filename && field.content_type@ == kind
    } else {
        fails_with(r, ErrorKind::BadRequest, not_an_image(kind, filename))
    }
}

/// Looks at one part of an upload, given whether the extension of its file
/// name is that of an image.
pub fn upload_image_field_checked(
    name: Option<&str>,
    file_name: Option<&str>,
    content_type: Option<&str>,
    extension_valid: bool,
) -> (r: AppResult<Option<ImageField>>)
    ensures
        is_field_outcome(r, name, file_name, content_type, extension_valid),
{
    let name = match name {
        Some(n) => n,
        None => "",
    };
    if !str_eq(name, IMAGE_FIELD) {
        return Ok(None);
    }
    let filename = match file_name {
        Some(f) => f,
        None => "image.jpg",
    };
    let content_type = match content_type {
        Some(c) => c,
        None => "application/octet-stream",
    };
    let content_type_valid = is_image_content_type(content_type);
    if !content_type_valid && !extension_valid {
        let mut m = String::from_str(
            "Only image files are allowed (JPEG, PNG, GIF, WebP). Got content-type: ",
        );
        m.append(content_type);
        m.append(", filename: ");
        m.append(filename);
        return Err(AppError::BadRequest(m));
    }
    Ok(
        Some(
            ImageField {
                filename: String::from_str(filename),
                content_type: String::from_str(content_type),
            },
        ),
    )
}

/// Looks at one part of an upload. A part under another name than `image`
/// is passed over. The image is taken where its content type or the
/// extension of its file name is that of an image, and refused otherwise.
pub fn upload_image_field(
    name: Option<&str>,
    file_name: Option<&str>,
    content_type: Option<&str>,
) -> (r: AppResult<Option<ImageField>>)
    ensures
        exists|extension_valid: bool|
            #[trigger] is_field_outcome(r, name, file_name, content_type, extension_valid) && (
            is_portable_name(stated_or(file_name, "image.jpg"@)) ==> extension_valid
                == has_image_extension(stated_or(file_name, "image.jpg"@))),
{
    let filename = match file_name {
        Some(f) => f,
        None => "image.jpg",
    };
    let extension_valid = is_image_extension(filename);
    let r = upload_image_field_checked(name, file_name, content_type, extension_valid);
    proof {
        assert(is_field_outcome(r, name, file_name, content_type, extension_valid));
    }
    r
}

/// The complaint about an upload that is too large.
pub open spec fn too_large(max_file_size: usize) -> Seq<char> {
    "File size exceeds "@ + decimal((max_file_size / 1048576) as nat) + "MB limit"@
}

/// Looks at the size of an upload after one more piece of it has arrived:
/// the upload is refused as soon as it exceeds the largest size.
pub fn upload_image_chunk(received: usize, max_file_size: usize) -> (r: AppResult<()>)
    ensures
        received > max_file_size ==> fails_with(r, ErrorKind::BadRequest, too_large(max_file_size)),
        received <= max_file_size ==> r is Ok,
{
    if received > max_file_size {
        let mut m = String::from_str("File size exceeds ");
        push_decimal(&mut m, (max_file_size / 1048576) as u128);
        m.append("MB limit");
        return Err(AppError::BadRequest(m));
    }
    Ok(())
}

/// The failure of an upload that holds no image.
pub fn upload_image_missing() -> (e: AppError)
    ensures
        e.is(ErrorKind::BadRequest, "No image field found in multipart data"@),
{
    AppError::BadRequest(String::from_str("No image field found in multipart data"))
}

/// The answer to an upload that was stored: the status for "created", and
/// where and under which name the image lies.
pub fn upload_image(url: String, unique_filename: String, size: usize) -> (r: (
    u16,
    ImageUploadResponse,
))
    ensures
        r.0 == STATUS_CREATED,
        r.1.url == url,
        r.1.filename == unique_filename,
        r.1.size == size,
{
    (STATUS_CREATED, ImageUploadResponse { url, filename: unique_filename, size })
}

} // verus!
