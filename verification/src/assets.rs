//! Uploaded image assets: their kind, dimensions and content hash, and the
//! asset record with its identifiers, storage path and URL.

use vstd::prelude::*;
use vstd::string::StringExecFns;
use crate::text::{decimal, decimal_string, hex_lower, to_hex_lower, str_eq, starts_with, str_starts_with};

verus! {

/// Why an upload cannot be made an image asset.
#[derive(Debug, Clone, Copy, PartialEq, Eq, Structural)]
pub enum ImageSizeError {
    /// The data is no image format that `imagesize` reads.
    NotSupported,
    /// The data ends before the image's size is found.
    CorruptedImage,
    /// Reading the data failed.
    Io,
}

/// The kind that `infer::get` recognises in a buffer from its leading
/// bytes: the MIME type and the file extension, if the kind is known.
pub uninterp spec fn inferred_kind(buf: Seq<u8>) -> Option<(Seq<char>, Seq<char>)>;

/// The dimensions (width, height) that `imagesize::blob_size` reads from an
/// image in a buffer, or why it cannot.
pub uninterp spec fn image_dimensions(buf: Seq<u8>) -> Result<(usize, usize), ImageSizeError>;

/// The SHA-1 digest of a byte sequence as `sha1_smol` computes it.
pub uninterp spec fn sha1_digest(data: Seq<u8>) -> Seq<u8>;

/// Recognises the kind of a buffer with `infer::get`: the MIME type and
/// extension of the matched kind, or `None`. The result is named by
/// `inferred_kind` of the buffer.
#[verifier::external_body]
fn infer_kind(buf: &[u8]) -> (r: Option<(String, String)>)
    ensures
        match r {
            Some((m, e)) => inferred_kind(buf@) == Some((m@, e@)),
            None => inferred_kind(buf@) is None,
        },
{
    infer::get(buf).map(|k| (k.mime_type().to_string(), k.extension().to_string()))
}

/// Reads an image's dimensions with `imagesize::blob_size`; its error
/// variants are told apart one for one. The result is named by
/// `image_dimensions` of the buffer.
#[verifier::external_body]
fn blob_size(buf: &[u8]) -> (r: Result<(usize, usize), ImageSizeError>)
    ensures
        r == image_dimensions(buf@),
{
    match imagesize::blob_size(buf) {
        Ok(size) => Ok((size.width, size.height)),
        Err(imagesize::ImageError::NotSupported) => Err(ImageSizeError::NotSupported),
        Err(imagesize::ImageError::CorruptedImage) => Err(ImageSizeError::CorruptedImage),
        Err(imagesize::ImageError::IoError(_)) => Err(ImageSizeError::Io),
    }
}

/// Hashes data with `sha1_smol::Sha1` and gives the digest's bytes
/// (`Digest::bytes`), twenty of them as SHA-1 has 160 bits. The bytes are
/// named by `sha1_digest` of the data.
#[verifier::external_body]
fn sha1_bytes(data: &[u8]) -> (r: Vec<u8>)
    ensures
        r@ == sha1_digest(data@),
        r@.len() == 20,
{
    sha1_smol::Sha1::from(data).digest().bytes().to_vec()
}

/// The SHA-1 digest of the data in lower-case hexadecimal, as
/// `sha1_smol::Digest` writes it.
pub fn sha1_hex(data: &[u8]) -> (r: String)
    ensures
        r@ == hex_lower(sha1_digest(data@)),
        r@.len() == 40,
{
    let d = sha1_bytes(data);
    let r = to_hex_lower(d.as_slice());
    proof {
        crate::text::lemma_hex_lower_len(d@);
    }
    r
}

/// The MIME type of data without a recognised kind.
pub open spec fn default_mime() -> Seq<char> {
    "application/octetstream"@
}

/// The MIME type and extension of an upload: those of the kind recognised
/// in its leading bytes, else `application/octetstream` and no extension.
pub fn get_mime_type(buf: &[u8]) -> (r: (String, String))
    ensures
        match inferred_kind(buf@) {
            Some((m, e)) => r.0@ == m && r.1@ == e,
            None => r.0@ == default_mime() && r.1@ == Seq::<char>::empty(),
        },
{
    match infer_kind(buf) {
        Some((m, e)) => (m, e),
        None => {
            proof {
                reveal_strlit("");
            }
            ("application/octetstream".to_owned(), "".to_owned())
        },
    }
}

/// The width and height of an uploaded image.
pub fn get_image_size(buf: &[u8]) -> (r: Result<(usize, usize), ImageSizeError>)
    ensures
        r == image_dimensions(buf@),
{
    blob_size(buf)
}

/// The record of a stored image upload.
#[derive(Debug)]
pub struct ImageAsset {
    pub _id: String,
    pub _type: String,
    pub asset_id: String,
    pub extension: String,
    pub mime_type: String,
    pub original_filename: String,
    pub path: String,
    pub upload_id: String,
    pub size: usize,
    pub sha1hash: String,
    pub url: String,
    pub width: usize,
    pub height: usize,
}

/// `hash-WxH`, the stem shared by an asset's identifier and its file name.
pub open spec fn asset_stem(hash: Seq<char>, width: usize, height: usize) -> Seq<char> {
    hash + "-"@ + decimal(width as nat) + "x"@ + decimal(height as nat)
}

/// The file name of an asset: `hash-WxH.ext`.
pub open spec fn asset_path(hash: Seq<char>, width: usize, height: usize, ext: Seq<char>) -> Seq<
    char,
> {
    asset_stem(hash, width, height) + "."@ + ext
}

/// The identifier of an asset: `hash-WxH-ext`.
pub open spec fn asset_id_of(hash: Seq<char>, width: usize, height: usize, ext: Seq<char>) -> Seq<
    char,
> {
    asset_stem(hash, width, height) + "-"@ + ext
}

/// The URL of an asset of a dataset: `/images/dataset/path`.
pub open spec fn asset_url(pname: Seq<char>, path: Seq<char>) -> Seq<char> {
    "/images/"@ + pname + "/"@ + path
}

/// Appends the characters of `b` to `a`.
fn push_str(a: &mut String, b: &str)
    ensures
        final(a)@ == old(a)@ + b@,
{
    a.append(b);
}

impl ImageAsset {
    /// The record of an image upload to dataset `pname` whose content has
    /// the given hash, kind, size and dimensions.
    pub fn new_from_upload(
        pname: &String,
        hash: &String,
        extension: &String,
        mime_type: &String,
        size: usize,
        orig_name: String,
        width: usize,
        height: usize,
    ) -> (r: ImageAsset)
        ensures
            r._id@ == hash@,
            r._type@ == "_sh.asset"@,
            r.asset_id@ == asset_id_of(hash@, width, height, extension@),
            r.extension@ == extension@,
            r.mime_type@ == mime_type@,
            r.original_filename@ == orig_name@,
            r.path@ == asset_path(hash@, width, height, extension@),
            r.upload_id@ == Seq::<char>::empty(),
            r.size == size,
            r.sha1hash@ == hash@,
            r.url@ == asset_url(pname@, asset_path(hash@, width, height, extension@)),
            r.width == width,
            r.height == height,
    {
        let mut stem = hash.clone();
        push_str(&mut stem, "-");
        push_str(&mut stem, decimal_string(width).as_str());
        push_str(&mut stem, "x");
        push_str(&mut stem, decimal_string(height).as_str());
        let mut path = stem.clone();
        push_str(&mut path, ".");
        push_str(&mut path, extension.as_str());
        let mut asset_id = stem;
        push_str(&mut asset_id, "-");
        push_str(&mut asset_id, extension.as_str());
        let mut url = "/images/".to_owned();
        push_str(&mut url, pname.as_str());
        push_str(&mut url, "/");
        push_str(&mut url, path.as_str());
        proof {
            reveal_strlit("");
        }
        ImageAsset {
            _id: hash.clone(),
            _type: "_sh.asset".to_owned(),
            asset_id,
            extension: extension.clone(),
            mime_type: mime_type.clone(),
            original_filename: orig_name,
            path,
            upload_id: "".to_owned(),
            size,
            sha1hash: hash.clone(),
            url,
            width,
            height,
        }
    }
}

/// The asset record for image data uploaded to dataset `pname` under the
/// given file name: its kind, dimensions and SHA-1 hash are read from the
/// data; an upload whose dimensions cannot be read is refused.
pub fn image_asset_from_upload(pname: &String, filename: String, data: &[u8]) -> (r: Result<
    ImageAsset,
    ImageSizeError,
>)
    ensures
        match image_dimensions(data@) {
            Err(e) => r == Err::<ImageAsset, ImageSizeError>(e),
            Ok((w, h)) => r matches Ok(a) && {
                let hash = hex_lower(sha1_digest(data@));
                let ext = match inferred_kind(data@) {
                    Some((_, e)) => e,
                    None => Seq::<char>::empty(),
                };
                let mime = match inferred_kind(data@) {
                    Some((m, _)) => m,
                    None => default_mime(),
                };
                &&& a._id@ == hash
                &&& a.sha1hash@ == hash
                &&& a._type@ == "_sh.asset"@
                &&& a.extension@ == ext
                &&& a.mime_type@ == mime
                &&& a.original_filename@ == filename@
                &&& a.size == data@.len()
                &&& a.width == w
                &&& a.height == h
                &&& a.path@ == asset_path(hash, w, h, ext)
                &&& a.asset_id@ == asset_id_of(hash, w, h, ext)
                &&& a.url@ == asset_url(pname@, asset_path(hash, w, h, ext))
                &&& a.upload_id@ == Seq::<char>::empty()
            },
        },
{
    let size = data.len();
    let (mime, ext) = get_mime_type(data);
    let (w, h) = match get_image_size(data) {
        Ok(d) => d,
        Err(e) => {
            return Err(e);
        },
    };
    let hash = sha1_hex(data);
    Ok(ImageAsset::new_from_upload(pname, &hash, &ext, &mime, size, filename, w, h))
}

/// How an upload's body is read, by its content type.
#[derive(Debug, Clone, Copy, PartialEq, Eq, Structural)]
pub enum UploadKind {
    /// A multipart form.
    Multipart,
    /// A bare JPEG image.
    Jpeg,
    /// Any other content type: the upload is refused.
    Unsupported,
}

/// The way an upload with the given content type is read: a multipart form
/// when the type starts with `multipart/form-data`, a bare image for
/// `image/jpeg`, and refused otherwise.
pub fn upload_kind(content_type: &str) -> (r: UploadKind)
    ensures
        r == (if starts_with(content_type@, "multipart/form-data"@) {
            UploadKind::Multipart
        } else if content_type@ == "image/jpeg"@ {
            UploadKind::Jpeg
        } else {
            UploadKind::Unsupported
        }),
{
    if str_starts_with(content_type, "multipart/form-data") {
        UploadKind::Multipart
    } else if str_eq(content_type, "image/jpeg") {
        UploadKind::Jpeg
    } else {
        UploadKind::Unsupported
    }
}

/// A multipart upload whose first part is named `filepond` carries the
/// file in its second part.
pub fn file_in_second_part(first_name: &str) -> (r: bool)
    ensures
        r == (first_name@ == "filepond"@),
{
    str_eq(first_name, "filepond")
}

} // verus!
