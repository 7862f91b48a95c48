//! Content types of uploaded files and the plan for uploading a directory
//! tree under a key prefix.
use vstd::prelude::*;
use vstd::string::*;
use crate::text::{forward_slashes, same_text, with_forward_slashes};

verus! {

/// Content types the output store is told about.
#[derive(Clone, Copy, Debug, PartialEq, Eq, Structural)]
pub enum ContentType {
    HlsPlaylist,
    MpegTs,
    Mp4,
    Jpeg,
}

/// The MIME type of a content type.
pub open spec fn mime_of(t: ContentType) -> Seq<char> {
    match t {
        ContentType::HlsPlaylist => "application/vnd.apple.mpegurl"@,
        ContentType::MpegTs => "video/mp2t"@,
        ContentType::Mp4 => "video/mp4"@,
        ContentType::Jpeg => "image/jpeg"@,
    }
}

/// The content type given to a file with this extension; files with any
/// other extension, or none, go up untyped.
pub open spec fn content_type_of(ext: Option<Seq<char>>) -> Option<ContentType> {
    match ext {
        Some(e) => if e == "m3u8"@ {
            Some(ContentType::HlsPlaylist)
        } else if e == "ts"@ {
            Some(ContentType::MpegTs)
        } else if e == "mp4"@ {
            Some(ContentType::Mp4)
        } else {
            None
        },
        None => None,
    }
}

/// The characters of an optional string.
pub open spec fn opt_text(o: Option<String>) -> Option<Seq<char>> {
    match o {
        Some(s) => Some(s@),
        None => None,
    }
}

/// The extension of the last component of a path, as the platform's path
/// rules give it.
pub uninterp spec fn extension_of(path: Seq<char>) -> Option<Seq<char>>;

/// Relies on std::path::Path::extension, read back as UTF-8 text: the
/// extension of the path's file name, if it has one.
#[verifier::external_body]
fn path_extension(path: &str) -> (r: Option<String>)
    ensures
        opt_text(r) == extension_of(path@),
{
    std::path::Path::new(path).extension().and_then(|e| e.to_str()).map(|e| e.to_string())
}

impl ContentType {
    /// The MIME type.
    pub fn mime(&self) -> (r: &'static str)
        ensures
            r@ == mime_of(*self),
    {
        match self {
            ContentType::HlsPlaylist => "application/vnd.apple.mpegurl",
            ContentType::MpegTs => "video/mp2t",
            ContentType::Mp4 => "video/mp4",
            ContentType::Jpeg => "image/jpeg",
        }
    }
}

/// The content type for a file extension.
pub fn content_type_for_extension(ext: Option<&str>) -> (r: Option<ContentType>)
    ensures
        r == content_type_of(match ext {
            Some(e) => Some(e@),
            None => None,
        }),
{
    match ext {
        Some(e) => if same_text(e, "m3u8") {
            Some(ContentType::HlsPlaylist)
        } else if same_text(e, "ts") {
            Some(ContentType::MpegTs)
        } else if same_text(e, "mp4") {
            Some(ContentType::Mp4)
        } else {
            None
        },
        None => None,
    }
}

/// The content type for a file, by the extension of its path.
pub fn content_type_for(path: &str) -> (r: Option<ContentType>)
    ensures
        r == content_type_of(extension_of(path@)),
{
    let ext = path_extension(path);
    match ext {
        Some(e) => content_type_for_extension(Some(e.as_str())),
        None => content_type_for_extension(None),
    }
}

/// One file of a tree to upload.
pub struct UploadItem {
    /// Path of the file relative to the tree's root, as listed.
    pub local: String,
    /// Object key it is stored under.
    pub key: String,
    pub content_type: Option<ContentType>,
}

/// Key of a file of a tree: the prefix, then its relative path with `/` as
/// separator.
pub open spec fn tree_key_of(prefix: Seq<char>, rel: Seq<char>) -> Seq<char> {
    prefix + forward_slashes(rel)
}

/// What to upload for each file of a tree, in the order listed: the file's
/// key under `prefix` and its content type.
pub fn plan_tree_upload(prefix: &str, files: &Vec<String>) -> (r: Vec<UploadItem>)
    ensures
        r@.len() == files@.len(),
        forall|i: int| 0 <= i < files@.len() ==> {
            &&& (#[trigger] r@[i]).local@ == files@[i]@
            &&& r@[i].key@ == tree_key_of(prefix@, files@[i]@)
            &&& r@[i].content_type == content_type_of(extension_of(files@[i]@))
        },
{
    let mut r: Vec<UploadItem> = Vec::new();
    let mut i: usize = 0;
    while i < files.len()
        invariant
            i <= files@.len(),
            r@.len() == i,
            forall|k: int| 0 <= k < i ==> {
                &&& (#[trigger] r@[k]).local@ == files@[k]@
                &&& r@[k].key@ == tree_key_of(prefix@, files@[k]@)
                &&& r@[k].content_type == content_type_of(extension_of(files@[k]@))
            },
        decreases files@.len() - i,
    {
        let rel = files[i].as_str();
        let norm = with_forward_slashes(rel);
        let key = String::from_str(prefix).concat(norm.as_str());
        let item = UploadItem { local: String::from_str(rel), key, content_type: content_type_for(rel) };
        r.push(item);
        i = i + 1;
    }
    r
}

} // verus!
