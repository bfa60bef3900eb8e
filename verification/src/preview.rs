//! Preview-image descriptors: handle-scoped byproducts of a loaded file.
//!
//! A preview descriptor is cheap, stateless metadata (dimensions, size,
//! media type, file extension) about one preview image found in the loaded
//! file. It is bound to its parent handle by reference, never by ownership:
//! fetching the pixel data or writing them to a file re-derives a transient
//! native image object from the parent handle on every call and releases it
//! before returning, so the operations here demand a live parent handle and
//! take the transient object's reply as plain values.

use vstd::prelude::*;
use vstd::utf8::{decode_utf8, valid_utf8};

use crate::errors::{ErrorView, Rexiv2Error};
use crate::handle::Metadata;
use crate::marshal::{decode_c_string, string_reply_decoded, utf8_failure_for};
use crate::media_type::{spec_media_type_of_name, MediaType};

verus! {

/// A descriptor for one preview image: plain values captured from the
/// engine's preview-properties object, which stays owned by the parent
/// handle.
#[derive(Clone, Debug, PartialEq, Eq)]
pub struct PreviewImage {
    size: u32,
    width: u32,
    height: u32,
    mime_type: Option<Vec<u8>>,
    extension: Option<Vec<u8>>,
}

impl PreviewImage {
    /// The size of the preview image in bytes, as reported.
    pub closed spec fn spec_size(self) -> u32 {
        self.size
    }

    /// The raw media-type reply captured from the properties object.
    pub closed spec fn spec_mime_type(self) -> Option<Vec<u8>> {
        self.mime_type
    }

    /// The raw extension reply captured from the properties object.
    pub closed spec fn spec_extension(self) -> Option<Vec<u8>> {
        self.extension
    }

    /// The width of the preview image, as reported.
    pub closed spec fn spec_width(self) -> u32 {
        self.width
    }

    /// The height of the preview image, as reported.
    pub closed spec fn spec_height(self) -> u32 {
        self.height
    }

    /// Capture a descriptor from the values of one entry of the engine's
    /// preview-properties array. The array itself is owned by the parent
    /// handle: nothing is freed. Requires a live parent: descriptors exist
    /// only for open handles.
    pub fn from_properties(
        parent: &Metadata,
        size: u32,
        width: u32,
        height: u32,
        mime_type: Option<Vec<u8>>,
        extension: Option<Vec<u8>>,
    ) -> (r: PreviewImage)
        requires
            parent.is_open(),
        ensures
            r.spec_size() == size,
            r.spec_width() == width,
            r.spec_height() == height,
            r.spec_mime_type() == mime_type,
            r.spec_extension() == extension,
    {
        PreviewImage { size, width, height, mime_type, extension }
    }

    /// The size of the preview image in bytes.
    pub fn get_size(&self) -> (r: u32)
        ensures
            r == self.spec_size(),
    {
        self.size
    }

    /// The width of the preview image.
    pub fn get_width(&self) -> (r: u32)
        ensures
            r == self.spec_width(),
    {
        self.width
    }

    /// The height of the preview image.
    pub fn get_height(&self) -> (r: u32)
        ensures
            r == self.spec_height(),
    {
        self.height
    }

    /// The media type of the preview image, classified from the captured
    /// reply: absent when the engine reported none, preserved verbatim when
    /// unrecognized.
    pub fn get_media_type(&self) -> (r: Result<MediaType, Rexiv2Error>)
        ensures
            self.spec_mime_type() is None ==> (r matches Err(e) && e@ is NoValue),
            self.spec_mime_type() matches Some(bytes) ==> {
                &&& valid_utf8(bytes@) ==> (r matches Ok(t) && t@ == spec_media_type_of_name(
                    decode_utf8(bytes@),
                ))
                &&& !valid_utf8(bytes@) ==> (r matches Err(e) && utf8_failure_for(bytes@, e@))
            },
    {
        match decode_c_string(self.mime_type.clone()) {
            Ok(s) => Ok(MediaType::from_name(s.as_str())),
            Err(e) => Err(e),
        }
    }

    /// The preview image's recommended file extension, decoded from the
    /// captured reply: absent when the engine reported none.
    pub fn get_extension(&self) -> (r: Result<String, Rexiv2Error>)
        ensures
            string_reply_decoded(self.spec_extension(), r),
    {
        decode_c_string(self.extension.clone())
    }

    /// Decision half of fetching the pixel data: a transient native image
    /// object is derived from the live parent handle, its length-tagged
    /// buffer is copied out, and the object is released before returning. A
    /// null buffer means no value; otherwise the bytes are handed over
    /// verbatim.
    pub fn get_data(&self, parent: &Metadata, reply: Option<Vec<u8>>) -> (r: Result<
        Vec<u8>,
        Rexiv2Error,
    >)
        requires
            parent.is_open(),
        ensures
            reply is None ==> (r matches Err(e) && e@ is NoValue),
            reply matches Some(bytes) ==> (r matches Ok(d) && d@ == bytes@),
    {
        match reply {
            None => Err(Rexiv2Error::NoValue),
            Some(bytes) => Ok(bytes),
        }
    }

    /// Decision half of writing the preview to a file: the transient native
    /// image object reports how many bytes it wrote. The write succeeded
    /// exactly when that count is the preview's full size; any other count
    /// is an engine failure, which carries no message.
    pub fn save_to_file(&self, parent: &Metadata, written: i64) -> (r: Result<(), Rexiv2Error>)
        requires
            parent.is_open(),
        ensures
            written == self.spec_size() ==> r is Ok,
            written != self.spec_size() ==> (r matches Err(e) && e@ == (ErrorView::Internal {
                message: None,
            })),
    {
        if written == self.size as i64 {
            Ok(())
        } else {
            Err(Rexiv2Error::Internal(None))
        }
    }
}

} // verus!
