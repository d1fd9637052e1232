//! Owned pixel and byte buffers.

use vstd::prelude::*;

verus! {

/// A decoded RGBA8 image. Without data it is the zeroed image that a caller sets
/// up before a render.
pub struct BlitzImage {
    /// The pixels, row by row from the top.
    pub data: Option<Vec<u8>>,
    pub width: u32,
    pub height: u32,
    /// Bytes per row.
    pub stride: u32,
}

/// What an image holds: its bytes, width, height and stride.
pub struct ImageModel {
    pub data: Option<Seq<u8>>,
    pub width: nat,
    pub height: nat,
    pub stride: nat,
}

impl View for BlitzImage {
    type V = ImageModel;

    open spec fn view(&self) -> ImageModel {
        ImageModel {
            data: bytes_of(self.data),
            width: self.width as nat,
            height: self.height as nat,
            stride: self.stride as nat,
        }
    }
}

/// The contents of an optional vector.
pub open spec fn bytes_of(data: Option<Vec<u8>>) -> Option<Seq<u8>> {
    match data {
        Some(v) => Some(v@),
        None => None,
    }
}

/// How many bytes the pixels of an image of this size take.
pub open spec fn pixel_bytes(width: nat, height: nat) -> nat {
    width * height * 4
}

impl ImageModel {
    /// The zeroed image.
    pub open spec fn zeroed() -> ImageModel {
        ImageModel { data: None, width: 0, height: 0, stride: 0 }
    }

    /// A rendered image: at least one pixel, four bytes for each, and a stride
    /// that steps over exactly one row.
    pub open spec fn rendered(self) -> bool {
        &&& self.data matches Some(d) && d.len() >= pixel_bytes(self.width, self.height)
        &&& self.width >= 1
        &&& self.height >= 1
        &&& self.stride == self.width * 4
    }
}

impl BlitzImage {
    /// A zeroed image, for initialising an out-parameter before a render call.
    pub fn empty() -> (image: BlitzImage)
        ensures
            image@ == ImageModel::zeroed(),
    {
        BlitzImage { data: None, width: 0, height: 0, stride: 0 }
    }

    /// The number of bytes held.
    pub fn len(&self) -> (n: usize)
        ensures
            n == match self@.data {
                Some(d) => d.len(),
                None => 0,
            },
    {
        match &self.data {
            Some(d) => d.len(),
            None => 0,
        }
    }
}

impl Default for BlitzImage {
    fn default() -> (image: BlitzImage)
        ensures
            image@ == ImageModel::zeroed(),
    {
        BlitzImage::empty()
    }
}

/// An owned byte run: an encoded PNG or an HTML document.
pub struct BlitzBuffer {
    pub data: Option<Vec<u8>>,
}

impl View for BlitzBuffer {
    type V = Option<Seq<u8>>;

    open spec fn view(&self) -> Option<Seq<u8>> {
        bytes_of(self.data)
    }
}

/// Hands a vector over as a buffer.
pub fn vec_into_buffer(v: Vec<u8>) -> (b: BlitzBuffer)
    ensures
        b.data == Some(v),
{
    BlitzBuffer { data: Some(v) }
}

/// Releases an image. A missing image is left alone, and an image that was
/// released before is as it was.
pub fn blitz_image_free(image: Option<&mut BlitzImage>)
    ensures
        image matches Some(i) ==> final(i)@ == ImageModel::zeroed(),
{
    match image {
        Some(i) => {
            *i = BlitzImage::empty();
        },
        None => {},
    }
}

/// Releases a buffer. A missing buffer is left alone, and a buffer that was
/// released before is as it was.
pub fn blitz_buffer_free(buf: Option<&mut BlitzBuffer>)
    ensures
        buf matches Some(b) ==> final(b)@ is None,
{
    match buf {
        Some(b) => {
            b.data = None;
        },
        None => {},
    }
}

/// Releasing is idempotent: what one call leaves and what a second call leaves are the
/// same image, and the same buffer.
pub proof fn law_freeing_twice_is_freeing_once(
    once: BlitzImage,
    twice: BlitzImage,
    buffer_once: BlitzBuffer,
    buffer_twice: BlitzBuffer,
)
    requires
        once@ == ImageModel::zeroed(),
        twice@ == ImageModel::zeroed(),
        buffer_once@ is None,
        buffer_twice@ is None,
    ensures
        once == twice,
        buffer_once == buffer_twice,
{
}

} // verus!
