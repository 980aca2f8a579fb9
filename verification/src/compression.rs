//! When a response is compressed.
//!
//! Compression is off unless a minimum size is configured. With one, a
//! response is compressed when the client accepts it, the response is larger
//! than the minimum, and its content is not an image.

use vstd::prelude::*;

verus! {

/// The size rule of compression: the minimum size, if one is configured.
#[derive(Clone, Copy, Debug, PartialEq, Eq)]
pub struct CompressionPredicate {
    size_above_opt: Option<usize>,
}

/// Whether the size rule lets a response of the given size be compressed. A
/// size that is not known passes a configured rule.
pub open spec fn size_passes(minimum: Option<usize>, size: Option<u64>) -> bool {
    match minimum {
        None => false,
        Some(minimum) => match size {
            Some(size) => size > minimum,
            None => true,
        },
    }
}

/// Whether a content type names an image.
pub open spec fn is_image(content_type: Seq<char>) -> bool {
    "image/"@.is_prefix_of(content_type)
}

/// Whether a response is compressed.
pub open spec fn compresses(
    minimum: Option<usize>,
    client_accepts: bool,
    size: Option<u64>,
    content_type: Seq<char>,
) -> bool {
    client_accepts && size_passes(minimum, size) && !is_image(content_type)
}

impl CompressionPredicate {
    /// The minimum size, if one is configured.
    pub closed spec fn minimum(&self) -> Option<usize> {
        self.size_above_opt
    }

    /// The size rule for the minimum size that the environment names, if it
    /// names one. The size is kept as it is named, however large.
    pub fn from_env(minimum_compression_size_opt: Option<usize>) -> (predicate: CompressionPredicate)
        ensures
            predicate.minimum() == minimum_compression_size_opt,
    {
        CompressionPredicate { size_above_opt: minimum_compression_size_opt }
    }

    /// Whether the size rule lets a response of the given size be
    /// compressed.
    pub fn should_compress(&self, size: Option<u64>) -> (pass: bool)
        ensures
            pass == size_passes(self.minimum(), size),
    {
        match self.size_above_opt {
            Some(size_above) => match size {
                Some(size) => size > size_above as u64,
                None => true,
            },
            None => false,
        }
    }

    /// Whether a response is compressed: the client accepts a compressed
    /// answer, the size rule passes, and the content is not an image.
    pub fn compresses_response(
        &self,
        client_accepts: bool,
        size: Option<u64>,
        content_type: &str,
    ) -> (compressed: bool)
        ensures
            compressed == compresses(self.minimum(), client_accepts, size, content_type@),
    {
        client_accepts && self.should_compress(size) && !is_image_type(content_type)
    }
}

/// Whether a content type names an image: it begins with `image/`.
pub fn is_image_type(content_type: &str) -> (image: bool)
    ensures
        image == is_image(content_type@),
{
    let prefix = "image/";
    proof {
        reveal_strlit("image/");
    }
    if content_type.unicode_len() < 6 {
        return false;
    }
    let mut i: usize = 0;
    while i < 6
        invariant
            i <= 6,
            prefix@.len() == 6,
            prefix@ == "image/"@,
            content_type@.len() >= 6,
            forall|j: int| 0 <= j < i ==> content_type@[j] == prefix@[j],
        decreases 6 - i,
    {
        if content_type.get_char(i) != prefix.get_char(i) {
            return false;
        }
        i += 1;
    }
    assert(content_type@.subrange(0, 6) =~= prefix@);
    true
}

/// Without a configured minimum no response is compressed, whatever its
/// size and whatever the client accepts.
pub proof fn lemma_unconfigured_never_compresses(
    client_accepts: bool,
    size: Option<u64>,
    content_type: Seq<char>,
)
    ensures
        !compresses(None, client_accepts, size, content_type),
{
}

/// With a minimum, a response that is not an image and goes to a client
/// that accepts compression is compressed exactly when it is larger than the
/// minimum.
pub proof fn lemma_compresses_above_minimum(minimum: usize, size: u64, content_type: Seq<char>)
    requires
        !is_image(content_type),
    ensures
        compresses(Some(minimum), true, Some(size), content_type) <==> size > minimum,
{
}

} // verus!
