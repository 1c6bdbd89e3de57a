//! The inner loader's raw image, laid out in a section of fixed capacity.

use vstd::prelude::*;

verus! {

/// One mebibyte, in bytes.
pub const MB: usize = 0x10_0000;

/// Capacity of the loader section: two mebibytes less one byte.
pub const LOADER_SIZE: usize = 2 * MB - 1;

/// The contents of a section of `capacity` bytes that holds `image`:
/// the image's bytes in front, zeroes behind them.
pub open spec fn embedded(image: Seq<u8>, capacity: nat) -> Seq<u8> {
    Seq::new(
        capacity,
        |i: int|
            if i < image.len() {
                image[i]
            } else {
                0u8
            },
    )
}

/// Why an image was not embedded.
#[derive(Clone, Copy, Debug, PartialEq, Eq, Structural)]
pub enum EmbedError {
    /// The image has `length` bytes, more than the section's `capacity`.
    Oversized { length: usize, capacity: usize },
}

/// An embedded image is as long as the section, starts with the image's
/// bytes, unchanged and in order, and is zero from there to its end.
pub proof fn lemma_embedded_layout(image: Seq<u8>, capacity: nat)
    requires
        image.len() <= capacity,
    ensures
        embedded(image, capacity).len() == capacity,
        embedded(image, capacity).subrange(0, image.len() as int) == image,
        forall|i: int|
            image.len() <= i < capacity ==> #[trigger] embedded(image, capacity)[i] == 0u8,
{
    assert(embedded(image, capacity).subrange(0, image.len() as int) =~= image);
}

/// Lays `image` out in a section of `N` bytes.
///
/// The image must fit: an oversized image is never cut short.
pub fn embed<const N: usize>(image: &[u8]) -> (section: [u8; N])
    requires
        image@.len() <= N,
    ensures
        section@ == embedded(image@, N as nat),
{
    let mut section: [u8; N] = [0u8; N];
    let len: usize = image.len();
    let mut i: usize = 0;
    while i < len
        invariant
            len == image@.len(),
            len <= N,
            i <= len,
            section@.len() == N,
            forall|j: int| 0 <= j < i ==> #[trigger] section@[j] == image@[j],
            forall|j: int| i <= j < N ==> #[trigger] section@[j] == 0u8,
        decreases len - i,
    {
        section[i] = image[i];
        i += 1;
    }
    assert(section@ =~= embedded(image@, N as nat));
    section
}

/// Lays `image` out in a section of `N` bytes, or says that it is too long.
pub fn try_embed<const N: usize>(image: &[u8]) -> (outcome: Result<[u8; N], EmbedError>)
    ensures
        image@.len() <= N ==> outcome.is_ok() && outcome.unwrap()@ == embedded(
            image@,
            N as nat,
        ),
        image@.len() > N ==> outcome == Err::<[u8; N], EmbedError>(
            (EmbedError::Oversized { length: image@.len() as usize, capacity: N }),
        ),
{
    if image.len() > N {
        Err(EmbedError::Oversized { length: image.len(), capacity: N })
    } else {
        Ok(embed::<N>(image))
    }
}

/// The loader section of the kernel binary: `image` in front, zeroes up to
/// `LOADER_SIZE`. The section is too large for a stack, so it is built on
/// the heap.
pub fn new_loader(image: &[u8]) -> (loader: Vec<u8>)
    requires
        image@.len() <= LOADER_SIZE,
    ensures
        loader@ == embedded(image@, LOADER_SIZE as nat),
{
    let mut loader: Vec<u8> = Vec::new();
    loader.extend_from_slice(image);
    assert(loader@ =~= image@);
    while loader.len() < LOADER_SIZE
        invariant
            image@.len() <= loader@.len() <= LOADER_SIZE,
            loader@.subrange(0, image@.len() as int) == image@,
            forall|j: int| image@.len() <= j < loader@.len() ==> #[trigger] loader@[j] == 0u8,
        decreases LOADER_SIZE - loader@.len(),
    {
        let ghost before = loader@;
        loader.push(0u8);
        assert(loader@.subrange(0, image@.len() as int) =~= before.subrange(
            0,
            image@.len() as int,
        ));
    }
    assert(loader@ =~= embedded(image@, LOADER_SIZE as nat)) by {
        assert forall|j: int| 0 <= j < image@.len() implies loader@[j] == image@[j] by {
            assert(loader@.subrange(0, image@.len() as int)[j] == image@[j]);
        }
    }
    loader
}

/// The loader section for `image`, or the reason why there is none: an
/// image longer than `LOADER_SIZE` is refused, never cut short.
pub fn try_new_loader(image: &[u8]) -> (outcome: Result<Vec<u8>, EmbedError>)
    ensures
        image@.len() <= LOADER_SIZE ==> outcome.is_ok() && outcome.unwrap()@ == embedded(
            image@,
            LOADER_SIZE as nat,
        ),
        image@.len() > LOADER_SIZE ==> outcome == Err::<Vec<u8>, EmbedError>(
            (EmbedError::Oversized { length: image@.len() as usize, capacity: LOADER_SIZE }),
        ),
{
    if image.len() > LOADER_SIZE {
        Err(EmbedError::Oversized { length: image.len(), capacity: LOADER_SIZE })
    } else {
        Ok(new_loader(image))
    }
}

} // verus!
