use vstd::prelude::*;
use vstd::string::{StrSliceExecFns, StringExecFns};

use crate::error::Error;

verus! {

#[verifier::external_type_specification]
#[verifier::external_body]
pub struct ExDynamicImage(image::DynamicImage);

/// Whether `bytes` hold an image in a format that the decoder recognises.
pub uninterp spec fn decodes(bytes: Seq<u8>) -> bool;

/// Relies on `image::load_from_memory`: it guesses the format from the bytes and decodes
/// them, failing exactly when they are not an image it can read.
#[verifier::external_body]
pub(crate) fn decode(bytes: &[u8]) -> (r: Option<image::DynamicImage>)
    ensures
        r.is_some() == decodes(bytes@),
{
    image::load_from_memory(bytes).ok()
}

/// The JPEG encoding of the picture that `bytes` decode to; none when they do not decode
/// or the encoder refuses the picture.
pub uninterp spec fn jpeg_of(bytes: Seq<u8>) -> Option<Seq<u8>>;

/// Relies on `image::load_from_memory` and then `DynamicImage::write_to` with
/// `ImageFormat::Jpeg` into an in-memory cursor: the picture re-encoded as JPEG, which is
/// had only from bytes that decode.
#[verifier::external_body]
fn reencode_jpeg(bytes: &[u8]) -> (r: Option<Vec<u8>>)
    ensures
        r.is_some() ==> decodes(bytes@),
        match r {
            Some(d) => jpeg_of(bytes@) == Some(d@),
            None => jpeg_of(bytes@).is_none(),
        },
{
    let img = image::load_from_memory(bytes).ok()?;
    let mut out = std::io::Cursor::new(Vec::new());
    img.write_to(&mut out, image::ImageFormat::Jpeg).ok()?;
    Some(out.into_inner())
}

/// The directory that saved pictures go to, relative to the working directory.
pub open spec fn save_dir_of() -> Seq<char> {
    seq!['D', 'o', 'g', 's']
}

/// The path of the saved picture: `Dogs/dog_<breed>_<file_name>.jpeg`.
pub open spec fn save_path_of(breed: Seq<char>, file_name: Seq<char>) -> Seq<char> {
    save_dir_of() + seq!['/', 'd', 'o', 'g', '_'] + breed + seq!['_'] + file_name + seq![
        '.',
        'j',
        'p',
        'e',
        'g',
    ]
}

/// The directory that saved pictures go to.
pub fn save_dir() -> (r: String)
    ensures
        r@ == save_dir_of(),
{
    let r = String::from_str("Dogs");
    proof {
        reveal_strlit("Dogs");
        assert(r@ =~= save_dir_of());
    }
    r
}

/// The path that a picture of `breed` named `file_name` is saved to.
pub fn save_path(breed: &str, file_name: &str) -> (r: String)
    ensures
        r@ == save_path_of(breed@, file_name@),
{
    let mut r = save_dir();
    r.append("/dog_");
    r.append(breed);
    r.append("_");
    r.append(file_name);
    r.append(".jpeg");
    proof {
        reveal_strlit("/dog_");
        reveal_strlit("_");
        reveal_strlit(".jpeg");
        assert(r@ =~= save_path_of(breed@, file_name@));
    }
    r
}

/// A file to write: the directory to create if absent, the path inside it, and the content.
#[derive(Debug, Clone, PartialEq, Eq)]
pub struct SaveJob {
    pub dir: String,
    pub path: String,
    pub data: Vec<u8>,
}

/// What a save of the picture `bytes` of `breed` named `file_name` ends in: a file at the
/// fixed path holding the JPEG re-encoding of the picture when there is one; otherwise
/// `Decode` when the bytes are no image and `Io` when the encoder refuses the picture.
pub open spec fn save_outcome(
    bytes: Seq<u8>,
    breed: Seq<char>,
    file_name: Seq<char>,
    r: Result<SaveJob, Error>,
) -> bool {
    match jpeg_of(bytes) {
        Some(data) => r matches Ok(job) && job.dir@ == save_dir_of() && job.path@ == save_path_of(
            breed,
            file_name,
        ) && job.data@ == data,
        None => if decodes(bytes) {
            r == Err::<SaveJob, Error>(Error::Io)
        } else {
            r == Err::<SaveJob, Error>(Error::Decode)
        },
    }
}

/// Prepares saving the picture `bytes` of `breed` named `file_name`: it is decoded and
/// encoded again as JPEG, to be written at `Dogs/dog_<breed>_<file_name>.jpeg`.
/// `Decode` when the bytes are no image, `Io` when the encoder refuses the picture.
pub fn save(bytes: &[u8], breed: &str, file_name: &str) -> (r: Result<SaveJob, Error>)
    ensures
        save_outcome(bytes@, breed@, file_name@, r),
        r matches Err(Error::Decode) <==> !decodes(bytes@),
        r is Ok <==> jpeg_of(bytes@) is Some,
{
    match reencode_jpeg(bytes) {
        Some(data) => Ok(SaveJob { dir: save_dir(), path: save_path(breed, file_name), data }),
        None => match decode(bytes) {
            None => Err(Error::Decode),
            Some(_) => Err(Error::Io),
        },
    }
}

/// Saving twice under the same breed and name: once a save of `bytes` succeeded, a second
/// save of the same bytes succeeds too and writes the same content to the same path, and a
/// save of other bytes writes their own JPEG encoding to that same path, so the last write wins.
pub proof fn lemma_save_twice(
    bytes: Seq<u8>,
    other: Seq<u8>,
    breed: Seq<char>,
    file_name: Seq<char>,
    first: Result<SaveJob, Error>,
    again: Result<SaveJob, Error>,
    replaced: Result<SaveJob, Error>,
)
    requires
        first is Ok,
        save_outcome(bytes, breed, file_name, first),
        save_outcome(bytes, breed, file_name, again),
        save_outcome(other, breed, file_name, replaced),
    ensures
        again is Ok,
        first->Ok_0.path@ == again->Ok_0.path@,
        first->Ok_0.data@ == again->Ok_0.data@,
        replaced matches Ok(job) ==> job.path@ == first->Ok_0.path@ && Some(job.data@) == jpeg_of(
            other,
        ),
{
}

} // verus!
