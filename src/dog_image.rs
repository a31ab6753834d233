use vstd::prelude::*;
use vstd::string::{StrSliceExecFns, StringExecFns};

use crate::error::Error;
use crate::save::{decode, decodes};

verus! {

/// The breed that every fetched picture is filed under.
pub open spec fn placeholder_breed() -> Seq<char> {
    seq!['a', 'n', 'y']
}

/// The placeholder breed that pictures are filed under.
pub fn any_breed() -> (r: String)
    ensures
        r@ == placeholder_breed(),
{
    let r = String::from_str("any");
    proof {
        reveal_strlit("any");
        assert(r@ =~= placeholder_breed());
    }
    r
}

/// Position of the last `'/'` among the first `n` characters of `s`, or -1 when there is none.
pub open spec fn last_slash(s: Seq<char>, n: int) -> int
    decreases n,
{
    if n <= 0 {
        -1
    } else if s[n - 1] == '/' {
        n - 1
    } else {
        last_slash(s, n - 1)
    }
}

/// The final path segment of a URL: the text after its last `'/'`, when there is such a
/// character and the text after it is not empty.
pub open spec fn file_name_of(url: Seq<char>) -> Option<Seq<char>> {
    let i = last_slash(url, url.len() as int);
    if i < 0 || i + 1 >= url.len() {
        None
    } else {
        Some(url.subrange(i + 1, url.len() as int))
    }
}

/// The file name of the picture at `url`, or `UpstreamProtocol` when the URL has none.
pub fn file_name(url: &str) -> (r: Result<String, Error>)
    ensures
        match r {
            Ok(name) => file_name_of(url@) == Some(name@),
            Err(e) => file_name_of(url@).is_none() && e == Error::UpstreamProtocol,
        },
{
    let n = url.unicode_len();
    let mut i: usize = n;
    while i > 0 && url.get_char(i - 1) != '/'
        invariant
            n == url@.len(),
            0 <= i <= n,
            last_slash(url@, n as int) == last_slash(url@, i as int),
        decreases i,
    {
        i = i - 1;
    }
    if i == 0 || i == n {
        Err(Error::UpstreamProtocol)
    } else {
        Ok(String::from_str(url.substring_char(i, n)))
    }
}

/// The text of the string field `message` of the JSON object in `body`; none when `body`
/// is not JSON, is not an object, or has no such string field.
pub uninterp spec fn message_of(body: Seq<char>) -> Option<Seq<char>>;

/// Relies on `serde_json::from_str` into a `serde_json::Value`, then `Value::get` and
/// `Value::as_str`: the field `message` read as a string, when the body parses.
#[verifier::external_body]
fn message_field(body: &str) -> (r: Option<String>)
    ensures
        match r {
            Some(m) => message_of(body@) == Some(m@),
            None => message_of(body@).is_none(),
        },
{
    let value: serde_json::Value = serde_json::from_str(body).ok()?;
    value.get("message")?.as_str().map(String::from)
}

/// The image URL that the random-image endpoint answered with, given the text of its body;
/// `UpstreamProtocol` when the body is malformed or lacks the `message` field.
pub fn resolve_image_url(body: &str) -> (r: Result<String, Error>)
    ensures
        match r {
            Ok(url) => message_of(body@) == Some(url@),
            Err(e) => message_of(body@).is_none() && e == Error::UpstreamProtocol,
        },
{
    match message_field(body) {
        Some(url) => Ok(url),
        None => Err(Error::UpstreamProtocol),
    }
}

proof fn lemma_last_slash_skips(s: Seq<char>, k: int, j: int)
    requires
        0 <= k < j <= s.len(),
        s[k] == '/',
        forall|t: int| k < t < j ==> s[t] != '/',
    ensures
        last_slash(s, j) == k,
    decreases j - k,
{
    if j > k + 1 {
        lemma_last_slash_skips(s, k, j - 1);
    }
}

/// A URL that ends in `/` followed by a non-empty name free of `/` has exactly that name
/// as its file name, whatever comes before the slash.
pub proof fn lemma_file_name_of_url(prefix: Seq<char>, name: Seq<char>)
    requires
        name.len() > 0,
        forall|t: int| 0 <= t < name.len() ==> name[t] != '/',
    ensures
        file_name_of(prefix + seq!['/'] + name) == Some(name),
{
    let url = prefix + seq!['/'] + name;
    let k = prefix.len() as int;
    assert forall|t: int| k < t < url.len() implies url[t] != '/' by {
        assert(url[t] == name[t - k - 1]);
    }
    lemma_last_slash_skips(url, k, url.len() as int);
    assert(url.subrange(k + 1, url.len() as int) =~= name);
}

/// Whatever endpoint body names a URL that ends in `/` and a non-empty name free of `/`,
/// the picture built from it is filed under exactly that name.
pub proof fn lemma_fetch_file_name(body: Seq<char>, prefix: Seq<char>, name: Seq<char>)
    requires
        message_of(body) == Some(prefix + seq!['/'] + name),
        name.len() > 0,
        forall|t: int| 0 <= t < name.len() ==> name[t] != '/',
    ensures
        message_of(body) matches Some(url) && file_name_of(url) == Some(name),
{
    lemma_file_name_of_url(prefix, name);
}

/// A downloaded dog picture: the raw bytes and the name it is filed under.
#[derive(Debug, Clone, PartialEq, Eq)]
pub struct DogImage {
    pub breed: String,
    pub file_name: String,
    pub bytes: Vec<u8>,
}

impl DogImage {
    /// A picture is well formed when it carries bytes only together with a file name.
    pub open spec fn wf(&self) -> bool {
        self.bytes@.len() > 0 ==> self.file_name@.len() > 0
    }

    /// The picture downloaded from `url` as `bytes`, filed under `breed` and the last
    /// segment of the URL; `UpstreamProtocol` when the URL has no such segment.
    pub fn new(breed: &String, url: &str, bytes: Vec<u8>) -> (r: Result<DogImage, Error>)
        ensures
            match r {
                Ok(img) => {
                    &&& file_name_of(url@) == Some(img.file_name@)
                    &&& img.breed@ == breed@
                    &&& img.bytes@ == bytes@
                    &&& img.wf()
                },
                Err(e) => file_name_of(url@).is_none() && e == Error::UpstreamProtocol,
            },
    {
        match file_name(url) {
            Ok(file_name) => Ok(DogImage { breed: breed.clone(), file_name, bytes }),
            Err(e) => Err(e),
        }
    }

    /// The picture decoded for display; `Decode` when its bytes are no image.
    pub fn decoded(&self) -> (r: Result<image::DynamicImage, Error>)
        ensures
            r is Ok <==> decodes(self.bytes@),
            r matches Err(e) ==> e == Error::Decode,
    {
        match decode(self.bytes.as_slice()) {
            Some(img) => Ok(img),
            None => Err(Error::Decode),
        }
    }
}

/// What the application keeps between clicks: the breed searched for and the picture shown.
#[derive(Debug, Clone, PartialEq, Eq)]
pub struct AppState {
    pub breed: String,
    pub dog_image: DogImage,
}

} // verus!
