//! Lower-level helpers for those who write middleware or build on the
//! service interface directly.

use crate::message::Response;
use vstd::prelude::*;

verus! {

/// A pattern with a slash put in front, unless it is empty or starts with
/// one already.
pub open spec fn with_slash(pattern: Seq<char>) -> Seq<char> {
    if pattern.len() > 0 && pattern[0] != '/' {
        seq!['/'] + pattern
    } else {
        pattern
    }
}

/// `str::starts_with` with a character as the pattern: whether the string
/// begins with that character.
#[verifier::external_body]
fn starts_with_char(text: &str, first: char) -> (starts: bool)
    ensures
        starts == (text@.len() > 0 && text@[0] == first),
{
    text.starts_with(first)
}

/// `String::insert` at index 0: puts the character in front of the string.
#[verifier::external_body]
fn push_front(text: &mut String, first: char)
    ensures
        final(text)@ == seq![first] + old(text)@,
{
    text.insert(0, first)
}

/// Puts a slash in front of every pattern that is not empty and does not
/// start with one.
pub fn insert_slash(mut patterns: Vec<String>) -> (slashed: Vec<String>)
    ensures
        slashed.len() == patterns.len(),
        forall|i: int|
            0 <= i < slashed.len() ==> (#[trigger] slashed[i])@ == with_slash(patterns[i]@),
{
    let ghost given = patterns@;
    let mut i: usize = 0;
    while i < patterns.len()
        invariant
            i <= patterns.len(),
            patterns.len() == given.len(),
            forall|j: int| 0 <= j < i ==> (#[trigger] patterns[j])@ == with_slash(given[j]@),
            forall|j: int| i <= j < patterns.len() ==> patterns[j] == given[j],
        decreases patterns.len() - i,
    {
        let path = &mut patterns[i];
        if !path.as_str().is_empty() && !starts_with_char(path.as_str(), '/') {
            push_front(path, '/');
        }
        i += 1;
    }
    patterns
}

/// How the body of a response is encoded.
#[derive(Clone, Copy, Debug, PartialEq, Eq, Structural)]
pub enum ContentEncoding {
    /// Chosen by what the client accepts.
    Auto,
    /// Brotli.
    Br,
    /// Deflate.
    Deflate,
    /// Gzip.
    Gzip,
    /// Not encoded.
    Identity,
}

/// Setting a specific encoding for a response.
pub trait BodyEncoding: Sized {
    /// The encoding that was set, if one was. Where an implementation does
    /// not say what it is, it is something that goes with the state of the
    /// implementation.
    open spec fn chosen_encoding(&self) -> Option<ContentEncoding> {
        vstd::pervasive::arbitrary::<spec_fn(&Self) -> Option<ContentEncoding>>()(self)
    }

    /// The encoding that was set, if one was.
    fn get_encoding(&self) -> (encoding: Option<ContentEncoding>)
        ensures
            encoding == self.chosen_encoding(),
    ;

    /// Sets the encoding, in place of one that was set before.
    fn encoding(&mut self, encoding: ContentEncoding) -> (this: &mut Self)
        ensures
            this.chosen_encoding() == Some(encoding),
            *final(self) == *final(this),
    ;
}

impl<B> BodyEncoding for Response<B> {
    open spec fn chosen_encoding(&self) -> Option<ContentEncoding> {
        self.encoding
    }

    fn get_encoding(&self) -> (encoding: Option<ContentEncoding>) {
        self.encoding
    }

    fn encoding(&mut self, encoding: ContentEncoding) -> (this: &mut Self) {
        self.encoding = Some(encoding);
        self
    }
}

} // verus!
