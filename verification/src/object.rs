//! Tagged documents for catalog ingestion, and fresh-identifier generation.
//!
//! A tagged document is a plain record: an identifier, a text content, and
//! an ordered list of string tags.  Conversion to the text that gets
//! embedded is total over this type.

use vstd::prelude::*;

use crate::namemap::seq_get;

verus! {

/// The length of every generated identifier.
pub const GENERATED_ID_LEN: usize = 21;

/// Relies on nanoid's `format` with its default random source and URL-safe
/// alphabet: the identifier is random, 21 characters long.
#[verifier::external_body]
pub fn fresh_id() -> (r: String)
    ensures
        r@.len() == GENERATED_ID_LEN,
{
    nanoid::format(nanoid::rngs::default, &nanoid::alphabet::SAFE, 21)
}

/// A generic tagged document: an identifier, a text content, and arbitrary
/// string tags (latest binding of a tag key wins).
pub struct DeepThoughtObject {
    pub id: String,
    pub content: String,
    pub tags: Vec<(String, String)>,
}

impl DeepThoughtObject {
    /// A document over `content` with a freshly generated identifier and no
    /// tags.
    pub fn from_str(content: &str) -> (r: Self)
        ensures
            r.id@.len() == GENERATED_ID_LEN,
            r.content@ == content@,
            r.tags@.len() == 0,
    {
        DeepThoughtObject { id: fresh_id(), content: content.to_owned(), tags: Vec::new() }
    }

    /// The value of tag `key`, if set.
    pub open spec fn spec_tag(&self, key: Seq<char>) -> Option<String> {
        seq_get(self.tags@, key)
    }

    /// Bind tag `key` to `value`; a later binding of the same key wins.
    pub fn set_tag(&mut self, key: &str, value: &str)
        ensures
            final(self).id == old(self).id,
            final(self).content == old(self).content,
            final(self).tags@.len() == old(self).tags@.len() + 1,
            final(self).tags@.drop_last() == old(self).tags@,
            final(self).tags@.last().0@ == key@,
            final(self).tags@.last().1@ == value@,
    {
        self.tags.push((key.to_owned(), value.to_owned()));
        proof {
            assert(self.tags@.drop_last() =~= old(self).tags@);
        }
    }
}

} // verus!
