//! The content type announced for an uploaded file, judged by its name.

use vstd::prelude::*;
use vstd::string::*;

verus! {

/// The first media type that `mime_guess` lists for a file extension, as its
/// essence (type, slash, subtype), if it lists any.
pub uninterp spec fn guessed_media_type(extension: Seq<char>) -> Option<Seq<char>>;

/// Looks the extension up with `mime_guess::from_ext`, takes the first media
/// type of the guess with `MimeGuess::first`, and reads its essence with
/// `Mime::essence_str`. The contract names the outcome, which depends on the
/// extension alone, and states the one thing the crate documents whatever
/// its table holds: an empty extension has no media type. `first` parses
/// the table's entry; the crate's own tests hold every entry to parse.
#[verifier::external_body]
fn guess_media_type(extension: &str) -> (guess: Option<String>)
    ensures
        match guess {
            Some(media_type) => guessed_media_type(extension@) == Some(media_type@),
            None => guessed_media_type(extension@) is None,
        },
        extension@.len() == 0 ==> guess is None,
{
    match mime_guess::from_ext(extension).first() {
        Some(media_type) => Some(media_type.essence_str().to_string()),
        None => None,
    }
}

/// The media type of arbitrary bytes.
pub open spec fn octet_stream() -> Seq<char> {
    "application/octet-stream"@
}

/// The index of the last dot of a file name, if it has one.
pub open spec fn last_dot(name: Seq<char>) -> Option<int>
    decreases name.len(),
{
    if name.len() == 0 {
        None
    } else if name.last() == '.' {
        Some(name.len() - 1)
    } else {
        last_dot(name.drop_last())
    }
}

/// The extension of a file name: what follows its last dot, and nothing
/// where it has no dot.
pub open spec fn extension_of(name: Seq<char>) -> Seq<char> {
    match last_dot(name) {
        Some(dot) => name.skip(dot + 1),
        None => Seq::empty(),
    }
}

/// The media type inferred for a file name: the one guessed for its
/// extension, and the octet stream where none is.
pub open spec fn inferred_media_type(name: Seq<char>) -> Seq<char> {
    match guessed_media_type(extension_of(name)) {
        Some(media_type) => media_type,
        None => octet_stream(),
    }
}

/// The last dot is a dot, lies inside the name, and no dot follows it; where
/// there is none, the name holds no dot at all.
pub proof fn lemma_last_dot(name: Seq<char>)
    ensures
        match last_dot(name) {
            Some(dot) => {
                &&& 0 <= dot < name.len()
                &&& name[dot] == '.'
                &&& forall|i: int| dot < i < name.len() ==> name[i] != '.'
            },
            None => forall|i: int| 0 <= i < name.len() ==> name[i] != '.',
        },
    decreases name.len(),
{
    if name.len() > 0 && name.last() != '.' {
        let shorter = name.drop_last();
        lemma_last_dot(shorter);
        assert forall|i: int| 0 <= i < shorter.len() implies shorter[i] == name[i] by {}
    }
}

/// An extension holds no dot, and a name with a dot is its stem, a dot and
/// its extension.
pub proof fn lemma_extension_splits_name(name: Seq<char>)
    ensures
        forall|i: int| 0 <= i < extension_of(name).len() ==> extension_of(name)[i] != '.',
        extension_of(name).len() <= name.len(),
        match last_dot(name) {
            Some(dot) => name == name.take(dot) + seq!['.'] + extension_of(name),
            None => extension_of(name).len() == 0,
        },
{
    lemma_last_dot(name);
    match last_dot(name) {
        Some(dot) => {
            assert(name =~= name.take(dot) + seq!['.'] + name.skip(dot + 1));
        },
        None => {},
    }
}

/// The extension of a file name.
pub fn extension(name: &str) -> (found: &str)
    ensures
        found@ == extension_of(name@),
{
    let length: usize = name.unicode_len();
    let mut end: usize = length;
    proof {
        assert(name@.take(length as int) =~= name@);
    }
    while end > 0
        invariant
            end <= length,
            length == name@.len(),
            last_dot(name@) == last_dot(name@.take(end as int)),
        decreases end,
    {
        if name.get_char(end - 1) == '.' {
            proof {
                assert(name@.take(end as int).last() == '.');
            }
            return name.substring_char(end, length);
        }
        proof {
            assert(name@.take(end as int).drop_last() =~= name@.take(end - 1));
        }
        end = end - 1;
    }
    proof {
        assert(name@.take(0).len() == 0);
    }
    name.substring_char(length, length)
}

/// The media type to go by: the guess where there is one, the octet stream
/// where there is none.
pub fn or_octet_stream(guess: Option<String>) -> (media_type: String)
    ensures
        media_type@ == match guess {
            Some(guessed) => guessed@,
            None => octet_stream(),
        },
{
    match guess {
        Some(guessed) => guessed,
        None => String::from_str("application/octet-stream"),
    }
}

/// The media type to announce for a file of this name. Never fails: a name
/// without an extension, or with one that is not known, is an octet stream.
pub fn infer_mime(filename: &str) -> (media_type: String)
    ensures
        media_type@ == inferred_media_type(filename@),
        extension_of(filename@).len() == 0 ==> media_type@ == octet_stream(),
{
    or_octet_stream(guess_media_type(extension(filename)))
}

} // verus!
