//! Placing a key under the base: the flat namespace and the versioned one.

use vstd::prelude::*;
use vstd::string::*;
use crate::address::{join_url, url_joined, ResourceAddress, UrlView};
use crate::endpoint::Endpoint;
use crate::error::AddressError;

verus! {

/// The two ways in which a key is placed under the base.
#[derive(Debug, Clone, Copy, PartialEq, Eq, Structural)]
pub enum AddressFamily {
    /// The object is named by its token directly under the base.
    Flat,
    /// The object is named by its file name under the base's `v2/` segment.
    Versioned,
}

/// The path segment under which the versioned namespace lives.
pub open spec fn versioned_segment() -> Seq<char> {
    seq!['v', '2', '/']
}

/// A path closed by a slash: the path itself where it ends in one, and the
/// path with one slash added where it does not.
pub open spec fn closed_path(path: Seq<char>) -> Seq<char> {
    if path.len() > 0 && path.last() == '/' {
        path
    } else {
        path.push('/')
    }
}

/// The reference that names a path as a directory: a slash and a dot
/// segment, then the closed path. A join drops the dot segment; with it in
/// front the reference never begins with two slashes, whatever the path
/// begins with, and so is read as a path and never as an authority.
pub open spec fn directory_reference(path: Seq<char>) -> Seq<char> {
    seq!['/', '.'] + closed_path(path)
}

/// An address is kept where it has the base's authority.
pub open spec fn kept(base: UrlView, address: UrlView) -> Result<UrlView, AddressError> {
    if address.authority == base.authority {
        Ok(address)
    } else {
        Err(AddressError::ForeignAuthority)
    }
}

/// The directory under which the keys of a family live: the base as a
/// directory, and for the versioned family its `v2/` segment below that. The
/// base has to carry both references, and the root has to have the base's
/// authority.
pub open spec fn family_root(base: UrlView, family: AddressFamily) -> Result<
    UrlView,
    AddressError,
> {
    match url_joined(base.text, directory_reference(base.path)) {
        None => Err(AddressError::InvalidBase),
        Some(directory) => match family {
            AddressFamily::Flat => kept(base, directory),
            AddressFamily::Versioned => match url_joined(directory.text, versioned_segment()) {
                None => Err(AddressError::InvalidBase),
                Some(root) => kept(base, root),
            },
        },
    }
}

/// What becomes of a key that was joined onto its root: it has to have
/// joined, and to have stayed under the base's authority.
pub open spec fn confined(base: UrlView, joined: Option<UrlView>) -> Result<UrlView, AddressError> {
    match joined {
        None => Err(AddressError::InvalidKey),
        Some(address) => kept(base, address),
    }
}

/// What resolution yields: the key joined onto its family's root, refused
/// where the key is empty, a join fails, or the root or the result leaves
/// the base's authority.
pub open spec fn resolved(base: UrlView, family: AddressFamily, key: Seq<char>) -> Result<
    UrlView,
    AddressError,
> {
    if key.len() == 0 {
        Err(AddressError::EmptyKey)
    } else {
        match family_root(base, family) {
            Err(error) => Err(error),
            Ok(root) => confined(base, url_joined(root.text, key)),
        }
    }
}

/// Whether an outcome is the one that resolution yields: the address, part
/// for part, or the error.
pub open spec fn is_resolution(
    base: UrlView,
    family: AddressFamily,
    key: Seq<char>,
    outcome: Result<ResourceAddress, AddressError>,
) -> bool {
    match outcome {
        Ok(address) => resolved(base, family, key) == Ok::<UrlView, AddressError>(address@),
        Err(error) => resolved(base, family, key) == Err::<UrlView, AddressError>(error),
    }
}

/// The reference that names `path` as a directory: a slash and a dot
/// segment, then `path`, then a slash unless `path` ends in one.
pub fn directory_path(path: &str) -> (reference: String)
    ensures
        reference@ == directory_reference(path@),
{
    let length: usize = path.unicode_len();
    let mut reference = String::from_str("/.");
    reference.append(path);
    proof {
        reveal_strlit("/.");
        assert(reference@ =~= seq!['/', '.'] + path@);
    }
    if length == 0 || path.get_char(length - 1) != '/' {
        reference.append("/");
        proof {
            reveal_strlit("/");
            assert(reference@ =~= seq!['/', '.'] + path@.push('/'));
        }
    }
    reference
}

/// The URL that `reference` joins to against `base`, if it joins.
fn join(base: &ResourceAddress, reference: &str) -> (joined: Option<ResourceAddress>)
    ensures
        match joined {
            Some(address) => url_joined(base@.text, reference@) == Some(address@),
            None => url_joined(base@.text, reference@) is None,
        },
{
    match join_url(base.as_str(), reference) {
        Ok(address) => Some(address),
        Err(_) => None,
    }
}

/// Hands the address on where it has the base's authority.
pub fn keep(base: &ResourceAddress, address: ResourceAddress) -> (outcome: Result<
    ResourceAddress,
    AddressError,
>)
    ensures
        match outcome {
            Ok(same) => same == address && address@.authority == base@.authority,
            Err(error) => error == AddressError::ForeignAuthority && address@.authority
                != base@.authority,
        },
        match outcome {
            Ok(same) => kept(base@, address@) == Ok::<UrlView, AddressError>(same@),
            Err(error) => kept(base@, address@) == Err::<UrlView, AddressError>(error),
        },
{
    if address.same_authority(base) {
        Ok(address)
    } else {
        Err(AddressError::ForeignAuthority)
    }
}

/// The directory under which the keys of `family` live below `base`. It is
/// refused where the base cannot carry relative references, and where it
/// would not lie under the base's authority.
pub fn root_of(base: &ResourceAddress, family: AddressFamily) -> (found: Result<
    ResourceAddress,
    AddressError,
>)
    ensures
        match found {
            Ok(root) => family_root(base@, family) == Ok::<UrlView, AddressError>(root@),
            Err(error) => family_root(base@, family) == Err::<UrlView, AddressError>(error),
        },
        found matches Ok(root) ==> root@.authority == base@.authority,
{
    let reference = directory_path(base.path());
    match join(base, reference.as_str()) {
        None => Err(AddressError::InvalidBase),
        Some(directory) => match family {
            AddressFamily::Flat => keep(base, directory),
            AddressFamily::Versioned => {
                proof {
                    reveal_strlit("v2/");
                    assert("v2/"@ =~= versioned_segment());
                }
                match join(&directory, "v2/") {
                    None => Err(AddressError::InvalidBase),
                    Some(root) => keep(base, root),
                }
            },
        },
    }
}

/// Decides on a key that was joined onto its root: the address is handed on
/// where the join succeeded and the address has the base's authority.
pub fn confine(base: &ResourceAddress, joined: Option<ResourceAddress>) -> (outcome: Result<
    ResourceAddress,
    AddressError,
>)
    ensures
        match outcome {
            Ok(address) => joined == Some(address) && address@.authority == base@.authority,
            Err(error) => confined(
                base@,
                match joined {
                    Some(address) => Some(address@),
                    None => None,
                },
            ) == Err::<UrlView, AddressError>(error),
        },
{
    match joined {
        None => Err(AddressError::InvalidKey),
        Some(address) => keep(base, address),
    }
}

/// The address of the object that `key` names in `family` under the
/// endpoint's base.
///
/// An empty key is refused. So is a key whose address would lie under
/// another authority than the base's: a key is a relative reference and
/// never moves the request to another server.
pub fn resolve(endpoint: &Endpoint, family: AddressFamily, key: &str) -> (outcome: Result<
    ResourceAddress,
    AddressError,
>)
    ensures
        is_resolution(endpoint@.base, family, key@, outcome),
        outcome matches Ok(address) ==> address@.authority == endpoint@.base.authority,
        key@.len() == 0 ==> outcome == Err::<ResourceAddress, AddressError>(AddressError::EmptyKey),
{
    let base = endpoint.base();
    if key.is_empty() {
        return Err(AddressError::EmptyKey);
    }
    match root_of(base, family) {
        Err(error) => Err(error),
        Ok(root) => confine(base, join(&root, key)),
    }
}

/// Every root and every address that resolution yields lies under the
/// base's authority, whatever the base's path, the family and the key.
pub proof fn lemma_resolved_keeps_authority(base: UrlView, family: AddressFamily, key: Seq<char>)
    ensures
        family_root(base, family) matches Ok(root) ==> root.authority == base.authority,
        resolved(base, family, key) matches Ok(address) ==> address.authority == base.authority,
        key.len() == 0 ==> resolved(base, family, key) == Err::<UrlView, AddressError>(
            AddressError::EmptyKey,
        ),
{
}

/// Resolving the same key in the same family against the same base again
/// yields the same: two outcomes of resolution are both the same address,
/// part for part, or both the same error.
pub proof fn lemma_resolution_repeats(
    base: UrlView,
    family: AddressFamily,
    key: Seq<char>,
    first: Result<ResourceAddress, AddressError>,
    second: Result<ResourceAddress, AddressError>,
)
    requires
        is_resolution(base, family, key, first),
        is_resolution(base, family, key, second),
    ensures
        match (first, second) {
            (Ok(one), Ok(other)) => one@ == other@,
            (Err(one), Err(other)) => one == other,
            _ => false,
        },
{
}

/// The directory reference of a path is a path and nothing else: it begins
/// with one slash and a dot, so never with two slashes, whatever the path
/// begins with. After that it holds the path, and ends in exactly the slash
/// that the path ended in or lacked, so that a path with and without its
/// closing slash give the same reference. No slash is ever doubled by it.
pub proof fn lemma_directory_reference_adds_one_slash(path: Seq<char>)
    ensures
        directory_reference(path).len() >= 3,
        directory_reference(path)[0] == '/',
        directory_reference(path)[1] == '.',
        directory_reference(path).last() == '/',
        directory_reference(path).skip(2) == closed_path(path),
        path.is_prefix_of(closed_path(path)),
        closed_path(path).len() <= path.len() + 1,
        closed_path(closed_path(path)) == closed_path(path),
        closed_path(path.push('/')) == path.push('/'),
        !(path.len() > 0 && path.last() == '/') ==> directory_reference(path)
            == directory_reference(path.push('/')),
{
    assert(directory_reference(path).skip(2) =~= closed_path(path));
}

} // verus!
