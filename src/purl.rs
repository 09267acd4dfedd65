use vstd::prelude::*;
use cyclonedx_bom::external_models::uri::{Purl, UriError};
use crate::document::opt_view;
use crate::error::SbomError;
use crate::package::{Origin, Package, PackageView};

verus! {

#[verifier::external_type_specification]
#[verifier::external_body]
pub struct ExUriError(UriError);

/// The text of the package URL that `Purl::new` builds from a package type,
/// name and version.
pub uninterp spec fn purl_text(ty: Seq<char>, name: Seq<char>, version: Seq<char>) -> Seq<char>;

/// A character that the package URL format accepts as a package type.
pub open spec fn is_type_char(c: char) -> bool {
    c == '.' || c == '-' || c == '+' || ('a' <= c <= 'z') || ('A' <= c <= 'Z') || ('0' <= c <= '9')
}

/// A valid package type: not empty, not starting with a digit, and made of
/// type characters only.
pub open spec fn is_valid_purl_type(ty: Seq<char>) -> bool {
    &&& ty.len() > 0
    &&& !('0' <= ty[0] <= '9')
    &&& forall|i: int| 0 <= i < ty.len() ==> is_type_char(#[trigger] ty[i])
}

/// A character that a package URL carries as it is, without percent-encoding.
pub open spec fn is_unescaped_char(c: char) -> bool {
    ||| 'a' <= c <= 'z'
    ||| 'A' <= c <= 'Z'
    ||| '0' <= c <= '9'
    ||| c == '-' || c == '.' || c == '_' || c == '+' || c == '~'
}

/// Every character of `s` is carried as it is.
pub open spec fn is_unescaped(s: Seq<char>) -> bool {
    forall|i: int| 0 <= i < s.len() ==> is_unescaped_char(#[trigger] s[i])
}

/// The package type of crates.io packages.
pub open spec fn cargo_type() -> Seq<char> {
    seq!['c', 'a', 'r', 'g', 'o']
}

/// `pkg:<ty>/<name>@<version>`, with nothing escaped.
pub open spec fn plain_purl(ty: Seq<char>, name: Seq<char>, version: Seq<char>) -> Seq<char> {
    seq!['p', 'k', 'g', ':'] + ty + seq!['/'] + name + seq!['@'] + version
}

/// Relies on cyclonedx_bom's `Purl::new` and its `to_string`: it fails exactly
/// when packageurl rejects the package type, and otherwise writes
/// `pkg:<type>/<name>@<version>`, where the version is trimmed and the name
/// and version are percent-encoded (so a cargo name and version made of
/// unescaped characters stand as they are).
#[verifier::external_body]
fn package_url(ty: &str, name: &str, version: &str) -> (r: Result<String, UriError>)
    ensures
        r is Ok <==> is_valid_purl_type(ty@),
        r matches Ok(s) ==> s@ == purl_text(ty@, name@, version@),
        r matches Ok(s) ==> (ty@ == cargo_type() && is_unescaped(name@) && is_unescaped(version@)
            ==> s@ == plain_purl(ty@, name@, version@)),
{
    Purl::new(ty, name, version).map(|p| p.to_string())
}

/// The package URL of a package: one of the cargo type for crates.io
/// packages, none for the others.
pub open spec fn locator_of(p: PackageView) -> Option<Seq<char>> {
    match p.origin {
        Origin::CratesIo => Some(purl_text(cargo_type(), p.name, p.version)),
        Origin::Other => None,
    }
}

/// Derives the package URL of a package.
pub fn to_purl(package: &Package) -> (r: Result<Option<String>, SbomError>)
    ensures
        r matches Ok(o) && opt_view(o) == locator_of(package@),
        package.origin == Origin::CratesIo && is_unescaped(package.name@) && is_unescaped(
            package.version@,
        ) ==> (r matches Ok(Some(s)) && s@ == plain_purl(cargo_type(), package.name@, package.version@)),
{
    match package.origin {
        Origin::CratesIo => {
            let ty = "cargo";
            proof {
                reveal_strlit("cargo");
                assert(ty@ == cargo_type());
            }
            match package_url(ty, package.name.as_str(), package.version.as_str()) {
                Ok(s) => Ok(Some(s)),
                Err(_) => Err(SbomError::InvalidLocator),
            }
        },
        Origin::Other => Ok(None),
    }
}

} // verus!
