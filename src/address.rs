use url::{ParseError, Url};
use vstd::prelude::*;

verus! {

#[verifier::external_type_specification]
#[verifier::external_body]
pub struct ExUrl(Url);

#[verifier::external_type_specification]
#[verifier::external_body]
pub struct ExParseError(ParseError);

/// The serialization of the absolute URL that `Url::parse` reads from
/// `input`, or `None` where it refuses the input.
pub uninterp spec fn url_parse_of(input: Seq<char>) -> Option<Seq<char>>;

/// A parsed absolute URL, kept beside its serialization.
pub struct Location {
    url: Url,
    text: String,
}

impl View for Location {
    type V = Seq<char>;

    closed spec fn view(&self) -> Seq<char> {
        self.text@
    }
}

impl Location {
    /// The serialization of the URL.
    pub fn as_str(&self) -> (r: &str)
        ensures
            r@ == self@,
    {
        self.text.as_str()
    }

    /// The parsed URL itself.
    pub fn url(&self) -> &Url {
        &self.url
    }
}

/// Relies on url::Url::parse, and on Url::as_str for the serialization of
/// what it returns: the outcome depends on `input` alone.
#[verifier::external_body]
fn parse_url(input: &str) -> (r: Result<Location, ParseError>)
    ensures
        r is Ok <==> url_parse_of(input@) is Some,
        r matches Ok(l) ==> url_parse_of(input@) == Some(l@),
{
    match Url::parse(input) {
        Ok(url) => Ok(Location { text: url.as_str().to_string(), url }),
        Err(e) => Err(e),
    }
}

/// Why no address could be built: the URL parser refused the text.
pub enum AddressError {
    Refused(ParseError),
}

/// The root URL of the production assertion service, or of the staging one.
pub open spec fn service_root(staging: bool) -> Seq<char> {
    if staging {
        "https://assertions.staging.ubuntu.com"@
    } else {
        "https://assertions.ubuntu.com"@
    }
}

/// The part of a declaration's address that follows the service's root:
/// `/v1/assertions/snap-declaration/16/{snap_id}`.
pub open spec fn declaration_path(snap_id: Seq<char>) -> Seq<char> {
    "/v1/assertions/snap-declaration/16/"@ + snap_id
}

/// The text of the address of the declaration of `snap_id`:
/// `{root}/v1/assertions/snap-declaration/16/{snap_id}`.
pub open spec fn declaration_text(staging: bool, snap_id: Seq<char>) -> Seq<char> {
    service_root(staging) + declaration_path(snap_id)
}

/// The staging service is asked at the same path as the production one:
/// the two addresses of a declaration differ in their root alone.
pub proof fn lemma_staging_changes_only_root(snap_id: Seq<char>)
    ensures
        declaration_text(true, snap_id) == "https://assertions.staging.ubuntu.com"@
            + declaration_path(snap_id),
        declaration_text(false, snap_id) == "https://assertions.ubuntu.com"@ + declaration_path(
            snap_id,
        ),
{
}

fn service_root_text(staging: bool) -> (r: &'static str)
    ensures
        r@ == service_root(staging),
{
    if staging {
        "https://assertions.staging.ubuntu.com"
    } else {
        "https://assertions.ubuntu.com"
    }
}

/// The address at which the assertion service (the staging one where
/// `staging` holds) serves the declaration of `snap_id`: the URL that the
/// parser reads from `{root}/v1/assertions/snap-declaration/16/{snap_id}`,
/// or the parser's error where it refuses that text.
pub fn get_url_for_snap_id(staging: bool, snap_id: &String) -> (r: Result<Location, AddressError>)
    ensures
        r is Ok <==> url_parse_of(declaration_text(staging, snap_id@)) is Some,
        r matches Ok(l) ==> url_parse_of(declaration_text(staging, snap_id@)) == Some(l@),
{
    let mut text = String::from_str(service_root_text(staging));
    text.append("/v1/assertions/snap-declaration/16/");
    text.append(snap_id.as_str());
    proof {
        reveal_strlit("/v1/assertions/snap-declaration/16/");
        assert(text@ =~= declaration_text(staging, snap_id@));
    }
    match parse_url(text.as_str()) {
        Ok(location) => Ok(location),
        Err(e) => Err(AddressError::Refused(e)),
    }
}

} // verus!
