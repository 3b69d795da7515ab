use vstd::prelude::*;

use did_url::Error as DidUrlError;

use crate::error::Error;

verus! {

#[verifier::external_type_specification]
#[verifier::external_body]
pub struct ExDidUrlError(DidUrlError);

/// What parsing `s` as a decentralized identifier gives: `None` where it is
/// rejected, else the fragment that it carries, if any.
pub uninterp spec fn did_parse(s: Seq<char>) -> Option<Option<Seq<char>>>;

/// The views of an optional string.
pub open spec fn opt_str_view(o: Option<String>) -> Option<Seq<char>> {
    match o {
        Some(s) => Some(s@),
        None => None,
    }
}

/// Relies on `did_url::DID::parse`, which keeps the input text as the
/// identifier's text, and on `DID::fragment`, which returns the fragment of
/// the parsed identifier.
#[verifier::external_body]
fn parse_did(input: &str) -> (r: Result<(String, Option<String>), DidUrlError>)
    ensures
        r is Ok <==> did_parse(input@) is Some,
        r matches Ok((text, fragment)) ==> text@ == input@ && opt_str_view(fragment)
            == did_parse(input@)->0,
{
    match did_url::DID::parse(input) {
        Ok(did) => Ok((did.as_str().to_string(), did.fragment().map(str::to_string))),
        Err(error) => Err(error),
    }
}

/// A decentralized identifier, possibly with a trailing fragment. Two
/// identifiers are equal when their texts are.
#[derive(Clone, Debug)]
pub struct DID {
    text: String,
    fragment: Option<String>,
}

impl DID {
    /// The text of the identifier.
    pub closed spec fn text(&self) -> Seq<char> {
        self.text@
    }

    /// The fragment of the identifier, if it has one.
    pub closed spec fn fragment_view(&self) -> Option<Seq<char>> {
        opt_str_view(self.fragment)
    }

    /// The identifier is what parsing its own text gives.
    pub closed spec fn wf(&self) -> bool {
        did_parse(self.text@) == Some(opt_str_view(self.fragment))
    }

    /// Parses `input` as an identifier; fails with `Error::InvalidDID` where
    /// it is not one.
    pub fn parse(input: &str) -> (r: Result<DID, Error>)
        ensures
            r is Ok <==> did_parse(input@) is Some,
            r matches Ok(did) ==> did.text() == input@ && did.wf() && did.fragment_view()
                == did_parse(input@)->0,
            r matches Err(e) ==> e is InvalidDID,
    {
        match parse_did(input) {
            Ok((text, fragment)) => Ok(DID { text, fragment }),
            Err(error) => Err(Error::InvalidDID { error }),
        }
    }

    /// The text of the identifier.
    pub fn as_str(&self) -> (r: &str)
        ensures
            r@ == self.text(),
    {
        self.text.as_str()
    }

    /// The fragment of the identifier, if it has one.
    pub fn fragment(&self) -> (r: Option<&str>)
        ensures
            r is Some <==> self.fragment_view() is Some,
            r matches Some(f) ==> Some(f@) == self.fragment_view(),
    {
        match &self.fragment {
            Some(f) => Some(f.as_str()),
            None => None,
        }
    }

    /// The text of the identifier, as an owned string.
    pub fn to_string(&self) -> (r: String)
        ensures
            r@ == self.text(),
    {
        self.text.clone()
    }

    /// Whether two identifiers have the same text.
    pub fn same_as(&self, other: &DID) -> (r: bool)
        ensures
            r == (self.text() == other.text()),
    {
        self.text == other.text
    }
}

impl std::str::FromStr for DID {
    type Err = Error;

    fn from_str(input: &str) -> Result<DID, Error> {
        DID::parse(input)
    }
}

} // verus!
