//! The lookup that the tool boundary exposes: from an identifier and from what
//! became of reading its file, to the subnets of that identifier or to a
//! failure whose class the caller can tell.

use crate::asn_ip::upstream::ErrorKind;
use crate::asn_ip::{record_error_text, record_of, ASNInfo, SubnetsView};
use crate::json::{json_decoded, Json};
use vstd::prelude::*;
use vstd::string::*;

verus! {

/// The question: the subnets of which autonomous system?
#[derive(Debug, PartialEq, Eq)]
pub struct SubnetRequest {
    pub asn: u32,
}

/// The answer: the identifier that was asked for, and its subnets.
#[derive(Debug, PartialEq, Eq)]
pub struct SubnetResponse {
    pub asn: u32,
    pub subnets: Subnets,
}

/// The networks of an answer, each in CIDR notation.
#[derive(Debug, PartialEq, Eq)]
pub struct Subnets {
    pub ipv4: Vec<String>,
    pub ipv6: Vec<String>,
}

impl From<crate::asn_ip::Subnets> for Subnets {
    /// The networks of a record, as they stand and in their order.
    fn from(subnets: crate::asn_ip::Subnets) -> (result: Self) {
        Subnets { ipv4: subnets.ipv4, ipv6: subnets.ipv6 }
    }
}

impl vstd::std_specs::convert::FromSpecImpl<crate::asn_ip::Subnets> for Subnets {
    open spec fn obeys_from_spec() -> bool {
        true
    }

    open spec fn from_spec(subnets: crate::asn_ip::Subnets) -> Self {
        Subnets { ipv4: subnets.ipv4, ipv6: subnets.ipv6 }
    }
}

/// What became of reading the file of one identifier. A failure carries what
/// the file system had to say.
#[derive(Debug, PartialEq, Eq)]
pub enum FileRead {
    /// There is no such file.
    Missing(String),
    /// The file is there and could not be read.
    Unreadable(String),
    /// The file holds this text.
    Content(String),
}

/// Why a lookup failed.
#[derive(Debug, PartialEq, Eq)]
pub enum LookupError {
    /// The identifier has no file in the mirror.
    NotFound(String),
    /// The file of the identifier could not be read.
    Io(String),
    /// The file of the identifier does not hold a record.
    Parse(String),
}

/// A [`LookupError`] with its text as a sequence of characters.
pub enum LookupErrorView {
    NotFound(Seq<char>),
    Io(Seq<char>),
    Parse(Seq<char>),
}

impl View for LookupError {
    type V = LookupErrorView;

    open spec fn view(&self) -> LookupErrorView {
        match *self {
            LookupError::NotFound(detail) => LookupErrorView::NotFound(detail@),
            LookupError::Io(detail) => LookupErrorView::Io(detail@),
            LookupError::Parse(detail) => LookupErrorView::Parse(detail@),
        }
    }
}

/// The class of a lookup failure.
pub open spec fn lookup_error_kind(error: LookupErrorView) -> ErrorKind {
    match error {
        LookupErrorView::NotFound(_) => ErrorKind::NotFound,
        LookupErrorView::Io(_) => ErrorKind::Io,
        LookupErrorView::Parse(_) => ErrorKind::Parse,
    }
}

/// The text of a lookup failure.
pub open spec fn lookup_error_text(error: LookupErrorView) -> Seq<char> {
    match error {
        LookupErrorView::NotFound(detail) => "Failed to read ASN file: "@ + detail,
        LookupErrorView::Io(detail) => "Failed to read ASN file: "@ + detail,
        LookupErrorView::Parse(detail) => "Failed to parse ASN data: "@ + detail,
    }
}

impl LookupError {
    /// The class of this failure.
    pub fn kind(&self) -> (kind: ErrorKind)
        ensures
            kind == lookup_error_kind(self@),
    {
        match self {
            LookupError::NotFound(_) => ErrorKind::NotFound,
            LookupError::Io(_) => ErrorKind::Io,
            LookupError::Parse(_) => ErrorKind::Parse,
        }
    }

    /// The text of this failure, for a boundary that reports failures as text.
    pub fn message(&self) -> (text: String)
        ensures
            text@ == lookup_error_text(self@),
    {
        match self {
            LookupError::NotFound(detail) => String::from_str("Failed to read ASN file: ").concat(
                detail.as_str(),
            ),
            LookupError::Io(detail) => String::from_str("Failed to read ASN file: ").concat(
                detail.as_str(),
            ),
            LookupError::Parse(detail) => String::from_str("Failed to parse ASN data: ").concat(
                detail.as_str(),
            ),
        }
    }
}

/// An answer, with its texts as sequences of characters.
pub struct SubnetResponseView {
    pub asn: u32,
    pub subnets: SubnetsView,
}

impl View for Subnets {
    type V = SubnetsView;

    open spec fn view(&self) -> SubnetsView {
        SubnetsView { ipv4: self.ipv4.deep_view(), ipv6: self.ipv6.deep_view() }
    }
}

impl View for SubnetResponse {
    type V = SubnetResponseView;

    open spec fn view(&self) -> SubnetResponseView {
        SubnetResponseView { asn: self.asn, subnets: self.subnets@ }
    }
}

/// What a lookup of `asn` comes to, given what was decoded from the text of
/// its file. The answer names the identifier that was asked for, whatever
/// identifier the record names, and holds the record's subnets, both lists
/// entry for entry. A text that is no JSON, and a JSON value that is no
/// record, are failures of the same class.
pub open spec fn decoded_result(asn: u32, decoded: Result<Json, String>) -> Result<
    SubnetResponseView,
    LookupErrorView,
> {
    match decoded {
        Ok(json) => match record_of(json) {
            Ok(record) => Ok(SubnetResponseView { asn, subnets: record.subnets }),
            Err(error) => Err(LookupErrorView::Parse(record_error_text(error))),
        },
        Err(detail) => Err(LookupErrorView::Parse(detail@)),
    }
}

/// What a lookup of `asn` comes to, given what became of reading its file.
pub open spec fn lookup_result(asn: u32, file: FileRead) -> Result<
    SubnetResponseView,
    LookupErrorView,
> {
    match file {
        FileRead::Missing(detail) => Err(LookupErrorView::NotFound(detail@)),
        FileRead::Unreadable(detail) => Err(LookupErrorView::Io(detail@)),
        FileRead::Content(text) => decoded_result(asn, json_decoded(text@)),
    }
}

/// Whether `result` is `expected`, text for text.
pub open spec fn agrees(
    result: Result<SubnetResponse, LookupError>,
    expected: Result<SubnetResponseView, LookupErrorView>,
) -> bool {
    match expected {
        Ok(response) => result matches Ok(held) && held@ == response,
        Err(error) => result matches Err(held) && held@ == error,
    }
}

/// The subnets of `asn`, given what was decoded from the text of its file.
pub fn lookup_decoded(asn: u32, decoded: Result<Json, String>) -> (result: Result<
    SubnetResponse,
    LookupError,
>)
    ensures
        agrees(result, decoded_result(asn, decoded)),
{
    match decoded {
        Ok(json) => match ASNInfo::from_json(&json) {
            Ok(info) => Ok(SubnetResponse { asn, subnets: Subnets::from(info.subnets) }),
            Err(error) => Err(LookupError::Parse(error.message())),
        },
        Err(detail) => Err(LookupError::Parse(detail)),
    }
}

/// The subnets of `asn`, given what became of reading the file that
/// `Upstream::get_asn_file_path` names for it.
pub fn lookup(asn: u32, file: FileRead) -> (result: Result<SubnetResponse, LookupError>)
    ensures
        agrees(result, lookup_result(asn, file)),
{
    match file {
        FileRead::Missing(detail) => Err(LookupError::NotFound(detail)),
        FileRead::Unreadable(detail) => Err(LookupError::Io(detail)),
        FileRead::Content(text) => lookup_decoded(asn, Json::decode(text.as_str())),
    }
}

/// The operation of the tool boundary: the subnets of the identifier in
/// `request`, or the text of the failure.
pub fn get_asn_subnets(request: &SubnetRequest, file: FileRead) -> (result: Result<
    SubnetResponse,
    String,
>)
    ensures
        match lookup_result(request.asn, file) {
            Ok(response) => result matches Ok(held) && held@ == response,
            Err(error) => result matches Err(text) && text@ == lookup_error_text(error),
        },
{
    match lookup(request.asn, file) {
        Ok(response) => Ok(response),
        Err(error) => Err(error.message()),
    }
}

} // verus!
