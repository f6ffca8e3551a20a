//! The records that a listing yields, and the errors of decoding one.

use vstd::prelude::*;
use time::OffsetDateTime;
use xmltree::Element;

verus! {

/// An integrity-digest tag of a stored object.
#[derive(Debug, Clone, PartialEq, Eq)]
pub enum ChecksumAlgorithm {
    Crc64nvme,
    Crc32,
    Crc32c,
    Sha1,
    Sha256,
    /// An algorithm that this library does not know, under the name the server gave.
    Unknown(String),
}

/// What a `ChecksumAlgorithm` stands for in contracts.
pub enum ChecksumName {
    Crc64nvme,
    Crc32,
    Crc32c,
    Sha1,
    Sha256,
    Unknown(Seq<char>),
}

impl View for ChecksumAlgorithm {
    type V = ChecksumName;

    open spec fn view(&self) -> ChecksumName {
        match self {
            ChecksumAlgorithm::Crc64nvme => ChecksumName::Crc64nvme,
            ChecksumAlgorithm::Crc32 => ChecksumName::Crc32,
            ChecksumAlgorithm::Crc32c => ChecksumName::Crc32c,
            ChecksumAlgorithm::Sha1 => ChecksumName::Sha1,
            ChecksumAlgorithm::Sha256 => ChecksumName::Sha256,
            ChecksumAlgorithm::Unknown(name) => ChecksumName::Unknown(name@),
        }
    }
}

/// Whether an archived object is being restored, or until when it stays restored.
#[derive(Debug, Clone, Copy, PartialEq, Eq)]
pub enum RestoreStatus {
    InProgress,
    Restored { expiry: OffsetDateTime },
}

/// One object of a listing.
#[derive(Debug, Clone, PartialEq, Eq)]
pub struct ObjectInfo {
    pub key: String,
    pub size: u64,
    pub last_modified: OffsetDateTime,
    pub storage_class: Option<String>,
    pub restore_status: Option<RestoreStatus>,
    pub etag: String,
    pub checksum_algorithms: Vec<ChecksumAlgorithm>,
}

/// What an `ObjectInfo` stands for in contracts.
pub struct ObjectRecord {
    pub key: Seq<char>,
    pub size: u64,
    pub last_modified: OffsetDateTime,
    pub storage_class: Option<Seq<char>>,
    pub restore_status: Option<RestoreStatus>,
    pub etag: Seq<char>,
    pub checksum_algorithms: Seq<ChecksumName>,
}

pub open spec fn checksum_names(algorithms: Seq<ChecksumAlgorithm>) -> Seq<ChecksumName> {
    algorithms.map_values(|a: ChecksumAlgorithm| a@)
}

pub open spec fn text_of(s: Option<String>) -> Option<Seq<char>> {
    match s {
        Some(text) => Some(text@),
        None => None,
    }
}

impl View for ObjectInfo {
    type V = ObjectRecord;

    open spec fn view(&self) -> ObjectRecord {
        ObjectRecord {
            key: self.key@,
            size: self.size,
            last_modified: self.last_modified,
            storage_class: text_of(self.storage_class),
            restore_status: self.restore_status,
            etag: self.etag@,
            checksum_algorithms: checksum_names(self.checksum_algorithms@),
        }
    }
}

/// One page of a listing.
#[derive(Debug, Clone, PartialEq, Eq)]
pub struct ListObjectsResult {
    /// The objects, in document order.
    pub objects: Vec<ObjectInfo>,
    /// The common prefixes, in document order.
    pub common_prefixes: Vec<String>,
    /// The cursor to pass back for the next page, where there is one.
    pub next_continuation_token: Option<String>,
}

/// What a `ListObjectsResult` stands for in contracts.
pub struct Listing {
    pub objects: Seq<ObjectRecord>,
    pub common_prefixes: Seq<Seq<char>>,
    pub next_continuation_token: Option<Seq<char>>,
}

pub open spec fn object_records(objects: Seq<ObjectInfo>) -> Seq<ObjectRecord> {
    objects.map_values(|o: ObjectInfo| o@)
}

pub open spec fn texts(strings: Seq<String>) -> Seq<Seq<char>> {
    strings.map_values(|s: String| s@)
}

impl View for ListObjectsResult {
    type V = Listing;

    open spec fn view(&self) -> Listing {
        Listing {
            objects: object_records(self.objects@),
            common_prefixes: texts(self.common_prefixes@),
            next_continuation_token: text_of(self.next_continuation_token),
        }
    }
}

/// A server-side condition that a listing request can meet.
#[derive(Debug, Clone, Copy, PartialEq, Eq)]
pub enum ListObjectsError {
    /// The bucket does not exist.
    NoSuchBucket,
}

/// Why a response could not be decoded.
#[derive(Debug)]
pub enum ParseError {
    /// The document breaks a rule of the listing schema: the offending
    /// element and the problem.
    InvalidResponse(Element, String),
    /// The bytes are not well-formed XML.
    Xml(xmltree::ParseError),
    /// A required child is missing: the element searched and the child's name.
    MissingField(Element, String),
    /// The named field is not a boolean.
    Bool(core::str::ParseBoolError, String),
    /// The named field is not an unsigned 64-bit integer.
    Int(core::num::ParseIntError, String),
    /// The named field is not an RFC 3339 timestamp.
    OffsetDateTime(time::error::Parse, String),
}

/// What a `ParseError` stands for in contracts: its kind, the XML subtree it
/// carries, and the problem or the field's name. The errors that std and the
/// outside crates made are left out.
pub enum ParseFailure {
    InvalidResponse(Element, Seq<char>),
    Xml,
    MissingField(Element, Seq<char>),
    Bool(Seq<char>),
    Int(Seq<char>),
    OffsetDateTime(Seq<char>),
}

impl View for ParseError {
    type V = ParseFailure;

    open spec fn view(&self) -> ParseFailure {
        match self {
            ParseError::InvalidResponse(element, problem) => ParseFailure::InvalidResponse(
                *element,
                problem@,
            ),
            ParseError::Xml(_) => ParseFailure::Xml,
            ParseError::MissingField(element, field) => ParseFailure::MissingField(
                *element,
                field@,
            ),
            ParseError::Bool(_, field) => ParseFailure::Bool(field@),
            ParseError::Int(_, field) => ParseFailure::Int(field@),
            ParseError::OffsetDateTime(_, field) => ParseFailure::OffsetDateTime(field@),
        }
    }
}

} // verus!
