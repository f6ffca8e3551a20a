//! Decoding of a listing response, and classification of a failed one.

use vstd::prelude::*;
use xmltree::Element;
use crate::object_client::{
    ChecksumAlgorithm, ChecksumName, ListObjectsError, ListObjectsResult, Listing, ObjectInfo,
    ObjectRecord, ParseError, ParseFailure, RestoreStatus, checksum_names, object_records,
    texts,
};
use crate::scalar::{
    bool_of_text, parse_bool, parse_rfc3339, parse_u64, rfc3339_instant, same_text, u64_of_text,
};
use crate::xml::{
    clone_element, document_root, element_children, element_name, element_text, find_child,
    first_named, lemma_without_first, named, parse_document, take_child, text_content,
    without_all,
};

verus! {

/// The text of an element, which a field must have.
pub open spec fn text_or_invalid(e: Element) -> Result<Seq<char>, ParseFailure> {
    match element_text(e) {
        Some(text) => Ok(text),
        None => Err(ParseFailure::InvalidResponse(e, "field has no text"@)),
    }
}

/// The text of the first child of `e` called `name`. Where there is no such
/// child, the failure carries `searched`.
pub open spec fn field_or_missing(e: Element, name: Seq<char>, searched: Element) -> Result<
    Seq<char>,
    ParseFailure,
> {
    match first_named(element_children(e), name) {
        Some(child) => text_or_invalid(child),
        None => Err(ParseFailure::MissingField(searched, name)),
    }
}

/// The text of the first child of `e` called `name`.
pub open spec fn field_of(e: Element, name: Seq<char>) -> Result<Seq<char>, ParseFailure> {
    field_or_missing(e, name, e)
}

/// The decoded elements of `cs` in order, or the failure of the first one
/// that does not decode.
pub open spec fn collect<T>(
    cs: Seq<Element>,
    decode: spec_fn(Element) -> Result<T, ParseFailure>,
) -> Result<Seq<T>, ParseFailure>
    decreases cs.len(),
{
    if cs.len() == 0 {
        Ok(Seq::empty())
    } else {
        match decode(cs[0]) {
            Err(failure) => Err(failure),
            Ok(value) => prepend(seq![value], collect(cs.drop_first(), decode)),
        }
    }
}

/// `done` followed by what `rest` holds, or the failure of `rest`.
pub open spec fn prepend<T>(done: Seq<T>, rest: Result<Seq<T>, ParseFailure>) -> Result<
    Seq<T>,
    ParseFailure,
> {
    match rest {
        Ok(values) => Ok(done + values),
        Err(failure) => Err(failure),
    }
}

/// The checksum algorithm that a name stands for. A name outside the table
/// is kept as it is.
pub open spec fn checksum_of(name: Seq<char>) -> ChecksumName {
    if name == "CRC64NVME"@ {
        ChecksumName::Crc64nvme
    } else if name == "CRC32"@ {
        ChecksumName::Crc32
    } else if name == "CRC32C"@ {
        ChecksumName::Crc32c
    } else if name == "SHA1"@ {
        ChecksumName::Sha1
    } else if name == "SHA256"@ {
        ChecksumName::Sha256
    } else {
        ChecksumName::Unknown(name)
    }
}

/// The checksum algorithm that a `ChecksumAlgorithm` element names.
pub open spec fn checksum_of_element(e: Element) -> Result<ChecksumName, ParseFailure> {
    match text_or_invalid(e) {
        Ok(name) => Ok(checksum_of(name)),
        Err(failure) => Err(failure),
    }
}

pub open spec fn checksum_decoder() -> spec_fn(Element) -> Result<ChecksumName, ParseFailure> {
    |e: Element| checksum_of_element(e)
}

/// The checksum algorithms of an object element, in document order.
pub open spec fn checksums_of(e: Element) -> Result<Seq<ChecksumName>, ParseFailure> {
    collect(named(element_children(e), "ChecksumAlgorithm"@), checksum_decoder())
}

/// The restore status of an object element. A restore in progress needs no
/// expiry date; a finished one must give a valid date.
pub open spec fn restore_status_of(e: Element) -> Result<Option<RestoreStatus>, ParseFailure> {
    match first_named(element_children(e), "RestoreStatus"@) {
        None => Ok(None),
        Some(status) => match field_of(status, "IsRestoreInProgress"@) {
            Err(failure) => Err(failure),
            Ok(flag) => match bool_of_text(flag) {
                None => Err(ParseFailure::Bool("IsRestoreInProgress"@)),
                Some(in_progress) => if in_progress {
                    Ok(Some(RestoreStatus::InProgress))
                } else {
                    match field_of(status, "RestoreExpiryDate"@) {
                        Err(failure) => Err(failure),
                        Ok(date) => match rfc3339_instant(date) {
                            None => Err(ParseFailure::OffsetDateTime("RestoreExpiryDate"@)),
                            Some(expiry) => Ok(Some(RestoreStatus::Restored { expiry })),
                        },
                    }
                },
            },
        },
    }
}

/// A field that may be absent: any failure to read it counts as absence.
pub open spec fn optional_field_of(e: Element, name: Seq<char>) -> Option<Seq<char>> {
    match field_of(e, name) {
        Ok(text) => Some(text),
        Err(_) => None,
    }
}

/// The object that a `Contents` element describes. The fields are read in
/// the order key, size, last-modified, restore status, entity tag, checksum
/// algorithms, and the first one that fails decides the failure.
pub open spec fn object_of(e: Element) -> Result<ObjectRecord, ParseFailure> {
    match field_of(e, "Key"@) {
        Err(failure) => Err(failure),
        Ok(key) => match field_of(e, "Size"@) {
            Err(failure) => Err(failure),
            Ok(size_text) => match u64_of_text(size_text) {
                None => Err(ParseFailure::Int("Size"@)),
                Some(size) => match field_of(e, "LastModified"@) {
                    Err(failure) => Err(failure),
                    Ok(date) => match rfc3339_instant(date) {
                        None => Err(ParseFailure::OffsetDateTime("LastModified"@)),
                        Some(last_modified) => match restore_status_of(e) {
                            Err(failure) => Err(failure),
                            Ok(restore_status) => match field_of(e, "ETag"@) {
                                Err(failure) => Err(failure),
                                Ok(etag) => match checksums_of(e) {
                                    Err(failure) => Err(failure),
                                    Ok(checksum_algorithms) => Ok(
                                        ObjectRecord {
                                            key,
                                            size,
                                            last_modified,
                                            storage_class: optional_field_of(e, "StorageClass"@),
                                            restore_status,
                                            etag,
                                            checksum_algorithms,
                                        },
                                    ),
                                },
                            },
                        },
                    },
                },
            },
        },
    }
}

pub open spec fn object_decoder() -> spec_fn(Element) -> Result<ObjectRecord, ParseFailure> {
    |e: Element| object_of(e)
}

pub open spec fn prefix_decoder() -> spec_fn(Element) -> Result<Seq<char>, ParseFailure> {
    |e: Element| field_of(e, "Prefix"@)
}

/// The continuation token of a listing document, where it gives one.
pub open spec fn continuation_token_of(root: Element) -> Result<Option<Seq<char>>, ParseFailure> {
    match first_named(element_children(root), "NextContinuationToken"@) {
        None => Ok(None),
        Some(token) => match text_or_invalid(token) {
            Ok(text) => Ok(Some(text)),
            Err(failure) => Err(failure),
        },
    }
}

/// Whether `pruned` is `root` with its `Contents` and `CommonPrefixes`
/// children taken out.
pub open spec fn is_pruned(root: Element, pruned: Element) -> bool {
    &&& element_name(pruned) == element_name(root)
    &&& element_text(pruned) == element_text(root)
    &&& element_children(pruned) == without_all(
        without_all(element_children(root), "Contents"@),
        "CommonPrefixes"@,
    )
}

/// Whether every object and every prefix of a document decodes.
pub open spec fn records_decode(root: Element) -> bool {
    &&& collect(named(element_children(root), "Contents"@), object_decoder()) is Ok
    &&& collect(named(element_children(root), "CommonPrefixes"@), prefix_decoder()) is Ok
}

/// The listing that a document describes: its `Contents` children as
/// objects, its `CommonPrefixes` children as prefixes, both in document
/// order, and its continuation token, which must be there exactly when
/// `IsTruncated` says so. A failure about the document as a whole carries
/// `pruned`, the document without the children that were decoded.
pub open spec fn listing_of(root: Element, pruned: Element) -> Result<Listing, ParseFailure> {
    let children = element_children(root);
    match collect(named(children, "Contents"@), object_decoder()) {
        Err(failure) => Err(failure),
        Ok(objects) => match collect(named(children, "CommonPrefixes"@), prefix_decoder()) {
            Err(failure) => Err(failure),
            Ok(common_prefixes) => match continuation_token_of(root) {
                Err(failure) => Err(failure),
                Ok(next_continuation_token) => match field_or_missing(
                    root,
                    "IsTruncated"@,
                    pruned,
                ) {
                    Err(failure) => Err(failure),
                    Ok(flag) => match bool_of_text(flag) {
                        None => Err(ParseFailure::Bool("IsTruncated"@)),
                        Some(is_truncated) => if is_truncated
                            != next_continuation_token.is_some() {
                            Err(
                                ParseFailure::InvalidResponse(
                                    pruned,
                                    "IsTruncated doesn't match NextContinuationToken"@,
                                ),
                            )
                        } else {
                            Ok(Listing { objects, common_prefixes, next_continuation_token })
                        },
                    },
                },
            },
        },
    }
}

/// A decoder's result as contracts speak of it.
pub open spec fn outcome_of(r: Result<ListObjectsResult, ParseError>) -> Result<
    Listing,
    ParseFailure,
> {
    match r {
        Ok(result) => Ok(result@),
        Err(error) => Err(error@),
    }
}

/// One step of `collect`: the head either fails the whole, or joins what is done.
pub proof fn lemma_collect_step<T>(
    done: Seq<T>,
    cs: Seq<Element>,
    decode: spec_fn(Element) -> Result<T, ParseFailure>,
)
    requires
        cs.len() > 0,
    ensures
        match decode(cs[0]) {
            Err(failure) => prepend(done, collect(cs, decode)) == Err::<Seq<T>, ParseFailure>(
                failure,
            ),
            Ok(value) => prepend(done, collect(cs, decode)) == prepend(
                done.push(value),
                collect(cs.drop_first(), decode),
            ),
        },
{
    match decode(cs[0]) {
        Err(failure) => {},
        Ok(value) => {
            match collect(cs.drop_first(), decode) {
                Err(failure) => {},
                Ok(rest) => {
                    assert(done + (seq![value] + rest) =~= done.push(value) + rest);
                },
            }
        },
    }
}

/// Copies the text out of an element; an element without text is invalid.
pub fn get_text(element: &Element) -> (r: Result<String, ParseError>)
    ensures
        match r {
            Ok(text) => text_or_invalid(*element) == Ok::<Seq<char>, ParseFailure>(text@),
            Err(error) => text_or_invalid(*element) == Err::<Seq<char>, ParseFailure>(error@),
        },
{
    match text_content(element) {
        Some(text) => Ok(text),
        None => Err(
            ParseError::InvalidResponse(clone_element(element), "field has no text".to_owned()),
        ),
    }
}

/// The first child of `element` called `name`; its absence is a missing field.
pub fn get_child<'a>(element: &'a Element, name: &str) -> (r: Result<&'a Element, ParseError>)
    ensures
        match r {
            Ok(child) => first_named(element_children(*element), name@) == Some(*child),
            Err(error) => first_named(element_children(*element), name@) is None && error@
                == ParseFailure::MissingField(*element, name@),
        },
{
    match find_child(element, name) {
        Some(child) => Ok(child),
        None => Err(ParseError::MissingField(clone_element(element), name.to_owned())),
    }
}

/// The text of the first child of `element` called `name`.
pub fn get_field(element: &Element, name: &str) -> (r: Result<String, ParseError>)
    ensures
        match r {
            Ok(text) => field_of(*element, name@) == Ok::<Seq<char>, ParseFailure>(text@),
            Err(error) => field_of(*element, name@) == Err::<Seq<char>, ParseFailure>(error@),
        },
{
    match get_child(element, name) {
        Ok(child) => get_text(child),
        Err(error) => Err(error),
    }
}

/// Maps a checksum algorithm's name to the algorithm. Never fails: a name
/// outside the table comes back as `Unknown` with the name in it.
pub fn checksum_algorithm_from_name(name: String) -> (r: ChecksumAlgorithm)
    ensures
        r@ == checksum_of(name@),
{
    if same_text(name.as_str(), "CRC64NVME") {
        ChecksumAlgorithm::Crc64nvme
    } else if same_text(name.as_str(), "CRC32") {
        ChecksumAlgorithm::Crc32
    } else if same_text(name.as_str(), "CRC32C") {
        ChecksumAlgorithm::Crc32c
    } else if same_text(name.as_str(), "SHA1") {
        ChecksumAlgorithm::Sha1
    } else if same_text(name.as_str(), "SHA256") {
        ChecksumAlgorithm::Sha256
    } else {
        ChecksumAlgorithm::Unknown(name)
    }
}

/// Takes every `ChecksumAlgorithm` child out of an object element and
/// decodes it. On success none is left in the element, and its other
/// children stand as before.
pub fn parse_checksum_algorithm(element: &mut Element) -> (r: Result<
    Vec<ChecksumAlgorithm>,
    ParseError,
>)
    ensures
        match r {
            Ok(algorithms) => checksums_of(*old(element)) == Ok::<Seq<ChecksumName>, ParseFailure>(
                checksum_names(algorithms@),
            ) && element_children(*final(element)) == without_all(
                element_children(*old(element)),
                "ChecksumAlgorithm"@,
            ),
            Err(error) => checksums_of(*old(element)) == Err::<Seq<ChecksumName>, ParseFailure>(
                error@,
            ),
        },
        element_name(*final(element)) == element_name(*old(element)),
        element_text(*final(element)) == element_text(*old(element)),
        forall|other: Seq<char>|
            other != "ChecksumAlgorithm"@ ==> #[trigger] named(
                element_children(*final(element)),
                other,
            ) == named(element_children(*old(element)), other),
{
    let ghost all = element_children(*element);
    let ghost name = "ChecksumAlgorithm"@;
    let mut algorithms: Vec<ChecksumAlgorithm> = Vec::with_capacity(1);
    loop
        invariant
            name == "ChecksumAlgorithm"@,
            all == element_children(*old(element)),
            element_name(*element) == element_name(*old(element)),
            element_text(*element) == element_text(*old(element)),
            without_all(element_children(*element), name) == without_all(all, name),
            forall|other: Seq<char>|
                other != name ==> #[trigger] named(element_children(*element), other) == named(
                    all,
                    other,
                ),
            collect(named(all, name), checksum_decoder()) == prepend(
                checksum_names(algorithms@),
                collect(named(element_children(*element), name), checksum_decoder()),
            ),
        ensures
            collect(named(all, name), checksum_decoder()) == Ok::<Seq<ChecksumName>, ParseFailure>(
                checksum_names(algorithms@),
            ),
            element_children(*element) == without_all(all, name),
        decreases element_children(*element).len(),
    {
        let ghost before = element_children(*element);
        let ghost done = checksum_names(algorithms@);
        proof {
            lemma_without_first(before, name);
        }
        match take_child(element, "ChecksumAlgorithm") {
            None => {
                assert(done + Seq::<ChecksumName>::empty() =~= done);
                break ;
            },
            Some(content) => {
                proof {
                    lemma_collect_step(done, named(before, name), checksum_decoder());
                }
                match get_text(&content) {
                    Err(error) => {
                        return Err(error);
                    },
                    Ok(algo_string) => {
                        let algorithm = checksum_algorithm_from_name(algo_string);
                        algorithms.push(algorithm);
                        assert(checksum_names(algorithms@) =~= done.push(algorithm@));
                    },
                }
            },
        }
    }
    Ok(algorithms)
}

/// Reads the optional `RestoreStatus` child of an object element.
pub fn parse_restore_status(element: &Element) -> (r: Result<Option<RestoreStatus>, ParseError>)
    ensures
        match r {
            Ok(status) => restore_status_of(*element) == Ok::<Option<RestoreStatus>, ParseFailure>(
                status,
            ),
            Err(error) => restore_status_of(*element) == Err::<
                Option<RestoreStatus>,
                ParseFailure,
            >(error@),
        },
{
    let restore_status = match find_child(element, "RestoreStatus") {
        None => {
            return Ok(None);
        },
        Some(child) => child,
    };
    let flag = match get_field(restore_status, "IsRestoreInProgress") {
        Err(error) => {
            return Err(error);
        },
        Ok(text) => text,
    };
    let restore_in_progress = match parse_bool(flag.as_str()) {
        Err(error) => {
            return Err(ParseError::Bool(error, "IsRestoreInProgress".to_owned()));
        },
        Ok(value) => value,
    };
    if restore_in_progress {
        return Ok(Some(RestoreStatus::InProgress));
    }
    let date = match get_field(restore_status, "RestoreExpiryDate") {
        Err(error) => {
            return Err(error);
        },
        Ok(text) => text,
    };
    match parse_rfc3339(date.as_str()) {
        Err(error) => Err(ParseError::OffsetDateTime(error, "RestoreExpiryDate".to_owned())),
        Ok(expiry) => Ok(Some(RestoreStatus::Restored { expiry })),
    }
}

/// Decodes one `Contents` element into an object. Its `ChecksumAlgorithm`
/// children are taken out on the way; the element's other children stay.
pub fn parse_object_info_from_xml(element: &mut Element) -> (r: Result<ObjectInfo, ParseError>)
    ensures
        match r {
            Ok(object) => object_of(*old(element)) == Ok::<ObjectRecord, ParseFailure>(object@)
                && element_children(*final(element)) == without_all(
                element_children(*old(element)),
                "ChecksumAlgorithm"@,
            ),
            Err(error) => object_of(*old(element)) == Err::<ObjectRecord, ParseFailure>(error@),
        },
        element_name(*final(element)) == element_name(*old(element)),
        element_text(*final(element)) == element_text(*old(element)),
        forall|other: Seq<char>|
            other != "ChecksumAlgorithm"@ ==> #[trigger] named(
                element_children(*final(element)),
                other,
            ) == named(element_children(*old(element)), other),
{
    let key = match get_field(element, "Key") {
        Err(error) => {
            return Err(error);
        },
        Ok(text) => text,
    };
    let size = match get_field(element, "Size") {
        Err(error) => {
            return Err(error);
        },
        Ok(text) => text,
    };
    let size = match parse_u64(size.as_str()) {
        Err(error) => {
            return Err(ParseError::Int(error, "Size".to_owned()));
        },
        Ok(value) => value,
    };
    let last_modified = match get_field(element, "LastModified") {
        Err(error) => {
            return Err(error);
        },
        Ok(text) => text,
    };
    let last_modified = match parse_rfc3339(last_modified.as_str()) {
        Err(error) => {
            return Err(ParseError::OffsetDateTime(error, "LastModified".to_owned()));
        },
        Ok(instant) => instant,
    };
    let storage_class = match get_field(element, "StorageClass") {
        Err(_) => None,
        Ok(text) => Some(text),
    };
    let restore_status = match parse_restore_status(element) {
        Err(error) => {
            return Err(error);
        },
        Ok(status) => status,
    };
    let etag = match get_field(element, "ETag") {
        Err(error) => {
            return Err(error);
        },
        Ok(text) => text,
    };
    let checksum_algorithms = match parse_checksum_algorithm(element) {
        Err(error) => {
            return Err(error);
        },
        Ok(algorithms) => algorithms,
    };
    Ok(
        ObjectInfo {
            key,
            size,
            last_modified,
            storage_class,
            restore_status,
            etag,
            checksum_algorithms,
        },
    )
}

/// The tag names that the listing decoder takes apart are pairwise different.
pub proof fn lemma_listing_names_differ()
    ensures
        "Contents"@ != "CommonPrefixes"@,
        "Contents"@ != "NextContinuationToken"@,
        "Contents"@ != "IsTruncated"@,
        "CommonPrefixes"@ != "NextContinuationToken"@,
        "CommonPrefixes"@ != "IsTruncated"@,
{
    reveal_strlit("Contents");
    reveal_strlit("CommonPrefixes");
    reveal_strlit("NextContinuationToken");
    reveal_strlit("IsTruncated");
    assert("Contents"@.len() == 8);
    assert("CommonPrefixes"@.len() == 14);
    assert("NextContinuationToken"@.len() == 21);
    assert("IsTruncated"@.len() == 11);
}

/// Decodes a listing document. The `Contents` and `CommonPrefixes` children
/// are taken out of the document on the way; its other children stay.
pub fn parse_result_from_xml(element: &mut Element) -> (r: Result<ListObjectsResult, ParseError>)
    ensures
        outcome_of(r) == listing_of(*old(element), *final(element)),
        records_decode(*old(element)) ==> is_pruned(*old(element), *final(element)),
        element_name(*final(element)) == element_name(*old(element)),
        element_text(*final(element)) == element_text(*old(element)),
        forall|other: Seq<char>|
            other != "Contents"@ && other != "CommonPrefixes"@ ==> #[trigger] named(
                element_children(*final(element)),
                other,
            ) == named(element_children(*old(element)), other),
{
    let ghost all = element_children(*element);
    let ghost contents = "Contents"@;
    let ghost prefixes = "CommonPrefixes"@;
    proof {
        lemma_listing_names_differ();
    }
    let mut objects: Vec<ObjectInfo> = Vec::new();
    loop
        invariant
            contents == "Contents"@,
            all == element_children(*old(element)),
            element_name(*element) == element_name(*old(element)),
            element_text(*element) == element_text(*old(element)),
            without_all(element_children(*element), contents) == without_all(all, contents),
            forall|other: Seq<char>|
                other != contents ==> #[trigger] named(element_children(*element), other)
                    == named(all, other),
            collect(named(all, contents), object_decoder()) == prepend(
                object_records(objects@),
                collect(named(element_children(*element), contents), object_decoder()),
            ),
        ensures
            collect(named(all, contents), object_decoder()) == Ok::<
                Seq<ObjectRecord>,
                ParseFailure,
            >(object_records(objects@)),
            element_children(*element) == without_all(all, contents),
        decreases element_children(*element).len(),
    {
        let ghost before = element_children(*element);
        let ghost done = object_records(objects@);
        proof {
            lemma_without_first(before, contents);
        }
        match take_child(element, "Contents") {
            None => {
                assert(done + Seq::<ObjectRecord>::empty() =~= done);
                break ;
            },
            Some(mut content) => {
                proof {
                    lemma_collect_step(done, named(before, contents), object_decoder());
                }
                match parse_object_info_from_xml(&mut content) {
                    Err(error) => {
                        return Err(error);
                    },
                    Ok(object) => {
                        objects.push(object);
                        assert(object_records(objects@) =~= done.push(object@));
                    },
                }
            },
        }
    }
    let ghost middle = element_children(*element);
    let mut common_prefixes: Vec<String> = Vec::new();
    loop
        invariant
            prefixes == "CommonPrefixes"@,
            contents == "Contents"@,
            all == element_children(*old(element)),
            middle == without_all(all, contents),
            forall|other: Seq<char>|
                other != contents ==> #[trigger] named(middle, other) == named(all, other),
            collect(named(all, contents), object_decoder()) == Ok::<
                Seq<ObjectRecord>,
                ParseFailure,
            >(object_records(objects@)),
            element_name(*element) == element_name(*old(element)),
            element_text(*element) == element_text(*old(element)),
            without_all(element_children(*element), prefixes) == without_all(middle, prefixes),
            forall|other: Seq<char>|
                other != prefixes ==> #[trigger] named(element_children(*element), other)
                    == named(middle, other),
            collect(named(middle, prefixes), prefix_decoder()) == prepend(
                texts(common_prefixes@),
                collect(named(element_children(*element), prefixes), prefix_decoder()),
            ),
        ensures
            collect(named(middle, prefixes), prefix_decoder()) == Ok::<
                Seq<Seq<char>>,
                ParseFailure,
            >(texts(common_prefixes@)),
            element_children(*element) == without_all(middle, prefixes),
        decreases element_children(*element).len(),
    {
        let ghost before = element_children(*element);
        let ghost done = texts(common_prefixes@);
        proof {
            lemma_listing_names_differ();
            lemma_without_first(before, prefixes);
        }
        match take_child(element, "CommonPrefixes") {
            None => {
                assert(done + Seq::<Seq<char>>::empty() =~= done);
                break ;
            },
            Some(common_prefix) => {
                proof {
                    lemma_collect_step(done, named(before, prefixes), prefix_decoder());
                }
                match get_field(&common_prefix, "Prefix") {
                    Err(error) => {
                        return Err(error);
                    },
                    Ok(prefix) => {
                        common_prefixes.push(prefix);
                        assert(texts(common_prefixes@) =~= done.push(prefix@));
                    },
                }
            },
        }
    }
    proof {
        lemma_listing_names_differ();
        assert(named(middle, prefixes) == named(all, prefixes));
        assert(named(element_children(*element), "NextContinuationToken"@) == named(
            middle,
            "NextContinuationToken"@,
        ));
        assert(named(element_children(*element), "IsTruncated"@) == named(
            middle,
            "IsTruncated"@,
        ));
    }
    let mut next_continuation_token: Option<String> = None;
    match find_child(element, "NextContinuationToken") {
        None => {},
        Some(token) => {
            match get_text(token) {
                Err(error) => {
                    return Err(error);
                },
                Ok(text) => {
                    next_continuation_token = Some(text);
                },
            }
        },
    }
    let is_truncated = match get_field(element, "IsTruncated") {
        Err(error) => {
            return Err(error);
        },
        Ok(text) => text,
    };
    let is_truncated = match parse_bool(is_truncated.as_str()) {
        Err(error) => {
            return Err(ParseError::Bool(error, "IsTruncated".to_owned()));
        },
        Ok(value) => value,
    };
    if is_truncated != next_continuation_token.is_some() {
        return Err(
            ParseError::InvalidResponse(
                clone_element(element),
                "IsTruncated doesn't match NextContinuationToken".to_owned(),
            ),
        );
    }
    Ok(ListObjectsResult { objects, common_prefixes, next_continuation_token })
}

/// Whether `outcome` is what the document `root` decodes to. The failures
/// about the document as a whole carry what is left of it once every object
/// and prefix has been decoded and taken out.
pub open spec fn decodes_to(root: Element, outcome: Result<Listing, ParseFailure>) -> bool {
    exists|pruned: Element|
        outcome == #[trigger] listing_of(root, pruned) && (records_decode(root) ==> is_pruned(
            root,
            pruned,
        ))
}

/// The outcome of decoding a response body, as far as it does not rest on
/// the document that is left.
pub open spec fn decodes_from_bytes(bytes: Seq<u8>, outcome: Result<Listing, ParseFailure>) -> bool {
    match document_root(bytes) {
        None => outcome == Err::<Listing, ParseFailure>(ParseFailure::Xml),
        Some(root) => decodes_to(root, outcome),
    }
}

/// Decodes a listing response body. Bytes that are not well-formed XML fail
/// before any field is read.
pub fn parse_result_from_bytes(bytes: &[u8]) -> (r: Result<ListObjectsResult, ParseError>)
    ensures
        decodes_from_bytes(bytes@, outcome_of(r)),
{
    match parse_document(bytes) {
        Err(error) => Err(ParseError::Xml(error)),
        Ok(root) => {
            let ghost whole = root;
            let mut root = root;
            let r = parse_result_from_xml(&mut root);
            assert(outcome_of(r) == listing_of(whole, root));
            r
        },
    }
}

/// The status and error body of a failed request, as the transport hands them over.
#[derive(Debug, Clone, PartialEq, Eq)]
pub struct MetaRequestResult {
    /// The HTTP status of the response.
    pub response_status: i32,
    /// The body of the error response, where there was one.
    pub error_response_body: Option<Vec<u8>>,
}

/// The listing error that an error document names in its `Code` child.
pub open spec fn error_of_document(root: Element) -> Option<ListObjectsError> {
    match first_named(element_children(root), "Code"@) {
        None => None,
        Some(code) => match element_text(code) {
            None => None,
            Some(text) => if text == "NoSuchBucket"@ {
                Some(ListObjectsError::NoSuchBucket)
            } else {
                None
            },
        },
    }
}

/// The listing error that a status and an error body stand for: only a 404
/// whose body is an XML document with the code `NoSuchBucket` stands for one.
pub open spec fn list_objects_error_of(status: i32, body: Option<Seq<u8>>) -> Option<
    ListObjectsError,
> {
    if status == 404 {
        match body {
            None => None,
            Some(bytes) => match document_root(bytes) {
                None => None,
                Some(root) => error_of_document(root),
            },
        }
    } else {
        None
    }
}

pub open spec fn bytes_of(body: Option<Vec<u8>>) -> Option<Seq<u8>> {
    match body {
        Some(bytes) => Some(bytes@),
        None => None,
    }
}

/// Reads the error code out of a parsed error document.
pub fn classify_error_document(root: &Element) -> (r: Option<ListObjectsError>)
    ensures
        r == error_of_document(*root),
{
    match find_child(root, "Code") {
        None => None,
        Some(error_code) => match text_content(error_code) {
            None => None,
            Some(error_str) => if same_text(error_str.as_str(), "NoSuchBucket") {
                Some(ListObjectsError::NoSuchBucket)
            } else {
                None
            },
        },
    }
}

/// Recognises the listing errors among failed requests. Whatever cannot be
/// read as one (another status, no body, a body that is not XML, another
/// code) gives no classification, never a failure.
pub fn parse_list_objects_error(result: &MetaRequestResult) -> (r: Option<ListObjectsError>)
    ensures
        r == list_objects_error_of(result.response_status, bytes_of(result.error_response_body)),
{
    if result.response_status == 404 {
        match &result.error_response_body {
            None => None,
            Some(body) => match parse_document(body.as_slice()) {
                Err(_) => None,
                Ok(root) => classify_error_document(&root),
            },
        }
    } else {
        None
    }
}

} // verus!
