//! What holds of every listing document and every error response, proved
//! from the definitions that the decoder's contracts use.

use vstd::prelude::*;
use xmltree::Element;
use crate::list_objects::{
    checksum_of, collect, continuation_token_of, decodes_from_bytes, error_of_document, field_of,
    is_pruned, list_objects_error_of, listing_of, object_decoder, object_of, prefix_decoder, records_decode, restore_status_of,
};
use crate::object_client::{
    ChecksumName, ListObjectsError, Listing, ObjectRecord, ParseFailure, RestoreStatus,
};
use crate::scalar::{bool_of_text, rfc3339_instant};
use crate::xml::{document_root, element_children, element_text, first_named, named};

verus! {

/// Where a run of elements decodes, the result has one value for each
/// element, at the element's place.
pub proof fn lemma_collect_pointwise<T>(
    cs: Seq<Element>,
    decode: spec_fn(Element) -> Result<T, ParseFailure>,
    out: Seq<T>,
)
    requires
        collect(cs, decode) == Ok::<Seq<T>, ParseFailure>(out),
    ensures
        out.len() == cs.len(),
        forall|i: int| 0 <= i < out.len() ==> decode(cs[i]) == Ok::<T, ParseFailure>(#[trigger] out[i]),
    decreases cs.len(),
{
    if cs.len() > 0 {
        let value = decode(cs[0])->Ok_0;
        let rest = collect(cs.drop_first(), decode)->Ok_0;
        lemma_collect_pointwise(cs.drop_first(), decode, rest);
        assert(out =~= seq![value] + rest);
        assert forall|i: int| 0 <= i < out.len() implies decode(cs[i]) == Ok::<T, ParseFailure>(
            #[trigger] out[i],
        ) by {
            if i > 0 {
                assert(cs[i] == cs.drop_first()[i - 1]);
                assert(out[i] == rest[i - 1]);
            }
        }
    }
}

/// A listing that decodes holds exactly one object for each `Contents`
/// child of the document and one prefix for each `CommonPrefixes` child,
/// each at the place that its element has among its like in the document.
pub proof fn lemma_listing_follows_document(root: Element, pruned: Element, listing: Listing)
    requires
        listing_of(root, pruned) == Ok::<Listing, ParseFailure>(listing),
    ensures
        listing.objects.len() == named(element_children(root), "Contents"@).len(),
        forall|i: int|
            0 <= i < listing.objects.len() ==> object_of(
                named(element_children(root), "Contents"@)[i],
            ) == Ok::<ObjectRecord, ParseFailure>(#[trigger] listing.objects[i]),
        listing.common_prefixes.len() == named(element_children(root), "CommonPrefixes"@).len(),
        forall|i: int|
            0 <= i < listing.common_prefixes.len() ==> field_of(
                named(element_children(root), "CommonPrefixes"@)[i],
                "Prefix"@,
            ) == Ok::<Seq<char>, ParseFailure>(#[trigger] listing.common_prefixes[i]),
{
    let children = element_children(root);
    lemma_collect_pointwise(named(children, "Contents"@), object_decoder(), listing.objects);
    lemma_collect_pointwise(
        named(children, "CommonPrefixes"@),
        prefix_decoder(),
        listing.common_prefixes,
    );
}

/// A response body that decodes is a well-formed document, and the listing
/// holds one object for each of its `Contents` children and one prefix for
/// each of its `CommonPrefixes` children, in document order.
pub proof fn lemma_response_follows_document(bytes: Seq<u8>, listing: Listing)
    requires
        decodes_from_bytes(bytes, Ok::<Listing, ParseFailure>(listing)),
    ensures
        document_root(bytes) is Some,
        listing.objects.len() == named(
            element_children(document_root(bytes)->Some_0),
            "Contents"@,
        ).len(),
        forall|i: int|
            0 <= i < listing.objects.len() ==> object_of(
                named(element_children(document_root(bytes)->Some_0), "Contents"@)[i],
            ) == Ok::<ObjectRecord, ParseFailure>(#[trigger] listing.objects[i]),
        listing.common_prefixes.len() == named(
            element_children(document_root(bytes)->Some_0),
            "CommonPrefixes"@,
        ).len(),
        forall|i: int|
            0 <= i < listing.common_prefixes.len() ==> field_of(
                named(element_children(document_root(bytes)->Some_0), "CommonPrefixes"@)[i],
                "Prefix"@,
            ) == Ok::<Seq<char>, ParseFailure>(#[trigger] listing.common_prefixes[i]),
{
    let root = document_root(bytes)->Some_0;
    let outcome = Ok::<Listing, ParseFailure>(listing);
    let pruned = choose|pruned: Element|
        outcome == #[trigger] listing_of(root, pruned) && (records_decode(root) ==> is_pruned(
            root,
            pruned,
        ));
    lemma_listing_follows_document(root, pruned, listing);
}

/// Whether a document says that it is truncated while it gives no
/// continuation token, or says that it is complete while it gives one.
pub open spec fn truncation_contradicts_token(root: Element) -> bool {
    let token = first_named(element_children(root), "NextContinuationToken"@);
    ||| field_of(root, "IsTruncated"@) == Ok::<Seq<char>, ParseFailure>("true"@) && token is None
    ||| field_of(root, "IsTruncated"@) == Ok::<Seq<char>, ParseFailure>("false"@) && token is Some
}

/// A document whose `IsTruncated` contradicts the presence of its
/// continuation token never decodes.
pub proof fn lemma_contradiction_never_decodes(root: Element, pruned: Element)
    requires
        truncation_contradicts_token(root),
    ensures
        listing_of(root, pruned) is Err,
{
    reveal_strlit("true");
    reveal_strlit("false");
    assert("true"@.len() != "false"@.len());
}

/// A response body whose document contradicts itself in this way never decodes.
pub proof fn lemma_contradicting_response_fails(
    bytes: Seq<u8>,
    root: Element,
    outcome: Result<Listing, ParseFailure>,
)
    requires
        document_root(bytes) == Some(root),
        truncation_contradicts_token(root),
        decodes_from_bytes(bytes, outcome),
    ensures
        outcome is Err,
{
    let pruned = choose|pruned: Element|
        outcome == #[trigger] listing_of(root, pruned) && (records_decode(root) ==> is_pruned(
            root,
            pruned,
        ));
    lemma_contradiction_never_decodes(root, pruned);
}

/// Where the objects, the prefixes and the token's text of such a document
/// are sound, the failure is the violated invariant and nothing else, and it
/// carries what is left of the document.
pub proof fn lemma_contradiction_is_invalid_response(root: Element, pruned: Element)
    requires
        truncation_contradicts_token(root),
        records_decode(root),
        continuation_token_of(root) is Ok,
    ensures
        listing_of(root, pruned) == Err::<Listing, ParseFailure>(
            ParseFailure::InvalidResponse(
                pruned,
                "IsTruncated doesn't match NextContinuationToken"@,
            ),
        ),
{
    reveal_strlit("true");
    reveal_strlit("false");
    assert("true"@.len() != "false"@.len());
}

/// A listing that decodes carries a continuation token exactly when the
/// document says that it is truncated.
pub proof fn lemma_token_iff_truncated(root: Element, pruned: Element, listing: Listing)
    requires
        listing_of(root, pruned) == Ok::<Listing, ParseFailure>(listing),
    ensures
        field_of(root, "IsTruncated"@) is Ok,
        bool_of_text(field_of(root, "IsTruncated"@)->Ok_0) == Some(
            listing.next_continuation_token.is_some(),
        ),
{
}

/// A restore that is in progress decodes as such, whatever else the
/// `RestoreStatus` element holds.
pub proof fn lemma_restore_in_progress(object: Element, status: Element)
    requires
        first_named(element_children(object), "RestoreStatus"@) == Some(status),
        field_of(status, "IsRestoreInProgress"@) == Ok::<Seq<char>, ParseFailure>("true"@),
    ensures
        restore_status_of(object) == Ok::<Option<RestoreStatus>, ParseFailure>(
            Some(RestoreStatus::InProgress),
        ),
{
}

/// A restore that is not in progress decodes to the instant that its expiry
/// date denotes.
pub proof fn lemma_restored_until_expiry(
    object: Element,
    status: Element,
    date: Seq<char>,
    expiry: time::OffsetDateTime,
)
    requires
        first_named(element_children(object), "RestoreStatus"@) == Some(status),
        field_of(status, "IsRestoreInProgress"@) == Ok::<Seq<char>, ParseFailure>("false"@),
        field_of(status, "RestoreExpiryDate"@) == Ok::<Seq<char>, ParseFailure>(date),
        rfc3339_instant(date) == Some(expiry),
    ensures
        restore_status_of(object) == Ok::<Option<RestoreStatus>, ParseFailure>(
            Some(RestoreStatus::Restored { expiry }),
        ),
{
    reveal_strlit("true");
    reveal_strlit("false");
    assert("true"@.len() != "false"@.len());
}

/// A checksum algorithm's name outside the table is kept, never refused.
pub proof fn lemma_unknown_checksum_is_kept(name: Seq<char>)
    requires
        name != "CRC64NVME"@,
        name != "CRC32"@,
        name != "CRC32C"@,
        name != "SHA1"@,
        name != "SHA256"@,
    ensures
        checksum_of(name) == ChecksumName::Unknown(name),
{
}

/// Only a 404 whose body is an XML document with the code `NoSuchBucket`
/// is classified, and then as the missing bucket.
pub proof fn lemma_only_missing_bucket_is_classified(status: i32, body: Option<Seq<u8>>)
    ensures
        list_objects_error_of(status, body) is Some ==> {
            &&& status == 404
            &&& body is Some
            &&& document_root(body->Some_0) is Some
            &&& first_named(element_children(document_root(body->Some_0)->Some_0), "Code"@) is Some
            &&& element_text(
                first_named(element_children(document_root(body->Some_0)->Some_0), "Code"@)->Some_0,
            ) == Some("NoSuchBucket"@)
            &&& list_objects_error_of(status, body) == Some(ListObjectsError::NoSuchBucket)
        },
        status != 404 ==> list_objects_error_of(status, body) is None,
{
}

/// A 404 whose error document names the code `NoSuchBucket` is the missing bucket.
pub proof fn lemma_missing_bucket_is_classified(bytes: Seq<u8>, root: Element, code: Element)
    requires
        document_root(bytes) == Some(root),
        first_named(element_children(root), "Code"@) == Some(code),
        element_text(code) == Some("NoSuchBucket"@),
    ensures
        list_objects_error_of(404, Some(bytes)) == Some(ListObjectsError::NoSuchBucket),
        error_of_document(root) == Some(ListObjectsError::NoSuchBucket),
{
}

/// An object element without a `Key` child fails as a missing field of that
/// name, and the failure carries the element.
pub proof fn lemma_object_needs_key(object: Element)
    requires
        first_named(element_children(object), "Key"@) is None,
    ensures
        object_of(object) == Err::<ObjectRecord, ParseFailure>(ParseFailure::MissingField(object, "Key"@)),
{
}

} // verus!
