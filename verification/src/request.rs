//! The upload target and the request shapes derived from it.
//!
//! An upload target carries every attribute an object can be created with.
//! Each call of the multipart protocol accepts only some of them; the
//! functions of this module are the one place that says which.

use std::collections::HashMap;
use vstd::prelude::*;

verus! {

/// Where an upload goes and with which attributes the object is created.
#[derive(Debug, PartialEq)]
pub struct UploadTarget {
    pub acl: Option<String>,
    pub bucket: String,
    pub bucket_key_enabled: Option<bool>,
    pub cache_control: Option<String>,
    pub content_disposition: Option<String>,
    pub content_encoding: Option<String>,
    pub content_language: Option<String>,
    pub content_length: Option<i64>,
    pub content_md5: Option<String>,
    pub content_type: Option<String>,
    pub expected_bucket_owner: Option<String>,
    pub expires: Option<String>,
    pub grant_full_control: Option<String>,
    pub grant_read: Option<String>,
    pub grant_read_acp: Option<String>,
    pub grant_write_acp: Option<String>,
    pub key: String,
    pub metadata: Option<HashMap<String, String>>,
    pub object_lock_legal_hold_status: Option<String>,
    pub object_lock_mode: Option<String>,
    pub object_lock_retain_until_date: Option<String>,
    pub request_payer: Option<String>,
    pub sse_customer_algorithm: Option<String>,
    pub sse_customer_key: Option<String>,
    pub sse_customer_key_md5: Option<String>,
    pub ssekms_encryption_context: Option<String>,
    pub ssekms_key_id: Option<String>,
    pub server_side_encryption: Option<String>,
    pub storage_class: Option<String>,
    pub tagging: Option<String>,
    pub website_redirect_location: Option<String>,
}

/// An upload target as a mathematical value.
pub struct TargetView {
    pub acl: Option<Seq<char>>,
    pub bucket: Seq<char>,
    pub bucket_key_enabled: Option<bool>,
    pub cache_control: Option<Seq<char>>,
    pub content_disposition: Option<Seq<char>>,
    pub content_encoding: Option<Seq<char>>,
    pub content_language: Option<Seq<char>>,
    pub content_length: Option<i64>,
    pub content_md5: Option<Seq<char>>,
    pub content_type: Option<Seq<char>>,
    pub expected_bucket_owner: Option<Seq<char>>,
    pub expires: Option<Seq<char>>,
    pub grant_full_control: Option<Seq<char>>,
    pub grant_read: Option<Seq<char>>,
    pub grant_read_acp: Option<Seq<char>>,
    pub grant_write_acp: Option<Seq<char>>,
    pub key: Seq<char>,
    pub metadata: Option<Map<String, String>>,
    pub object_lock_legal_hold_status: Option<Seq<char>>,
    pub object_lock_mode: Option<Seq<char>>,
    pub object_lock_retain_until_date: Option<Seq<char>>,
    pub request_payer: Option<Seq<char>>,
    pub sse_customer_algorithm: Option<Seq<char>>,
    pub sse_customer_key: Option<Seq<char>>,
    pub sse_customer_key_md5: Option<Seq<char>>,
    pub ssekms_encryption_context: Option<Seq<char>>,
    pub ssekms_key_id: Option<Seq<char>>,
    pub server_side_encryption: Option<Seq<char>>,
    pub storage_class: Option<Seq<char>>,
    pub tagging: Option<Seq<char>>,
    pub website_redirect_location: Option<Seq<char>>,
}

/// The metadata table as a mathematical value.
pub open spec fn table_view(table: Option<HashMap<String, String>>) -> Option<Map<String, String>> {
    match table {
        Some(entries) => Some(entries@),
        None => None,
    }
}

impl View for UploadTarget {
    type V = TargetView;

    open spec fn view(&self) -> TargetView {
        TargetView {
            acl: self.acl.deep_view(),
            bucket: self.bucket@,
            bucket_key_enabled: self.bucket_key_enabled,
            cache_control: self.cache_control.deep_view(),
            content_disposition: self.content_disposition.deep_view(),
            content_encoding: self.content_encoding.deep_view(),
            content_language: self.content_language.deep_view(),
            content_length: self.content_length,
            content_md5: self.content_md5.deep_view(),
            content_type: self.content_type.deep_view(),
            expected_bucket_owner: self.expected_bucket_owner.deep_view(),
            expires: self.expires.deep_view(),
            grant_full_control: self.grant_full_control.deep_view(),
            grant_read: self.grant_read.deep_view(),
            grant_read_acp: self.grant_read_acp.deep_view(),
            grant_write_acp: self.grant_write_acp.deep_view(),
            key: self.key@,
            metadata: table_view(self.metadata),
            object_lock_legal_hold_status: self.object_lock_legal_hold_status.deep_view(),
            object_lock_mode: self.object_lock_mode.deep_view(),
            object_lock_retain_until_date: self.object_lock_retain_until_date.deep_view(),
            request_payer: self.request_payer.deep_view(),
            sse_customer_algorithm: self.sse_customer_algorithm.deep_view(),
            sse_customer_key: self.sse_customer_key.deep_view(),
            sse_customer_key_md5: self.sse_customer_key_md5.deep_view(),
            ssekms_encryption_context: self.ssekms_encryption_context.deep_view(),
            ssekms_key_id: self.ssekms_key_id.deep_view(),
            server_side_encryption: self.server_side_encryption.deep_view(),
            storage_class: self.storage_class.deep_view(),
            tagging: self.tagging.deep_view(),
            website_redirect_location: self.website_redirect_location.deep_view(),
        }
    }
}

/// A copy of an optional text.
fn copy_text(text: &Option<String>) -> (copy: Option<String>)
    ensures
        copy == *text,
{
    match text {
        Some(value) => Some(value.clone()),
        None => None,
    }
}

/// A copy of an optional metadata table.
fn copy_table(table: &Option<HashMap<String, String>>) -> (copy: Option<
    HashMap<String, String>,
>)
    ensures
        table_view(copy) == table_view(*table),
{
    match table {
        Some(entries) => Some(entries.clone()),
        None => None,
    }
}

/// One uploaded part: its number within the session and the entity tag
/// that the store returned for it.
#[derive(Debug, PartialEq)]
pub struct CompletedPart {
    pub part_number: i64,
    pub e_tag: Option<String>,
}

/// An uploaded part as a mathematical value.
pub struct PartView {
    pub part_number: int,
    pub e_tag: Option<Seq<char>>,
}

impl View for CompletedPart {
    type V = PartView;

    open spec fn view(&self) -> PartView {
        PartView { part_number: self.part_number as int, e_tag: self.e_tag.deep_view() }
    }
}

impl DeepView for CompletedPart {
    type V = PartView;

    open spec fn deep_view(&self) -> PartView {
        self@
    }
}

/// What the create-session call accepts: every attribute the object is created with.
#[derive(Debug, PartialEq)]
pub struct CreateSessionRequest {
    pub acl: Option<String>,
    pub bucket: String,
    pub bucket_key_enabled: Option<bool>,
    pub cache_control: Option<String>,
    pub content_disposition: Option<String>,
    pub content_encoding: Option<String>,
    pub content_language: Option<String>,
    pub content_type: Option<String>,
    pub expected_bucket_owner: Option<String>,
    pub expires: Option<String>,
    pub grant_full_control: Option<String>,
    pub grant_read: Option<String>,
    pub grant_read_acp: Option<String>,
    pub grant_write_acp: Option<String>,
    pub key: String,
    pub metadata: Option<HashMap<String, String>>,
    pub object_lock_legal_hold_status: Option<String>,
    pub object_lock_mode: Option<String>,
    pub object_lock_retain_until_date: Option<String>,
    pub request_payer: Option<String>,
    pub sse_customer_algorithm: Option<String>,
    pub sse_customer_key: Option<String>,
    pub sse_customer_key_md5: Option<String>,
    pub ssekms_encryption_context: Option<String>,
    pub ssekms_key_id: Option<String>,
    pub server_side_encryption: Option<String>,
    pub storage_class: Option<String>,
    pub tagging: Option<String>,
    pub website_redirect_location: Option<String>,
}

/// A create-session request as a mathematical value.
pub struct CreateSessionView {
    pub acl: Option<Seq<char>>,
    pub bucket: Seq<char>,
    pub bucket_key_enabled: Option<bool>,
    pub cache_control: Option<Seq<char>>,
    pub content_disposition: Option<Seq<char>>,
    pub content_encoding: Option<Seq<char>>,
    pub content_language: Option<Seq<char>>,
    pub content_type: Option<Seq<char>>,
    pub expected_bucket_owner: Option<Seq<char>>,
    pub expires: Option<Seq<char>>,
    pub grant_full_control: Option<Seq<char>>,
    pub grant_read: Option<Seq<char>>,
    pub grant_read_acp: Option<Seq<char>>,
    pub grant_write_acp: Option<Seq<char>>,
    pub key: Seq<char>,
    pub metadata: Option<Map<String, String>>,
    pub object_lock_legal_hold_status: Option<Seq<char>>,
    pub object_lock_mode: Option<Seq<char>>,
    pub object_lock_retain_until_date: Option<Seq<char>>,
    pub request_payer: Option<Seq<char>>,
    pub sse_customer_algorithm: Option<Seq<char>>,
    pub sse_customer_key: Option<Seq<char>>,
    pub sse_customer_key_md5: Option<Seq<char>>,
    pub ssekms_encryption_context: Option<Seq<char>>,
    pub ssekms_key_id: Option<Seq<char>>,
    pub server_side_encryption: Option<Seq<char>>,
    pub storage_class: Option<Seq<char>>,
    pub tagging: Option<Seq<char>>,
    pub website_redirect_location: Option<Seq<char>>,
}

impl View for CreateSessionRequest {
    type V = CreateSessionView;

    open spec fn view(&self) -> CreateSessionView {
        CreateSessionView {
            acl: self.acl.deep_view(),
            bucket: self.bucket@,
            bucket_key_enabled: self.bucket_key_enabled,
            cache_control: self.cache_control.deep_view(),
            content_disposition: self.content_disposition.deep_view(),
            content_encoding: self.content_encoding.deep_view(),
            content_language: self.content_language.deep_view(),
            content_type: self.content_type.deep_view(),
            expected_bucket_owner: self.expected_bucket_owner.deep_view(),
            expires: self.expires.deep_view(),
            grant_full_control: self.grant_full_control.deep_view(),
            grant_read: self.grant_read.deep_view(),
            grant_read_acp: self.grant_read_acp.deep_view(),
            grant_write_acp: self.grant_write_acp.deep_view(),
            key: self.key@,
            metadata: table_view(self.metadata),
            object_lock_legal_hold_status: self.object_lock_legal_hold_status.deep_view(),
            object_lock_mode: self.object_lock_mode.deep_view(),
            object_lock_retain_until_date: self.object_lock_retain_until_date.deep_view(),
            request_payer: self.request_payer.deep_view(),
            sse_customer_algorithm: self.sse_customer_algorithm.deep_view(),
            sse_customer_key: self.sse_customer_key.deep_view(),
            sse_customer_key_md5: self.sse_customer_key_md5.deep_view(),
            ssekms_encryption_context: self.ssekms_encryption_context.deep_view(),
            ssekms_key_id: self.ssekms_key_id.deep_view(),
            server_side_encryption: self.server_side_encryption.deep_view(),
            storage_class: self.storage_class.deep_view(),
            tagging: self.tagging.deep_view(),
            website_redirect_location: self.website_redirect_location.deep_view(),
        }
    }
}

/// What the upload-part call accepts: the part itself, the session it belongs to, and of the
/// target the location, who pays, and the customer-provided encryption key.
#[derive(Debug, PartialEq)]
pub struct UploadPartRequest {
    pub body: Vec<u8>,
    pub part_number: i64,
    pub upload_id: String,
    pub bucket: String,
    pub expected_bucket_owner: Option<String>,
    pub key: String,
    pub request_payer: Option<String>,
    pub sse_customer_algorithm: Option<String>,
    pub sse_customer_key: Option<String>,
    pub sse_customer_key_md5: Option<String>,
}

/// An upload-part request as a mathematical value.
pub struct UploadPartView {
    pub body: Seq<u8>,
    pub part_number: int,
    pub upload_id: Seq<char>,
    pub bucket: Seq<char>,
    pub expected_bucket_owner: Option<Seq<char>>,
    pub key: Seq<char>,
    pub request_payer: Option<Seq<char>>,
    pub sse_customer_algorithm: Option<Seq<char>>,
    pub sse_customer_key: Option<Seq<char>>,
    pub sse_customer_key_md5: Option<Seq<char>>,
}

impl View for UploadPartRequest {
    type V = UploadPartView;

    open spec fn view(&self) -> UploadPartView {
        UploadPartView {
            body: self.body@,
            part_number: self.part_number as int,
            upload_id: self.upload_id@,
            bucket: self.bucket@,
            expected_bucket_owner: self.expected_bucket_owner.deep_view(),
            key: self.key@,
            request_payer: self.request_payer.deep_view(),
            sse_customer_algorithm: self.sse_customer_algorithm.deep_view(),
            sse_customer_key: self.sse_customer_key.deep_view(),
            sse_customer_key_md5: self.sse_customer_key_md5.deep_view(),
        }
    }
}

/// What the completion call accepts: the session and its parts in upload order.
#[derive(Debug, PartialEq)]
pub struct CompleteSessionRequest {
    pub parts: Vec<CompletedPart>,
    pub upload_id: String,
    pub bucket: String,
    pub expected_bucket_owner: Option<String>,
    pub key: String,
    pub request_payer: Option<String>,
}

/// A completion request as a mathematical value.
pub struct CompleteSessionView {
    pub parts: Seq<PartView>,
    pub upload_id: Seq<char>,
    pub bucket: Seq<char>,
    pub expected_bucket_owner: Option<Seq<char>>,
    pub key: Seq<char>,
    pub request_payer: Option<Seq<char>>,
}

impl View for CompleteSessionRequest {
    type V = CompleteSessionView;

    open spec fn view(&self) -> CompleteSessionView {
        CompleteSessionView {
            parts: self.parts.deep_view(),
            upload_id: self.upload_id@,
            bucket: self.bucket@,
            expected_bucket_owner: self.expected_bucket_owner.deep_view(),
            key: self.key@,
            request_payer: self.request_payer.deep_view(),
        }
    }
}

/// What the abort call accepts: the session and where it lives.
#[derive(Debug, PartialEq)]
pub struct AbortSessionRequest {
    pub upload_id: String,
    pub bucket: String,
    pub expected_bucket_owner: Option<String>,
    pub key: String,
    pub request_payer: Option<String>,
}

/// An abort request as a mathematical value.
pub struct AbortSessionView {
    pub upload_id: Seq<char>,
    pub bucket: Seq<char>,
    pub expected_bucket_owner: Option<Seq<char>>,
    pub key: Seq<char>,
    pub request_payer: Option<Seq<char>>,
}

impl View for AbortSessionRequest {
    type V = AbortSessionView;

    open spec fn view(&self) -> AbortSessionView {
        AbortSessionView {
            upload_id: self.upload_id@,
            bucket: self.bucket@,
            expected_bucket_owner: self.expected_bucket_owner.deep_view(),
            key: self.key@,
            request_payer: self.request_payer.deep_view(),
        }
    }
}

/// What the whole-object put accepts: the target and the object's content.
#[derive(Debug, PartialEq)]
pub struct PutObjectRequest {
    pub target: UploadTarget,
    pub body: Vec<u8>,
}

/// A whole-object put as a mathematical value.
pub struct PutObjectView {
    pub target: TargetView,
    pub body: Seq<u8>,
}

impl View for PutObjectRequest {
    type V = PutObjectView;

    open spec fn view(&self) -> PutObjectView {
        PutObjectView { target: self.target@, body: self.body@ }
    }
}

/// The create-session request for `target`: all of its attributes but the length and the
/// checksum of the content, which belong to a single body.
pub open spec fn create_session_of(target: TargetView) -> CreateSessionView {
    CreateSessionView {
        acl: target.acl,
        bucket: target.bucket,
        bucket_key_enabled: target.bucket_key_enabled,
        cache_control: target.cache_control,
        content_disposition: target.content_disposition,
        content_encoding: target.content_encoding,
        content_language: target.content_language,
        content_type: target.content_type,
        expected_bucket_owner: target.expected_bucket_owner,
        expires: target.expires,
        grant_full_control: target.grant_full_control,
        grant_read: target.grant_read,
        grant_read_acp: target.grant_read_acp,
        grant_write_acp: target.grant_write_acp,
        key: target.key,
        metadata: target.metadata,
        object_lock_legal_hold_status: target.object_lock_legal_hold_status,
        object_lock_mode: target.object_lock_mode,
        object_lock_retain_until_date: target.object_lock_retain_until_date,
        request_payer: target.request_payer,
        sse_customer_algorithm: target.sse_customer_algorithm,
        sse_customer_key: target.sse_customer_key,
        sse_customer_key_md5: target.sse_customer_key_md5,
        ssekms_encryption_context: target.ssekms_encryption_context,
        ssekms_key_id: target.ssekms_key_id,
        server_side_encryption: target.server_side_encryption,
        storage_class: target.storage_class,
        tagging: target.tagging,
        website_redirect_location: target.website_redirect_location,
    }
}

/// The upload-part request that sends `body` as part `part_number` of session `upload_id`.
pub open spec fn upload_part_of(
    target: TargetView,
    upload_id: Seq<char>,
    part_number: int,
    body: Seq<u8>,
) -> UploadPartView {
    UploadPartView {
        body,
        part_number,
        upload_id,
        bucket: target.bucket,
        expected_bucket_owner: target.expected_bucket_owner,
        key: target.key,
        request_payer: target.request_payer,
        sse_customer_algorithm: target.sse_customer_algorithm,
        sse_customer_key: target.sse_customer_key,
        sse_customer_key_md5: target.sse_customer_key_md5,
    }
}

/// The request that completes session `upload_id` from `parts`.
pub open spec fn complete_session_of(
    target: TargetView,
    upload_id: Seq<char>,
    parts: Seq<PartView>,
) -> CompleteSessionView {
    CompleteSessionView {
        parts,
        upload_id,
        bucket: target.bucket,
        expected_bucket_owner: target.expected_bucket_owner,
        key: target.key,
        request_payer: target.request_payer,
    }
}

/// The request that aborts session `upload_id`.
pub open spec fn abort_session_of(target: TargetView, upload_id: Seq<char>) -> AbortSessionView {
    AbortSessionView {
        upload_id,
        bucket: target.bucket,
        expected_bucket_owner: target.expected_bucket_owner,
        key: target.key,
        request_payer: target.request_payer,
    }
}

/// The target at `bucket` and `key` with no other attribute set.
pub open spec fn bare_target(bucket: Seq<char>, key: Seq<char>) -> TargetView {
    TargetView {
        acl: None,
        bucket,
        bucket_key_enabled: None,
        cache_control: None,
        content_disposition: None,
        content_encoding: None,
        content_language: None,
        content_length: None,
        content_md5: None,
        content_type: None,
        expected_bucket_owner: None,
        expires: None,
        grant_full_control: None,
        grant_read: None,
        grant_read_acp: None,
        grant_write_acp: None,
        key,
        metadata: None,
        object_lock_legal_hold_status: None,
        object_lock_mode: None,
        object_lock_retain_until_date: None,
        request_payer: None,
        sse_customer_algorithm: None,
        sse_customer_key: None,
        sse_customer_key_md5: None,
        ssekms_encryption_context: None,
        ssekms_key_id: None,
        server_side_encryption: None,
        storage_class: None,
        tagging: None,
        website_redirect_location: None,
    }
}

impl UploadTarget {
    /// A target with no attribute set beyond its location.
    pub fn new(bucket: String, key: String) -> (target: UploadTarget)
        ensures
            target@ == bare_target(bucket@, key@),
    {
        UploadTarget {
            acl: None,
            bucket,
            bucket_key_enabled: None,
            cache_control: None,
            content_disposition: None,
            content_encoding: None,
            content_language: None,
            content_length: None,
            content_md5: None,
            content_type: None,
            expected_bucket_owner: None,
            expires: None,
            grant_full_control: None,
            grant_read: None,
            grant_read_acp: None,
            grant_write_acp: None,
            key,
            metadata: None,
            object_lock_legal_hold_status: None,
            object_lock_mode: None,
            object_lock_retain_until_date: None,
            request_payer: None,
            sse_customer_algorithm: None,
            sse_customer_key: None,
            sse_customer_key_md5: None,
            ssekms_encryption_context: None,
            ssekms_key_id: None,
            server_side_encryption: None,
            storage_class: None,
            tagging: None,
            website_redirect_location: None,
        }
    }

    /// Builds the create-session request.
    pub fn create_session_request(&self) -> (request: CreateSessionRequest)
        ensures
            request@ == create_session_of(self@),
    {
        CreateSessionRequest {
            acl: copy_text(&self.acl),
            bucket: self.bucket.clone(),
            bucket_key_enabled: self.bucket_key_enabled,
            cache_control: copy_text(&self.cache_control),
            content_disposition: copy_text(&self.content_disposition),
            content_encoding: copy_text(&self.content_encoding),
            content_language: copy_text(&self.content_language),
            content_type: copy_text(&self.content_type),
            expected_bucket_owner: copy_text(&self.expected_bucket_owner),
            expires: copy_text(&self.expires),
            grant_full_control: copy_text(&self.grant_full_control),
            grant_read: copy_text(&self.grant_read),
            grant_read_acp: copy_text(&self.grant_read_acp),
            grant_write_acp: copy_text(&self.grant_write_acp),
            key: self.key.clone(),
            metadata: copy_table(&self.metadata),
            object_lock_legal_hold_status: copy_text(&self.object_lock_legal_hold_status),
            object_lock_mode: copy_text(&self.object_lock_mode),
            object_lock_retain_until_date: copy_text(&self.object_lock_retain_until_date),
            request_payer: copy_text(&self.request_payer),
            sse_customer_algorithm: copy_text(&self.sse_customer_algorithm),
            sse_customer_key: copy_text(&self.sse_customer_key),
            sse_customer_key_md5: copy_text(&self.sse_customer_key_md5),
            ssekms_encryption_context: copy_text(&self.ssekms_encryption_context),
            ssekms_key_id: copy_text(&self.ssekms_key_id),
            server_side_encryption: copy_text(&self.server_side_encryption),
            storage_class: copy_text(&self.storage_class),
            tagging: copy_text(&self.tagging),
            website_redirect_location: copy_text(&self.website_redirect_location),
        }
    }

    /// Builds the request that uploads `body` as part `part_number`.
    pub fn upload_part_request(
        &self,
        upload_id: &String,
        part_number: i64,
        body: Vec<u8>,
    ) -> (request: UploadPartRequest)
        ensures
            request@ == upload_part_of(self@, upload_id@, part_number as int, body@),
    {
        UploadPartRequest {
            body,
            part_number,
            upload_id: upload_id.clone(),
            bucket: self.bucket.clone(),
            expected_bucket_owner: copy_text(&self.expected_bucket_owner),
            key: self.key.clone(),
            request_payer: copy_text(&self.request_payer),
            sse_customer_algorithm: copy_text(&self.sse_customer_algorithm),
            sse_customer_key: copy_text(&self.sse_customer_key),
            sse_customer_key_md5: copy_text(&self.sse_customer_key_md5),
        }
    }

    /// Builds the request that completes the session from `parts`.
    pub fn complete_session_request(
        &self,
        upload_id: &String,
        parts: Vec<CompletedPart>,
    ) -> (request: CompleteSessionRequest)
        ensures
            request@ == complete_session_of(self@, upload_id@, parts.deep_view()),
    {
        CompleteSessionRequest {
            parts,
            upload_id: upload_id.clone(),
            bucket: self.bucket.clone(),
            expected_bucket_owner: copy_text(&self.expected_bucket_owner),
            key: self.key.clone(),
            request_payer: copy_text(&self.request_payer),
        }
    }

    /// Builds the request that aborts the session.
    pub fn abort_session_request(&self, upload_id: String) -> (request: AbortSessionRequest)
        ensures
            request@ == abort_session_of(self@, upload_id@),
    {
        AbortSessionRequest {
            upload_id,
            bucket: self.bucket.clone(),
            expected_bucket_owner: copy_text(&self.expected_bucket_owner),
            key: self.key.clone(),
            request_payer: copy_text(&self.request_payer),
        }
    }

    /// Builds the whole-object put of `body` to this target.
    pub fn put_object_request(self, body: Vec<u8>) -> (request: PutObjectRequest)
        ensures
            request@ == (PutObjectView { target: self@, body: body@ }),
    {
        PutObjectRequest { target: self, body }
    }
}

} // verus!
