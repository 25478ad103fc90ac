//! Requests to store blobs, and their responses.

use bytes::Bytes;

use vstd::prelude::*;

verus! {

/// Bytes that are shared without copying. They are only carried.
#[verifier::external_type_specification]
#[verifier::external_body]
pub struct ExBytes(bytes::Bytes);

/// `bytes::Bytes::clone`: a handle to the same bytes.
pub assume_specification[ <bytes::Bytes as Clone>::clone ](bytes: &bytes::Bytes) -> (copy:
    bytes::Bytes)
    ensures
        copy == *bytes,
;

/// A size of events as JSON, in bytes.
#[derive(Clone, Copy, Debug, PartialEq, Eq, Structural)]
pub struct JsonSize {
    pub bytes: usize,
}

/// What became of events.
#[derive(Clone, Copy, Debug, PartialEq, Eq, Structural)]
pub enum EventStatus {
    Dropped,
    Delivered,
    Errored,
    Rejected,
    Recorded,
}

/// What goes along with a blob: where it belongs, how many events it holds, and whom to tell what
/// became of them.
#[derive(Debug)]
pub struct AzureBlobMetadata<Finalizers> {
    pub partition_key: String,
    pub count: usize,
    pub byte_size: JsonSize,
    pub finalizers: Finalizers,
}

/// A request to store a blob.
#[derive(Debug)]
pub struct AzureBlobRequest<RequestMetadata, Finalizers> {
    pub blob_data: Bytes,
    pub content_encoding: Option<&'static str>,
    pub content_type: &'static str,
    pub metadata: AzureBlobMetadata<Finalizers>,
    pub request_metadata: RequestMetadata,
}

impl<Finalizers: Clone> Clone for AzureBlobMetadata<Finalizers> {
    fn clone(&self) -> (copy: AzureBlobMetadata<Finalizers>)
        ensures
            copy.partition_key == self.partition_key,
            copy.count == self.count,
            copy.byte_size == self.byte_size,
            cloned(self.finalizers, copy.finalizers),
    {
        AzureBlobMetadata {
            partition_key: self.partition_key.clone(),
            count: self.count,
            byte_size: self.byte_size,
            finalizers: self.finalizers.clone(),
        }
    }
}

impl<RequestMetadata: Clone, Finalizers: Clone> Clone for AzureBlobRequest<
    RequestMetadata,
    Finalizers,
> {
    fn clone(&self) -> (copy: AzureBlobRequest<RequestMetadata, Finalizers>)
        ensures
            copy.blob_data == self.blob_data,
            copy.content_encoding == self.content_encoding,
            copy.content_type == self.content_type,
            copy.metadata.partition_key == self.metadata.partition_key,
            copy.metadata.count == self.metadata.count,
            copy.metadata.byte_size == self.metadata.byte_size,
            cloned(self.metadata.finalizers, copy.metadata.finalizers),
            cloned(self.request_metadata, copy.request_metadata),
    {
        AzureBlobRequest {
            blob_data: self.blob_data.clone(),
            content_encoding: self.content_encoding,
            content_type: self.content_type,
            metadata: self.metadata.clone(),
            request_metadata: self.request_metadata.clone(),
        }
    }
}

impl<RequestMetadata, Finalizers: Default> AzureBlobRequest<RequestMetadata, Finalizers> {
    /// Takes the finalizers out, and leaves default ones.
    pub fn take_finalizers(&mut self) -> (taken: Finalizers)
        ensures
            taken == old(self).metadata.finalizers,
            call_ensures(Finalizers::default, (), final(self).metadata.finalizers),
            final(self).metadata.partition_key == old(self).metadata.partition_key,
            final(self).metadata.count == old(self).metadata.count,
            final(self).metadata.byte_size == old(self).metadata.byte_size,
            final(self).blob_data == old(self).blob_data,
            final(self).content_encoding == old(self).content_encoding,
            final(self).content_type == old(self).content_type,
            final(self).request_metadata == old(self).request_metadata,
    {
        let mut taken: Finalizers = Finalizers::default();
        std::mem::swap(&mut taken, &mut self.metadata.finalizers);
        taken
    }
}

impl<RequestMetadata, Finalizers> AzureBlobRequest<RequestMetadata, Finalizers> {
    /// The metadata of the request.
    pub fn get_metadata(&self) -> (metadata: &RequestMetadata)
        ensures
            *metadata == self.request_metadata,
    {
        &self.request_metadata
    }

    /// The metadata of the request, to change.
    pub fn metadata_mut(&mut self) -> (metadata: &mut RequestMetadata)
        ensures
            *metadata == old(self).request_metadata,
            final(self).request_metadata == *final(metadata),
            final(self).metadata == old(self).metadata,
            final(self).blob_data == old(self).blob_data,
            final(self).content_encoding == old(self).content_encoding,
            final(self).content_type == old(self).content_type,
    {
        &mut self.request_metadata
    }
}

/// A blob that was stored.
#[derive(Debug)]
pub struct AzureBlobResponse<GroupedCountByteSize> {
    pub events_byte_size: GroupedCountByteSize,
    pub byte_size: usize,
}

impl<GroupedCountByteSize> AzureBlobResponse<GroupedCountByteSize> {
    /// The events of a stored blob are delivered.
    pub fn event_status(&self) -> (status: EventStatus)
        ensures
            status == EventStatus::Delivered,
    {
        EventStatus::Delivered
    }

    /// The events that were sent.
    pub fn events_sent(&self) -> (sent: &GroupedCountByteSize)
        ensures
            *sent == self.events_byte_size,
    {
        &self.events_byte_size
    }

    /// The bytes that were sent.
    pub fn bytes_sent(&self) -> (sent: Option<usize>)
        ensures
            sent == Some(self.byte_size),
    {
        Some(self.byte_size)
    }
}

}
