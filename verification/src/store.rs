//! What is sent to the store: the primitive operations, the pipeline that
//! collects them, and the byte strings that they carry.
//!
//! The pipeline and the byte strings are types of the `redis` and `bytes`
//! crates. Their contents are named here, and each call into the two crates
//! is a function of this file whose contract is taken on trust.

use vstd::prelude::*;
use bytes::Bytes;
use redis::Pipeline;

verus! {

/// One primitive operation of the store.
pub enum StoreOp {
    /// `SET key value`: the key holds this value from now on.
    SetString { key: Seq<char>, value: Seq<u8> },
    /// `RPUSH key value`: the value is appended to the list at the key.
    PushList { key: Seq<char>, value: Seq<u8> },
    /// `RPUSHX key value`: as `RPUSH`, but only if the list exists.
    PushListIfExists { key: Seq<char>, value: Seq<u8> },
    /// `SADD key member`: the member is added to the set at the key.
    AddMember { key: Seq<char>, member: Seq<u8> },
    /// `SREM key member`: the member is removed from the set at the key.
    RemoveMember { key: Seq<char>, member: Seq<u8> },
    /// `HSET key field value`: the field of the hash at the key is set.
    SetField { key: Seq<char>, field: Seq<u8>, value: Seq<u8> },
    /// `DEL key`: the key is removed.
    DeleteKey { key: Seq<char> },
}

#[verifier::external_type_specification]
#[verifier::external_body]
pub struct ExPipeline(Pipeline);

#[verifier::external_type_specification]
#[verifier::external_body]
pub struct ExBytes(Bytes);

/// The commands that a pipeline holds, in the order in which they were
/// added and in which the store will run them.
pub uninterp spec fn pipeline_commands(pipe: Pipeline) -> Seq<StoreOp>;

/// Whether a pipeline is in atomic mode, in which the store runs all of its
/// commands as one transaction.
pub uninterp spec fn pipeline_is_atomic(pipe: Pipeline) -> bool;

/// The bytes that a byte string holds.
pub uninterp spec fn bytes_content(bytes: Bytes) -> Seq<u8>;

/// The contents of each byte string of a payload.
pub open spec fn payload_view(payload: Seq<Bytes>) -> Seq<Seq<u8>> {
    payload.map_values(|b: Bytes| bytes_content(b))
}

/// `after` is `before` with `op` added at the end.
pub open spec fn appended(before: Pipeline, after: Pipeline, op: StoreOp) -> bool {
    &&& pipeline_commands(after) == pipeline_commands(before).push(op)
    &&& pipeline_is_atomic(after) == pipeline_is_atomic(before)
}

/// `after` holds what `before` held.
pub open spec fn untouched(before: Pipeline, after: Pipeline) -> bool {
    &&& pipeline_commands(after) == pipeline_commands(before)
    &&& pipeline_is_atomic(after) == pipeline_is_atomic(before)
}

/// Calls `redis::pipe`, which returns `Pipeline::new()`: a pipeline with no
/// command in it and with atomic mode off.
#[verifier::external_body]
pub(crate) fn new_pipeline() -> (pipe: Pipeline)
    ensures
        pipeline_commands(pipe) == Seq::<StoreOp>::empty(),
        !pipeline_is_atomic(pipe),
{
    redis::pipe()
}

/// Calls `Pipeline::atomic`, which switches atomic mode on and leaves the
/// commands as they are.
#[verifier::external_body]
pub(crate) fn make_atomic(pipe: &mut Pipeline)
    ensures
        pipeline_is_atomic(*final(pipe)),
        pipeline_commands(*final(pipe)) == pipeline_commands(*old(pipe)),
{
    pipe.atomic();
}

/// Calls `Pipeline::set`, which adds the command `SET key value`.
#[verifier::external_body]
pub(crate) fn insert_string(pipe: &mut Pipeline, key: &str, value: &[u8])
    ensures
        appended(*old(pipe), *final(pipe), StoreOp::SetString { key: key@, value: value@ }),
{
    pipe.set(key, value);
}

/// Calls `Pipeline::sadd`, which adds the command `SADD key member`.
#[verifier::external_body]
pub(crate) fn insert_set(pipe: &mut Pipeline, key: &str, value: &[u8])
    ensures
        appended(*old(pipe), *final(pipe), StoreOp::AddMember { key: key@, member: value@ }),
{
    pipe.sadd(key, value);
}

/// Calls `Pipeline::hset`, which adds the command `HSET key field value`.
#[verifier::external_body]
pub(crate) fn insert_hset(pipe: &mut Pipeline, key: &str, name: &[u8], value: &[u8])
    ensures
        appended(
            *old(pipe),
            *final(pipe),
            StoreOp::SetField { key: key@, field: name@, value: value@ },
        ),
{
    pipe.hset(key, name, value);
}

/// Calls `Pipeline::rpush`, which adds the command `RPUSH key value`.
#[verifier::external_body]
pub(crate) fn insert_list(pipe: &mut Pipeline, key: &str, value: &[u8])
    ensures
        appended(*old(pipe), *final(pipe), StoreOp::PushList { key: key@, value: value@ }),
{
    pipe.rpush(key, value);
}

/// Calls `Pipeline::rpush_exists`, which adds the command `RPUSHX key value`.
#[verifier::external_body]
pub(crate) fn update_list(pipe: &mut Pipeline, key: &str, value: &[u8])
    ensures
        appended(
            *old(pipe),
            *final(pipe),
            StoreOp::PushListIfExists { key: key@, value: value@ },
        ),
{
    pipe.rpush_exists(key, value);
}

/// Calls `Pipeline::srem`, which adds the command `SREM key member`.
#[verifier::external_body]
pub(crate) fn remove_from_set(pipe: &mut Pipeline, key: &str, member: &[u8])
    ensures
        appended(*old(pipe), *final(pipe), StoreOp::RemoveMember { key: key@, member: member@ }),
{
    pipe.srem(key, member);
}

/// Calls `Pipeline::del`, which adds the command `DEL key`.
#[verifier::external_body]
pub(crate) fn delete_string(pipe: &mut Pipeline, key: &str)
    ensures
        appended(*old(pipe), *final(pipe), StoreOp::DeleteKey { key: key@ }),
{
    pipe.del(key);
}

/// Calls `AsRef::<[u8]>::as_ref` of `Bytes`, which lends out the bytes that
/// the byte string holds.
#[verifier::external_body]
pub(crate) fn bytes_as_slice(bytes: &Bytes) -> (r: &[u8])
    ensures
        r@ == bytes_content(*bytes),
{
    bytes.as_ref()
}

/// Calls `Bytes::from` on a vector, which makes a byte string of the
/// vector's bytes.
#[verifier::external_body]
pub(crate) fn bytes_from_vec(data: Vec<u8>) -> (r: Bytes)
    ensures
        bytes_content(r) == data@,
{
    Bytes::from(data)
}

} // verus!
