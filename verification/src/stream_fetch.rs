//! Taking batches off a stream as a consumer: read the entries not yet
//! delivered to the group, decode them, acknowledge them and delete them.
//! The store is driven by the caller; this module decides each next step.
use vstd::prelude::*;
use crate::batching::ProcessTrackerBatch;
use crate::errors::{ProcessTrackerError, RedisError};
use crate::stream_append::RedisEntryId;

verus! {

/// A stream entry: its id, and its fields decoded into a batch (or the
/// reason they could not be).
pub type StreamEntry = (String, Result<ProcessTrackerBatch, ProcessTrackerError>);

/// The entries of all streams of a read, one after the other.
pub open spec fn all_entries(streams: Seq<Vec<StreamEntry>>) -> Seq<StreamEntry> {
    streams.map_values(|s: Vec<StreamEntry>| s@).flatten()
}

/// The first entry, in order, whose fields could not be decoded.
pub open spec fn first_decode_error(entries: Seq<StreamEntry>) -> Option<ProcessTrackerError>
    decreases entries.len(),
{
    if entries.len() == 0 {
        None
    } else {
        match entries.first().1 {
            Err(e) => Some(e),
            Ok(_) => first_decode_error(entries.drop_first()),
        }
    }
}

/// The error reported for a read is the error of an entry that failed to
/// decode, and every entry before it decoded; no error is reported exactly
/// when every entry decoded.
pub proof fn lemma_first_decode_error_is_first(entries: Seq<StreamEntry>)
    ensures
        first_decode_error(entries) matches Some(e) ==> exists|i: int| 0 <= i < entries.len()
            && #[trigger] entries[i].1 == Err::<ProcessTrackerBatch, ProcessTrackerError>(e)
            && forall|j: int| 0 <= j < i ==> (#[trigger] entries[j].1) is Ok,
        first_decode_error(entries) is None <==> forall|i: int| 0 <= i < entries.len() ==> (#[trigger] entries[i].1) is Ok,
    decreases entries.len(),
{
    if entries.len() > 0 {
        let rest = entries.drop_first();
        lemma_first_decode_error_is_first(rest);
        assert forall|i: int| 0 <= i < rest.len() implies #[trigger] rest[i] == entries[i + 1] by {}
        match entries.first().1 {
            Err(e) => {
                assert(entries[0].1 == Err::<ProcessTrackerBatch, ProcessTrackerError>(e));
            },
            Ok(_) => {
                if let Some(e) = first_decode_error(rest) {
                    let i = choose|i: int| 0 <= i < rest.len()
                        && #[trigger] rest[i].1 == Err::<ProcessTrackerBatch, ProcessTrackerError>(e)
                        && forall|j: int| 0 <= j < i ==> (#[trigger] rest[j].1) is Ok;
                    assert(entries[i + 1].1 == Err::<ProcessTrackerBatch, ProcessTrackerError>(e));
                    assert forall|j: int| 0 <= j < i + 1 implies (#[trigger] entries[j].1) is Ok by {
                        if j > 0 {
                            assert(entries[j] == rest[j - 1]);
                        }
                    }
                } else {
                    assert forall|i: int| 0 <= i < entries.len() implies (#[trigger] entries[i].1) is Ok by {
                        if i > 0 {
                            assert(entries[i] == rest[i - 1]);
                        }
                    }
                }
            },
        }
    }
}

/// The batch that a decoded entry holds.
pub open spec fn entry_batch(e: StreamEntry) -> ProcessTrackerBatch {
    match e.1 {
        Ok(b) => b,
        Err(_) => arbitrary(),
    }
}

/// The ids of entries, in order.
pub open spec fn ids_of_entries(entries: Seq<StreamEntry>) -> Seq<Seq<char>> {
    entries.map_values(|e: StreamEntry| e.0@)
}

/// The views of a list of strings.
pub open spec fn string_views(v: Seq<String>) -> Seq<Seq<char>> {
    v.map_values(|s: String| s@)
}

/// Every entry of a read decoded into a batch, with the batches and the
/// entry ids in order; or the first decoding error.
pub fn collect_stream_entries(streams: Vec<Vec<StreamEntry>>)
    -> (r: Result<(Vec<ProcessTrackerBatch>, Vec<String>), ProcessTrackerError>)
    ensures
        r is Ok <==> first_decode_error(all_entries(streams@)) is None,
        r matches Ok(collected) ==> {
            &&& collected.0@ == all_entries(streams@).map_values(|e: StreamEntry| entry_batch(e))
            &&& string_views(collected.1@) == ids_of_entries(all_entries(streams@))
        },
        r matches Err(e) ==> first_decode_error(all_entries(streams@)) == Some(e),
{
    let ghost input = streams@;
    let ghost total = all_entries(input);
    let mut pending = streams;
    let mut flat: Vec<StreamEntry> = Vec::new();
    while pending.len() > 0
        invariant
            total == all_entries(input),
            input == streams@,
            flat@ + all_entries(pending@) == total,
        decreases pending.len(),
    {
        let ghost before = pending@;
        let mut s = pending.remove(0);
        proof {
            assert(before.map_values(|s: Vec<StreamEntry>| s@).drop_first()
                =~= pending@.map_values(|s: Vec<StreamEntry>| s@));
        }
        let ghost f0 = flat@;
        flat.append(&mut s);
        proof {
            assert(flat@ + all_entries(pending@) =~= f0 + all_entries(before));
        }
    }
    assert(flat@ =~= total);
    let mut batches: Vec<ProcessTrackerBatch> = Vec::new();
    let mut ids: Vec<String> = Vec::new();
    while flat.len() > 0
        invariant
            total == all_entries(input),
            input == streams@,
            flat@.len() <= total.len(),
            flat@ == total.skip(total.len() - flat@.len()),
            first_decode_error(total) == first_decode_error(flat@),
            batches@ == total.take(total.len() - flat@.len()).map_values(|e: StreamEntry| entry_batch(e)),
            string_views(ids@) == ids_of_entries(total.take(total.len() - flat@.len())),
        decreases flat.len(),
    {
        let ghost k = total.len() - flat@.len();
        let ghost before = flat@;
        let (id, decoded) = flat.remove(0);
        proof {
            assert(flat@ =~= total.skip(k + 1));
            assert(before.first() == total[k]);
        }
        match decoded {
            Ok(b) => {
                let ghost old_ids = ids@;
                let ghost id_view = id@;
                ids.push(id);
                batches.push(b);
                proof {
                    assert(total.take(k + 1) =~= total.take(k).push(total[k]));
                    assert(total[k].0@ == id_view);
                    assert(string_views(ids@) =~= string_views(old_ids).push(id_view));
                    assert(ids_of_entries(total.take(k + 1)) =~= ids_of_entries(total.take(k)).push(id_view));
                    assert(batches@ =~= total.take(k + 1).map_values(|e: StreamEntry| entry_batch(e)));
                    assert(string_views(ids@) =~= ids_of_entries(total.take(k + 1)));
                    assert(before.drop_first() =~= flat@);
                }
            },
            Err(e) => {
                assert(first_decode_error(before) == Some(e));
                return Err(e);
            },
        }
    }
    assert(total.take(total.len() as int) =~= total);
    Ok((batches, ids))
}

/// A read of a stream on behalf of a consumer of a group.
pub struct StreamReadRequest {
    pub stream_name: String,
    pub entry_id: RedisEntryId,
    pub count: Option<u64>,
    pub block: Option<u64>,
    pub group: Option<(String, String)>,
}

/// The read that takes batches off a stream: one entry not yet delivered
/// to the group, for the given consumer, without waiting for one.
pub fn batch_read_request(stream_name: &str, group_name: &str, consumer_name: &str) -> (request: StreamReadRequest)
    ensures
        request.stream_name@ == stream_name@,
        request.entry_id == RedisEntryId::UndeliveredEntryID,
        request.count == Some(1u64),
        request.block is None,
        request.group matches Some((group, consumer)) && group@ == group_name@ && consumer@ == consumer_name@,
{
    StreamReadRequest {
        stream_name: String::from_str(stream_name),
        entry_id: RedisEntryId::UndeliveredEntryID,
        count: Some(1),
        block: None,
        group: Some((String::from_str(group_name), String::from_str(consumer_name))),
    }
}

/// How far taking batches off the stream has come, with what it holds.
pub enum BatchFetch {
    Start,
    Reading,
    Acknowledging { batches: Vec<ProcessTrackerBatch>, entry_ids: Vec<String> },
    Deleting { batches: Vec<ProcessTrackerBatch>, entry_ids: Vec<String> },
    Finished,
}

/// What the store reported back.
pub enum FetchEvent {
    /// Taking batches begins.
    Begin,
    /// The read of undelivered entries (one per stream), or its failure.
    ReadDone(Result<Vec<Vec<StreamEntry>>, RedisError>),
    /// Acknowledging the entries succeeded or failed.
    AcknowledgeDone(bool),
    /// Deleting the entries succeeded or failed.
    DeleteDone(bool),
}

/// What the caller does next.
pub enum FetchAction {
    /// Read the stream as `batch_read_request` gives.
    ReadStream,
    /// Acknowledge these entries for the group.
    Acknowledge(Vec<String>),
    /// Delete these entries from the stream.
    Delete(Vec<String>),
    /// Stop, with the batches taken or the error.
    Finish(Result<Vec<ProcessTrackerBatch>, ProcessTrackerError>),
}

/// Whether `event` can come in `state`.
pub open spec fn fetch_event_fits(state: BatchFetch, event: FetchEvent) -> bool {
    match (state, event) {
        (BatchFetch::Start, FetchEvent::Begin) => true,
        (BatchFetch::Reading, FetchEvent::ReadDone(_)) => true,
        (BatchFetch::Acknowledging { .. }, FetchEvent::AcknowledgeDone(_)) => true,
        (BatchFetch::Deleting { .. }, FetchEvent::DeleteDone(_)) => true,
        _ => false,
    }
}

fn copy_ids(ids: &Vec<String>) -> (copy: Vec<String>)
    ensures
        string_views(copy@) == string_views(ids@),
{
    let mut copy: Vec<String> = Vec::new();
    let mut i: usize = 0;
    while i < ids.len()
        invariant
            i <= ids@.len(),
            string_views(copy@) == string_views(ids@.take(i as int)),
        decreases ids.len() - i,
    {
        let ghost c0 = copy@;
        let item = ids[i].clone();
        assert(item@ == ids@[i as int]@);
        copy.push(item);
        proof {
            assert(string_views(copy@) =~= string_views(c0).push(ids@[i as int]@));
            assert(string_views(ids@.take(i + 1)) =~= string_views(ids@.take(i as int)).push(ids@[i as int]@));
            assert(ids@.take(i + 1) =~= ids@.take(i as int).push(ids@[i as int]));
            assert(string_views(copy@) =~= string_views(ids@.take(i + 1)));
        }
        i = i + 1;
    }
    assert(ids@.take(ids@.len() as int) =~= ids@);
    copy
}

/// One step of taking batches off the stream. Entries are acknowledged
/// only once every one of them decoded, deleted only once acknowledged,
/// and the batches are handed out only once the entries are deleted; the
/// ids acknowledged and deleted are those of the entries read.
pub fn get_batches_step(state: BatchFetch, event: FetchEvent) -> (next: (BatchFetch, FetchAction))
    requires
        fetch_event_fits(state, event),
    ensures
        match (state, event) {
            (BatchFetch::Start, FetchEvent::Begin) =>
                next.0 is Reading && next.1 is ReadStream,
            (BatchFetch::Reading, FetchEvent::ReadDone(Err(_))) =>
                next.0 is Finished && next.1 == FetchAction::Finish(Err(ProcessTrackerError::BatchNotFound)),
            (BatchFetch::Reading, FetchEvent::ReadDone(Ok(streams))) =>
                match first_decode_error(all_entries(streams@)) {
                    Some(e) => next.0 is Finished && next.1 == FetchAction::Finish(Err(e)),
                    None => {
                        &&& next.0 matches BatchFetch::Acknowledging { batches, entry_ids }
                            && batches@ == all_entries(streams@).map_values(|e: StreamEntry| entry_batch(e))
                            && string_views(entry_ids@) == ids_of_entries(all_entries(streams@))
                        &&& next.1 matches FetchAction::Acknowledge(ack)
                            && string_views(ack@) == ids_of_entries(all_entries(streams@))
                    },
                },
            (BatchFetch::Acknowledging { batches, entry_ids }, FetchEvent::AcknowledgeDone(ok)) => if ok {
                &&& next.0 matches BatchFetch::Deleting { batches: b2, entry_ids: ids2 }
                    && b2 == batches && ids2 == entry_ids
                &&& next.1 matches FetchAction::Delete(del)
                    && string_views(del@) == string_views(entry_ids@)
            } else {
                next.0 is Finished && next.1 == FetchAction::Finish(Err(ProcessTrackerError::BatchUpdateFailed))
            },
            (BatchFetch::Deleting { batches, entry_ids }, FetchEvent::DeleteDone(ok)) => if ok {
                next.0 is Finished && next.1 == FetchAction::Finish(Ok(batches))
            } else {
                next.0 is Finished && next.1 == FetchAction::Finish(Err(ProcessTrackerError::BatchDeleteFailed))
            },
            _ => false,
        },
{
    match (state, event) {
        (BatchFetch::Start, FetchEvent::Begin) => (BatchFetch::Reading, FetchAction::ReadStream),
        (BatchFetch::Reading, FetchEvent::ReadDone(read)) => match read {
            Err(_) => (BatchFetch::Finished, FetchAction::Finish(Err(ProcessTrackerError::BatchNotFound))),
            Ok(streams) => match collect_stream_entries(streams) {
                Err(e) => (BatchFetch::Finished, FetchAction::Finish(Err(e))),
                Ok((batches, entry_ids)) => {
                    let ack = copy_ids(&entry_ids);
                    (BatchFetch::Acknowledging { batches, entry_ids }, FetchAction::Acknowledge(ack))
                },
            },
        },
        (BatchFetch::Acknowledging { batches, entry_ids }, FetchEvent::AcknowledgeDone(ok)) => if ok {
            let del = copy_ids(&entry_ids);
            (BatchFetch::Deleting { batches, entry_ids }, FetchAction::Delete(del))
        } else {
            (BatchFetch::Finished, FetchAction::Finish(Err(ProcessTrackerError::BatchUpdateFailed)))
        },
        (BatchFetch::Deleting { batches, entry_ids: _ }, FetchEvent::DeleteDone(ok)) => if ok {
            (BatchFetch::Finished, FetchAction::Finish(Ok(batches)))
        } else {
            (BatchFetch::Finished, FetchAction::Finish(Err(ProcessTrackerError::BatchDeleteFailed)))
        },
        (s, _) => (s, FetchAction::ReadStream),
    }
}

} // verus!
