//! Log records as the tail sees them, and what a batch of them yields.

use crate::text::{text_of, texts};
use crate::time::Instant;
use vstd::prelude::*;

verus! {

/// One log record returned by a search. Of its contents only two things
/// matter here: the timestamp it carries, if any, and the record written as
/// one line of JSON, or the encoder's complaint where that failed.
#[derive(Debug)]
pub struct LogRecord {
    pub timestamp: Option<Instant>,
    pub json: Result<String, String>,
}

/// The contents of a [`LogRecord`].
pub struct RecordModel {
    pub timestamp: Option<Instant>,
    pub json: Result<Seq<char>, Seq<char>>,
}

impl View for LogRecord {
    type V = RecordModel;

    open spec fn view(&self) -> RecordModel {
        RecordModel {
            timestamp: self.timestamp,
            json: match self.json {
                Ok(line) => Ok(line@),
                Err(why) => Err(why@),
            },
        }
    }
}

/// The contents of a batch of records, in the order they were returned.
pub open spec fn batch_model(records: Seq<LogRecord>) -> Seq<RecordModel> {
    Seq::new(records.len(), |i: int| records[i]@)
}

/// The timestamp of the last record of the batch that carries one, or
/// `fallback` where no record does.
pub open spec fn last_stamp(batch: Seq<RecordModel>, fallback: Instant) -> Instant
    decreases batch.len(),
{
    if batch.len() == 0 {
        fallback
    } else {
        match batch.last().timestamp {
            Some(t) => t,
            None => last_stamp(batch.drop_last(), fallback),
        }
    }
}

/// How many records at the front of the batch were encoded: the position of
/// the first record that was not, or the length of the batch.
pub open spec fn encoded_prefix(batch: Seq<RecordModel>) -> nat
    decreases batch.len(),
{
    if batch.len() == 0 || batch[0].json is Err {
        0
    } else {
        1 + encoded_prefix(batch.drop_first())
    }
}

/// The lines a batch puts out: one per record, in order, up to the first
/// record that could not be encoded.
pub open spec fn output_lines(batch: Seq<RecordModel>) -> Seq<Seq<char>> {
    Seq::new(encoded_prefix(batch), |i: int| batch[i].json->Ok_0)
}

/// The encoder's complaint about the first record that could not be encoded.
pub open spec fn output_failure(batch: Seq<RecordModel>) -> Option<Seq<char>> {
    if encoded_prefix(batch) < batch.len() {
        Some(batch[encoded_prefix(batch) as int].json->Err_0)
    } else {
        None
    }
}

/// `encoded_prefix` is the one position that has only encoded records before
/// it and is either the end of the batch or a record that failed.
pub proof fn lemma_encoded_prefix(batch: Seq<RecordModel>, n: int)
    requires
        0 <= n <= batch.len(),
        forall|j: int| 0 <= j < n ==> (#[trigger] batch[j]).json is Ok,
        n == batch.len() || batch[n].json is Err,
    ensures
        encoded_prefix(batch) == n,
    decreases batch.len(),
{
    if n > 0 {
        let rest = batch.drop_first();
        assert(batch[0].json is Ok);
        assert forall|j: int| 0 <= j < n - 1 implies (#[trigger] rest[j]).json is Ok by {
            assert(rest[j] == batch[j + 1]);
        }
        if n < batch.len() {
            assert(rest[n - 1] == batch[n]);
        }
        lemma_encoded_prefix(rest, n - 1);
    }
}

/// Every record before `encoded_prefix` was encoded, and the record at that
/// position, if there is one, was not.
pub proof fn lemma_encoded_prefix_bounds(batch: Seq<RecordModel>)
    ensures
        encoded_prefix(batch) <= batch.len(),
        forall|j: int| 0 <= j < encoded_prefix(batch) ==> (#[trigger] batch[j]).json is Ok,
        encoded_prefix(batch) < batch.len() ==> batch[encoded_prefix(batch) as int].json is Err,
    decreases batch.len(),
{
    if !(batch.len() == 0 || batch[0].json is Err) {
        let rest = batch.drop_first();
        lemma_encoded_prefix_bounds(rest);
        assert forall|j: int| 0 <= j < encoded_prefix(batch) implies (#[trigger] batch[j]).json is Ok by {
            if j > 0 {
                assert(rest[j - 1] == batch[j]);
            }
        }
        if encoded_prefix(batch) < batch.len() {
            assert(rest[encoded_prefix(rest) as int] == batch[encoded_prefix(batch) as int]);
        }
    }
}

/// What a batch puts out.
#[derive(Debug)]
pub struct Emission {
    /// The lines to write, in order.
    pub lines: Vec<String>,
    /// Set where a record could not be encoded: nothing after it is written.
    pub failure: Option<String>,
}

/// The timestamp of the last record in `records` that carries one, or
/// `fallback` where none does.
pub fn latest_timestamp(records: &Vec<LogRecord>, fallback: Instant) -> (latest: Instant)
    ensures
        latest == last_stamp(batch_model(records@), fallback),
{
    let ghost batch = batch_model(records@);
    let mut latest = fallback;
    let mut i: usize = 0;
    assert(batch.take(0) =~= Seq::<RecordModel>::empty());
    while i < records.len()
        invariant
            i <= records.len(),
            batch == batch_model(records@),
            latest == last_stamp(batch.take(i as int), fallback),
        decreases records.len() - i,
    {
        proof {
            let next = batch.take(i + 1);
            assert(next.last() == records@[i as int]@);
            assert(next.drop_last() =~= batch.take(i as int));
        }
        match records[i].timestamp {
            Some(t) => {
                latest = t;
            },
            None => {},
        }
        i = i + 1;
    }
    assert(batch.take(records.len() as int) =~= batch);
    latest
}

/// The lines that `records` put out: the JSON of each record in order. The
/// first record that could not be encoded ends the output and is reported.
pub fn emit(records: &Vec<LogRecord>) -> (out: Emission)
    ensures
        texts(out.lines@) == output_lines(batch_model(records@)),
        text_of(out.failure) == output_failure(batch_model(records@)),
{
    let ghost batch = batch_model(records@);
    let mut lines: Vec<String> = Vec::new();
    let mut i: usize = 0;
    while i < records.len()
        invariant
            i <= records.len(),
            batch == batch_model(records@),
            lines@.len() == i,
            forall|j: int| 0 <= j < i ==> (#[trigger] batch[j]).json == Ok::<Seq<char>, Seq<char>>(lines@[j]@),
        decreases records.len() - i,
    {
        match &records[i].json {
            Ok(line) => {
                lines.push(line.clone());
            },
            Err(why) => {
                proof {
                    lemma_encoded_prefix(batch, i as int);
                    assert(texts(lines@) =~= output_lines(batch));
                }
                return Emission { lines, failure: Some(why.clone()) };
            },
        }
        i = i + 1;
    }
    proof {
        lemma_encoded_prefix(batch, i as int);
        assert(texts(lines@) =~= output_lines(batch));
    }
    Emission { lines, failure: None }
}

/// Where the latest timestamp of a batch comes from: it is the fallback
/// when no record carries a timestamp, and otherwise it is carried by a
/// record after which none carries one.
pub proof fn lemma_last_stamp_origin(batch: Seq<RecordModel>, fallback: Instant)
    ensures
        (forall|i: int| 0 <= i < batch.len() ==> (#[trigger] batch[i]).timestamp is None)
            ==> last_stamp(batch, fallback) == fallback,
        (exists|i: int| 0 <= i < batch.len() && (#[trigger] batch[i]).timestamp is Some)
            ==> exists|i: int|
            0 <= i < batch.len() && (#[trigger] batch[i]).timestamp == Some(
                last_stamp(batch, fallback),
            ) && forall|j: int| i < j < batch.len() ==> (#[trigger] batch[j]).timestamp is None,
    decreases batch.len(),
{
    if batch.len() > 0 {
        let front = batch.drop_last();
        let last = batch.len() - 1;
        lemma_last_stamp_origin(front, fallback);
        assert forall|i: int| 0 <= i < front.len() implies front[i] == batch[i] by {}
        if batch[last].timestamp is Some {
            assert(batch[last].timestamp == Some(last_stamp(batch, fallback)));
        } else {
            if exists|i: int| 0 <= i < batch.len() && (#[trigger] batch[i]).timestamp is Some {
                let k = choose|i: int| 0 <= i < batch.len() && (#[trigger] batch[i]).timestamp is Some;
                assert(front[k].timestamp is Some);
                let w = choose|i: int|
                    0 <= i < front.len() && (#[trigger] front[i]).timestamp == Some(
                        last_stamp(front, fallback),
                    ) && forall|j: int|
                        i < j < front.len() ==> (#[trigger] front[j]).timestamp is None;
                assert(batch[w].timestamp == Some(last_stamp(batch, fallback)));
                assert forall|j: int| w < j < batch.len() implies (#[trigger] batch[j]).timestamp is None by {
                    if j < last {
                        assert(front[j].timestamp is None);
                    }
                }
            } else {
                assert forall|i: int| 0 <= i < front.len() implies (#[trigger] front[i]).timestamp is None by {
                    assert(batch[i].timestamp is None);
                }
            }
        }
    }
}

/// A batch whose records were all encoded puts out one line per record, in
/// the order of the records, and reports no failure.
pub proof fn lemma_whole_batch_emitted(batch: Seq<RecordModel>)
    requires
        forall|i: int| 0 <= i < batch.len() ==> (#[trigger] batch[i]).json is Ok,
    ensures
        output_failure(batch) is None,
        output_lines(batch).len() == batch.len(),
        forall|i: int| 0 <= i < batch.len() ==> (#[trigger] batch[i]).json == Ok::<
            Seq<char>,
            Seq<char>,
        >(output_lines(batch)[i]),
{
    lemma_encoded_prefix(batch, batch.len() as int);
}

} // verus!
