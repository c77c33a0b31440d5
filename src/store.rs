//! The append-only log of recorded days, and how a read of it is judged.

use crate::record::Worktime;
use vstd::prelude::*;

verus! {

/// Why the log could not be read.
#[derive(Clone, Copy, Debug, PartialEq, Eq, Structural)]
pub enum StoreError {
    /// The line with this number (counted from 1) is not a day record.
    CorruptRecord { line: usize },
}

/// The recorded days in the order they were appended. Records are only ever
/// added at the end: none is changed or removed.
pub struct RecordLog {
    records: Vec<Worktime>,
}

impl View for RecordLog {
    type V = Seq<Worktime>;

    closed spec fn view(&self) -> Seq<Worktime> {
        self.records@
    }
}

/// Every line up to `n` was read as a record.
pub open spec fn all_read(lines: Seq<Option<Worktime>>, n: int) -> bool {
    forall|j: int| 0 <= j < n ==> #[trigger] lines[j] is Some
}

/// The records that the lines hold, in order.
pub open spec fn records_of(lines: Seq<Option<Worktime>>) -> Seq<Worktime> {
    lines.map_values(|l: Option<Worktime>| l->0)
}

impl RecordLog {
    /// An empty log.
    pub fn new() -> (log: RecordLog)
        ensures
            log@ == Seq::<Worktime>::empty(),
    {
        RecordLog { records: Vec::new() }
    }

    /// The log of the lines of a store, one record per line: every record in
    /// order where each line was read, and otherwise the number of the first
    /// line that was not.
    pub fn from_lines(lines: Vec<Option<Worktime>>) -> (r: Result<RecordLog, StoreError>)
        ensures
            r is Ok <==> all_read(lines@, lines@.len() as int),
            r matches Ok(log) ==> log@ == records_of(lines@),
            r matches Err(StoreError::CorruptRecord { line }) ==> 1 <= line <= lines@.len()
                && lines@[line - 1] is None && all_read(lines@, line - 1),
    {
        let ghost input = lines@;
        let mut records: Vec<Worktime> = Vec::new();
        let mut n: usize = 0;
        let total = lines.len();
        for item in it: lines
            invariant
                input == it.seq(),
                input.len() == total,
                n == it.index(),
                all_read(input, n as int),
                records@ == records_of(input.subrange(0, n as int)),
        {
            match item {
                Some(w) => {
                    records.push(w);
                    proof {
                        assert(records_of(input.subrange(0, n + 1)) =~= records_of(
                            input.subrange(0, n as int),
                        ).push(w));
                    }
                },
                None => {
                    return Err(StoreError::CorruptRecord { line: n + 1 });
                },
            }
            n = n + 1;
        }
        assert(input.subrange(0, n as int) =~= input);
        Ok(RecordLog { records })
    }

    /// Adds `record` at the end of the log.
    pub fn append(&mut self, record: Worktime)
        ensures
            final(self)@ == old(self)@.push(record),
    {
        self.records.push(record);
    }

    /// Every record of the log, in the order they were appended. Reading
    /// leaves the log as it is, so two reads with no append between them
    /// give the same records.
    pub fn read_all(&self) -> (r: &Vec<Worktime>)
        ensures
            r@ == self@,
    {
        &self.records
    }

    /// How many days the log holds.
    pub fn len(&self) -> (n: usize)
        ensures
            n == self@.len(),
    {
        self.records.len()
    }
}

/// The log that a read gave, or an empty one where the read failed.
pub fn get_json_data(read: Result<RecordLog, StoreError>) -> (log: RecordLog)
    ensures
        read matches Ok(l) ==> log@ == l@,
        read is Err ==> log@ == Seq::<Worktime>::empty(),
{
    match read {
        Ok(l) => l,
        Err(_) => RecordLog::new(),
    }
}

/// The log after `records` were appended one by one to a log holding `log`.
pub open spec fn after_appends(log: Seq<Worktime>, records: Seq<Worktime>) -> Seq<Worktime>
    decreases records.len(),
{
    if records.len() == 0 {
        log
    } else {
        after_appends(log, records.drop_last()).push(records.last())
    }
}

/// Appending records one by one keeps what the log held and adds the records
/// after it, in the order they were appended.
pub proof fn lemma_appends_keep_prefix(log: Seq<Worktime>, records: Seq<Worktime>)
    ensures
        after_appends(log, records) == log + records,
        after_appends(log, records).subrange(0, log.len() as int) == log,
        after_appends(log, records).subrange(log.len() as int, (log.len() + records.len()) as int)
            == records,
    decreases records.len(),
{
    if records.len() > 0 {
        lemma_appends_keep_prefix(log, records.drop_last());
        assert(log + records =~= (log + records.drop_last()).push(records.last()));
    }
    assert(after_appends(log, records).subrange(0, log.len() as int) =~= log);
    assert(after_appends(log, records).subrange(
        log.len() as int,
        (log.len() + records.len()) as int,
    ) =~= records);
}

} // verus!
