use vstd::prelude::*;

verus! {

/// One entry of the store: the title of an item and the name of the torrent
/// file that was saved for it.
#[derive(Debug)]
pub struct Record {
    pub title: String,
    pub torrent: String,
}

/// What a [`Record`] stands for in contracts.
pub struct RecordView {
    pub title: Seq<char>,
    pub torrent: Seq<char>,
}

impl View for Record {
    type V = RecordView;

    open spec fn view(&self) -> RecordView {
        RecordView { title: self.title@, torrent: self.torrent@ }
    }
}

impl Clone for Record {
    fn clone(&self) -> (copy: Record)
        ensures
            copy@ == self@,
    {
        Record { title: self.title.clone(), torrent: self.torrent.clone() }
    }
}

impl PartialEq for Record {
    fn eq(&self, other: &Record) -> (same: bool) {
        self.title == other.title && self.torrent == other.torrent
    }
}

impl Eq for Record {

}

impl vstd::std_specs::cmp::PartialEqSpecImpl for Record {
    open spec fn obeys_eq_spec() -> bool {
        true
    }

    open spec fn eq_spec(&self, other: &Record) -> bool {
        self@ == other@
    }
}

/// The record that a readable row holds, none for a row that could not be
/// read.
pub open spec fn record_of_row(row: Option<(String, String)>) -> Option<RecordView> {
    match row {
        Some((title, torrent)) => Some(RecordView { title: title@, torrent: torrent@ }),
        None => None,
    }
}

/// The records of the rows of the store, in the order of the rows. A row
/// that could not be read is passed over.
pub fn list_games(rows: Vec<Option<(String, String)>>) -> (records: Vec<Record>)
    ensures
        records@.map_values(|r: Record| r@) == rows@.filter_map(
            |row: Option<(String, String)>| record_of_row(row),
        ),
{
    let ghost to_record = |row: Option<(String, String)>| record_of_row(row);
    let mut records: Vec<Record> = Vec::new();
    let mut i: usize = 0;
    assert(rows@.take(0) =~= Seq::empty());
    assert(records@.map_values(|r: Record| r@) =~= Seq::empty());
    while i < rows.len()
        invariant
            i <= rows.len(),
            to_record == |row: Option<(String, String)>| record_of_row(row),
            records@.map_values(|r: Record| r@) == rows@.take(i as int).filter_map(to_record),
        decreases rows.len() - i,
    {
        let ghost before = records@.map_values(|r: Record| r@);
        assert(rows@.take(i + 1).drop_last() =~= rows@.take(i as int));
        assert(rows@.take(i + 1).last() == rows[i as int]);
        match &rows[i] {
            Some((title, torrent)) => {
                let record = Record { title: title.clone(), torrent: torrent.clone() };
                records.push(record);
                assert(records@.map_values(|r: Record| r@) =~= before + seq![record@]);
            },
            None => {},
        }
        i = i + 1;
    }
    assert(rows@.take(i as int) =~= rows@);
    records
}

} // verus!
