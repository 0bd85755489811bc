//! Commit records: what the history tools make of the lines that git prints.
//!
//! Git is asked for one line per commit, made of four fields with `|` between
//! them: hash, author, date, subject.

use crate::text::{lines, lines_of, pieces, split, texts};
use crate::value::{entries, values, Value, ValueView};
use vstd::prelude::*;

verus! {

/// The format that the history tools ask git to print each commit in.
pub open spec fn history_format() -> Seq<char> {
    "--pretty=format:%H|%an|%ad|%s"@
}

/// The record for one line of history. A line of exactly four fields gives
/// `hash`, `author`, `date` and `message`. Any other line, with fewer fields
/// or with more, is kept as it is, under `raw`: none of its text is lost.
pub open spec fn commit_record(line: Seq<char>) -> ValueView {
    let parts = pieces(line, '|');
    if parts.len() == 4 {
        ValueView::Object(
            seq![
                ("hash"@, ValueView::Text(parts[0])),
                ("author"@, ValueView::Text(parts[1])),
                ("date"@, ValueView::Text(parts[2])),
                ("message"@, ValueView::Text(parts[3])),
            ],
        )
    } else {
        ValueView::Object(seq![("raw"@, ValueView::Text(line))])
    }
}

/// The records for the lines of `output`, in their order: one for each line
/// that is not empty.
pub open spec fn commit_records(output: Seq<char>) -> Seq<ValueView> {
    lines_of(output).filter_map(record_of_nonempty())
}

/// The record of a line that is not empty, and none for the empty line.
pub open spec fn record_of_nonempty() -> spec_fn(Seq<char>) -> Option<ValueView> {
    |line: Seq<char>|
        if line.len() > 0 {
            Some(commit_record(line))
        } else {
            None
        }
}

/// See the spec function `commit_record`.
pub fn parse_commit(line: &str) -> (record: Value)
    ensures
        record@ == commit_record(line@),
{
    let parts = split(line, '|');
    assert(texts(parts@).len() == parts@.len());
    if parts.len() == 4 {
        let fields = vec![
            (String::from_str("hash"), Value::text(parts[0].clone())),
            (String::from_str("author"), Value::text(parts[1].clone())),
            (String::from_str("date"), Value::text(parts[2].clone())),
            (String::from_str("message"), Value::text(parts[3].clone())),
        ];
        proof {
            let list = pieces(line@, '|');
            assert(list[0] == parts@[0]@ && list[1] == parts@[1]@ && list[2] == parts@[2]@
                && list[3] == parts@[3]@);
            assert(entries(fields@) =~= seq![
                ("hash"@, ValueView::Text(list[0])),
                ("author"@, ValueView::Text(list[1])),
                ("date"@, ValueView::Text(list[2])),
                ("message"@, ValueView::Text(list[3])),
            ]);
        }
        Value::object(fields)
    } else {
        let fields = vec![(String::from_str("raw"), Value::literal(line))];
        proof {
            assert(entries(fields@) =~= seq![("raw"@, ValueView::Text(line@))]);
        }
        Value::object(fields)
    }
}

/// See the spec function `commit_records`.
pub fn parse_commits(output: &str) -> (records: Vec<Value>)
    ensures
        values(records@) == commit_records(output@),
{
    let all = lines(output);
    let mut records: Vec<Value> = Vec::new();
    let mut i: usize = 0;
    proof {
        assert(texts(all@).len() == all@.len());
        assert(texts(all@).take(0) =~= Seq::empty());
        assert(values(records@) =~= Seq::empty());
    }
    while i < all.len()
        invariant
            texts(all@) == lines_of(output@),
            0 <= i <= all.len(),
            values(records@) == texts(all@).take(i as int).filter_map(record_of_nonempty()),
        decreases all.len() - i,
    {
        proof {
            let upto = texts(all@).take(i + 1);
            assert(upto.drop_last() =~= texts(all@).take(i as int));
            assert(upto.last() == all@[i as int]@);
        }
        if !all[i].as_str().is_empty() {
            let parsed = parse_commit(all[i].as_str());
            proof {
                assert(values(records@.push(parsed)) =~= values(records@) + seq![parsed@]);
            }
            records.push(parsed);
        }
        i += 1;
    }
    proof {
        assert(texts(all@).take(i as int) =~= texts(all@));
    }
    records
}

} // verus!
