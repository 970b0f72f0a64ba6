//! The log as one text: what holds of the lines that records become.
//!
//! Records are written one at a time, each line in one piece. This module
//! says what the text then holds, for any number of records in any order.

use crate::clock::{is_stamp, lemma_stamp_has_no_line_feed};
use crate::decimal::{decimal, lemma_decimal_digits};
use crate::level::LogLevel;
use crate::record::{line_head, line_text, LogRecord};
use vstd::prelude::*;

verus! {

/// Whether a text holds no line feed.
pub open spec fn is_one_line(text: Seq<char>) -> bool {
    forall|i: int| 0 <= i < text.len() ==> #[trigger] text[i] != '\n'
}

/// The text of a log to which the lines of `records` were written in turn.
pub open spec fn stream_of(records: Seq<LogRecord>) -> Seq<char>
    decreases records.len(),
{
    if records.len() == 0 {
        Seq::empty()
    } else {
        stream_of(records.drop_last()) + records.last().text()
    }
}

/// The lines of a text, each with the line feed that ends it; a rest
/// without a line feed is the last line.
///
/// Read from the end: the last character lengthens the last line unless the
/// character before it is a line feed or there is none; then it starts a
/// line.
pub open spec fn lines_of(stream: Seq<char>) -> Seq<Seq<char>>
    decreases stream.len(),
{
    if stream.len() == 0 {
        Seq::empty()
    } else if stream.len() >= 2 && stream[stream.len() - 2] != '\n' {
        let before = lines_of(stream.drop_last());
        before.drop_last().push(before.last().push(stream.last()))
    } else {
        lines_of(stream.drop_last()).push(seq![stream.last()])
    }
}

/// The lines of `records`, one for each, in their order.
pub open spec fn lines_for(records: Seq<LogRecord>) -> Seq<Seq<char>> {
    Seq::new(records.len(), |i: int| records[i].text())
}

/// A line holds its message as it was given: the line is its head, then the
/// message character for character, then one line feed.
pub proof fn lemma_line_holds_message(
    stamp: Seq<char>,
    pid: nat,
    level: LogLevel,
    message: Seq<char>,
)
    ensures
        line_text(stamp, pid, level, message) == line_head(stamp, pid, level) + message
            + seq!['\n'],
        line_text(stamp, pid, level, message).len() == line_head(stamp, pid, level).len()
            + message.len() + 1,
        line_text(stamp, pid, level, message).subrange(
            line_head(stamp, pid, level).len() as int,
            (line_head(stamp, pid, level).len() + message.len()) as int,
        ) == message,
        line_text(stamp, pid, level, message).last() == '\n',
{
    reveal_strlit("\n");
    let head = line_head(stamp, pid, level);
    let line = line_text(stamp, pid, level, message);
    assert("\n"@ =~= seq!['\n']);
    assert(line =~= head + message + seq!['\n']);
    assert(line.subrange(head.len() as int, (head.len() + message.len()) as int) =~= message);
}

/// The head of a line holds no line feed if the stamp holds none.
proof fn lemma_head_is_one_line(stamp: Seq<char>, pid: nat, level: LogLevel)
    requires
        is_one_line(stamp),
    ensures
        is_one_line(line_head(stamp, pid, level)),
{
    reveal_strlit("[");
    reveal_strlit("][PID ");
    reveal_strlit("][");
    reveal_strlit("] ");
    lemma_decimal_digits(pid);
    let head = line_head(stamp, pid, level);
    let a = "["@;
    let b = a + stamp;
    let c = b + "][PID "@;
    let d = c + decimal(pid);
    let e = d + "]["@;
    let f = e + level.tag();
    let g = f + "]["@;
    let h = g + decimal(pid);
    assert(is_one_line(a));
    assert(is_one_line(b));
    assert(is_one_line(c));
    assert(is_one_line(d));
    assert(is_one_line(e));
    assert(is_one_line(level.tag()));
    assert(is_one_line(f));
    assert(is_one_line(g));
    assert(is_one_line(h));
    assert(head == h + "] "@);
}

/// A line whose stamp and message hold no line feed is one line: its one
/// line feed is its last character.
pub proof fn lemma_line_ends_once(stamp: Seq<char>, pid: nat, level: LogLevel, message: Seq<char>)
    requires
        is_one_line(stamp),
        is_one_line(message),
    ensures
        line_text(stamp, pid, level, message).len() >= 1,
        is_one_line(line_text(stamp, pid, level, message).drop_last()),
        line_text(stamp, pid, level, message).last() == '\n',
{
    lemma_line_holds_message(stamp, pid, level, message);
    lemma_head_is_one_line(stamp, pid, level);
    let head = line_head(stamp, pid, level);
    let line = line_text(stamp, pid, level, message);
    assert(line.drop_last() =~= head + message);
}

/// Writing after whole lines the start of one more line adds that start as
/// the last line and leaves the lines before it as they were.
proof fn lemma_lines_after_start(stream: Seq<char>, start: Seq<char>)
    requires
        stream.len() == 0 || stream.last() == '\n',
        start.len() >= 1,
        is_one_line(start.drop_last()),
    ensures
        lines_of(stream + start) == lines_of(stream).push(start),
    decreases start.len(),
{
    let whole = stream + start;
    assert(whole.drop_last() =~= stream + start.drop_last());
    assert(whole.last() == start.last());
    if start.len() == 1 {
        assert(stream + start.drop_last() =~= stream);
        assert(seq![start.last()] =~= start);
        if stream.len() > 0 {
            assert(whole[whole.len() - 2] == stream.last());
        }
    } else {
        let shorter = start.drop_last();
        assert(is_one_line(shorter.drop_last())) by {
            assert forall|i: int| 0 <= i < shorter.drop_last().len() implies 
                #[trigger] shorter.drop_last()[i] != '\n' by {
                assert(shorter.drop_last()[i] == shorter[i]);
            }
        }
        lemma_lines_after_start(stream, shorter);
        assert(whole[whole.len() - 2] == shorter[shorter.len() - 1]);
        assert(shorter[shorter.len() - 1] != '\n');
        let before = lines_of(stream + shorter);
        assert(before.drop_last() =~= lines_of(stream));
        assert(before.last() == shorter);
        assert(shorter.push(start.last()) =~= start);
    }
}

/// The text of a log is empty or ends with a line feed.
pub proof fn lemma_stream_ends_whole(records: Seq<LogRecord>)
    ensures
        stream_of(records).len() == 0 || stream_of(records).last() == '\n',
    decreases records.len(),
{
    if records.len() > 0 {
        let r = records.last();
        lemma_line_holds_message(r.timestamp@, r.pid as nat, r.level, r.message@);
    }
}

/// However many records are written, one at a time and in whatever order,
/// the log holds as many lines, and each line is the line of its record,
/// whole: none is cut or mixed with another. This is stated for records
/// whose stamps and messages hold no line feed.
pub proof fn lemma_stream_holds_each_line(records: Seq<LogRecord>)
    requires
        forall|i: int|
            0 <= i < records.len() ==> is_one_line(#[trigger] records[i].timestamp@)
                && is_one_line(records[i].message@),
    ensures
        lines_of(stream_of(records)) == lines_for(records),
        lines_of(stream_of(records)).len() == records.len(),
    decreases records.len(),
{
    if records.len() == 0 {
        assert(lines_of(stream_of(records)) =~= lines_for(records));
    } else {
        let rest = records.drop_last();
        let r = records.last();
        assert forall|i: int| 0 <= i < rest.len() implies is_one_line(
            #[trigger] rest[i].timestamp@,
        ) && is_one_line(rest[i].message@) by {
            assert(rest[i] == records[i]);
        }
        lemma_stream_holds_each_line(rest);
        lemma_stream_ends_whole(rest);
        assert(r == records[records.len() - 1]);
        lemma_line_ends_once(r.timestamp@, r.pid as nat, r.level, r.message@);
        lemma_lines_after_start(stream_of(rest), r.text());
        assert(lines_for(rest).push(r.text()) =~= lines_for(records));
    }
}

/// The stamps that the clock gives hold no line feed, so the records of a
/// sink become whole lines whenever their messages hold none.
pub proof fn lemma_stamped_stream_holds_each_line(records: Seq<LogRecord>)
    requires
        forall|i: int|
            0 <= i < records.len() ==> is_stamp(#[trigger] records[i].timestamp@)
                && is_one_line(records[i].message@),
    ensures
        lines_of(stream_of(records)) == lines_for(records),
        lines_of(stream_of(records)).len() == records.len(),
{
    assert forall|i: int| 0 <= i < records.len() implies is_one_line(
        #[trigger] records[i].timestamp@,
    ) && is_one_line(records[i].message@) by {
        lemma_stamp_has_no_line_feed(records[i].timestamp@);
    }
    lemma_stream_holds_each_line(records);
}

} // verus!
