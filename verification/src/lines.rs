//! The index speaks in lines: one record to a line, each line ended by a
//! line feed. This is the framing of such a text; what a line holds is for
//! the reader of the record.

use vstd::prelude::*;
use vstd::slice::*;

verus! {

/// The line feed.
pub const LINE_FEED: u8 = 10;

/// The carriage return.
pub const CARRIAGE_RETURN: u8 = 13;

/// The text that holds the given lines, each with a line feed after it.
pub open spec fn joined(lines: Seq<Seq<u8>>) -> Seq<u8>
    decreases lines.len(),
{
    if lines.len() == 0 {
        Seq::empty()
    } else {
        lines[0] + seq![LINE_FEED] + joined(lines.drop_first())
    }
}

/// Where the first line feed of a text stands; the length of the text where
/// it has none.
pub open spec fn first_feed(text: Seq<u8>) -> int
    decreases text.len(),
{
    if text.len() == 0 {
        0
    } else if text[0] == LINE_FEED {
        0
    } else {
        1 + first_feed(text.drop_first())
    }
}

/// A line that was ended by a line feed, without the carriage return that
/// may stand before the feed.
pub open spec fn unreturned(line: Seq<u8>) -> Seq<u8> {
    if line.len() > 0 && line.last() == CARRIAGE_RETURN {
        line.drop_last()
    } else {
        line
    }
}

/// The lines of a text. A line ends with a line feed, or with a carriage
/// return and a line feed; neither belongs to the line. What stands after
/// the last line feed is a line too, unless it is empty.
pub open spec fn lines_of(text: Seq<u8>) -> Seq<Seq<u8>>
    decreases text.len(),
{
    let feed = first_feed(text);
    if text.len() == 0 {
        Seq::empty()
    } else if 0 <= feed < text.len() {
        seq![unreturned(text.subrange(0, feed))] + lines_of(
            text.subrange(feed + 1, text.len() as int),
        )
    } else {
        seq![text]
    }
}

/// Whether a run of bytes can stand as a line: it holds no line feed, and
/// does not end in a carriage return.
pub open spec fn is_line(line: Seq<u8>) -> bool {
    !line.contains(LINE_FEED) && !(line.len() > 0 && line.last() == CARRIAGE_RETURN)
}

/// The first line feed is within the text or at its end, and no line feed
/// stands before it.
pub proof fn lemma_first_feed(text: Seq<u8>)
    ensures
        0 <= first_feed(text) <= text.len(),
        first_feed(text) < text.len() ==> text[first_feed(text)] == LINE_FEED,
        forall|k: int| 0 <= k < first_feed(text) ==> text[k] != LINE_FEED,
    decreases text.len(),
{
    if text.len() > 0 && text[0] != LINE_FEED {
        let rest = text.drop_first();
        lemma_first_feed(rest);
        assert forall|k: int| 0 <= k < first_feed(text) implies text[k] != LINE_FEED by {
            if k > 0 {
                assert(text[k] == rest[k - 1]);
            }
        }
    }
}

/// The first line feed is the only place that is a line feed with none
/// before it.
pub proof fn lemma_first_feed_is(text: Seq<u8>, at: int)
    requires
        0 <= at <= text.len(),
        at < text.len() ==> text[at] == LINE_FEED,
        forall|k: int| 0 <= k < at ==> text[k] != LINE_FEED,
    ensures
        first_feed(text) == at,
{
    lemma_first_feed(text);
}

/// Splits a text into its lines.
pub fn split_lines<'a>(text: &'a [u8]) -> (lines: Vec<&'a [u8]>)
    ensures
        lines.deep_view() == lines_of(text@),
{
    let mut lines: Vec<&'a [u8]> = Vec::new();
    let mut start: usize = 0;
    let mut at: usize = 0;
    proof {
        assert(text@.subrange(0, text@.len() as int) =~= text@);
        assert(lines.deep_view() =~= Seq::<Seq<u8>>::empty());
    }
    while at < text.len()
        invariant
            start <= at <= text.len(),
            forall|k: int| start <= k < at ==> text@[k] != LINE_FEED,
            lines_of(text@) == lines.deep_view() + lines_of(
                text@.subrange(start as int, text@.len() as int),
            ),
        decreases text.len() - at,
    {
        if text[at] == LINE_FEED {
            let ghost rest = text@.subrange(start as int, text@.len() as int);
            let ghost before = lines.deep_view();
            let end = if at > start && text[at - 1] == CARRIAGE_RETURN {
                at - 1
            } else {
                at
            };
            let line = slice_subrange(text, start, end);
            proof {
                lemma_first_feed_is(rest, at - start);
                assert(rest.subrange(0, at - start) =~= text@.subrange(start as int, at as int));
                assert(unreturned(text@.subrange(start as int, at as int)) =~= line@);
                assert(rest.subrange(at - start + 1, rest.len() as int) =~= text@.subrange(
                    at + 1,
                    text@.len() as int,
                ));
                assert(line.deep_view() =~= line@);
            }
            lines.push(line);
            proof {
                assert(lines.deep_view() =~= before + seq![line@]);
                assert(lines_of(text@) =~= lines.deep_view() + lines_of(
                    text@.subrange(at + 1, text@.len() as int),
                ));
            }
            start = at + 1;
        }
        at += 1;
    }
    if start < text.len() {
        let ghost rest = text@.subrange(start as int, text@.len() as int);
        let ghost before = lines.deep_view();
        let line = slice_subrange(text, start, text.len());
        proof {
            lemma_first_feed_is(rest, rest.len() as int);
            assert(line.deep_view() =~= line@);
        }
        lines.push(line);
        assert(lines.deep_view() =~= before + seq![line@]);
    } else {
        assert(text@.subrange(start as int, text@.len() as int) =~= Seq::<u8>::empty());
        assert(lines.deep_view() + Seq::<Seq<u8>>::empty() =~= lines.deep_view());
    }
    lines
}

/// A text with one more line is the text of the lines before it, then the
/// line and a line feed.
pub proof fn lemma_joined_push(lines: Seq<Seq<u8>>, line: Seq<u8>)
    ensures
        joined(lines.push(line)) == joined(lines) + line + seq![LINE_FEED],
    decreases lines.len(),
{
    if lines.len() == 0 {
        assert(lines.push(line).drop_first() =~= Seq::<Seq<u8>>::empty());
        assert(joined(Seq::<Seq<u8>>::empty()) =~= Seq::<u8>::empty());
        assert(joined(lines) =~= Seq::<u8>::empty());
        assert(lines.push(line)[0] == line);
        assert(joined(lines.push(line)) =~= joined(lines) + line + seq![LINE_FEED]);
    } else {
        assert(lines.push(line).drop_first() =~= lines.drop_first().push(line));
        lemma_joined_push(lines.drop_first(), line);
        assert(joined(lines.push(line)) =~= joined(lines) + line + seq![LINE_FEED]);
    }
}

/// Writes lines as one text, each with a line feed after it.
pub fn join_lines(lines: &Vec<Vec<u8>>) -> (text: Vec<u8>)
    ensures
        text@ == joined(lines.deep_view()),
{
    let ghost all = lines.deep_view();
    let mut text: Vec<u8> = Vec::new();
    let mut i: usize = 0;
    proof {
        assert(all.subrange(0, 0) =~= Seq::<Seq<u8>>::empty());
    }
    while i < lines.len()
        invariant
            i <= lines.len(),
            all == lines.deep_view(),
            text@ == joined(all.subrange(0, i as int)),
        decreases lines.len() - i,
    {
        let line = &lines[i];
        let ghost before = text@;
        let mut k: usize = 0;
        while k < line.len()
            invariant
                k <= line.len(),
                text@ == before + line@.subrange(0, k as int),
            decreases line.len() - k,
        {
            text.push(line[k]);
            assert(text@ =~= before + line@.subrange(0, k + 1));
            k += 1;
        }
        text.push(LINE_FEED);
        proof {
            assert(line@.subrange(0, line@.len() as int) =~= line@);
            assert(line.deep_view() =~= line@);
            assert(all[i as int] == line.deep_view());
            lemma_joined_push(all.subrange(0, i as int), line@);
            assert(all.subrange(0, i as int).push(line@) =~= all.subrange(0, i + 1));
            assert(text@ =~= before + line@ + seq![LINE_FEED]);
        }
        i += 1;
    }
    assert(all.subrange(0, i as int) =~= all);
    text
}

/// What is written as lines is read back as the same lines: splitting the
/// text of some lines gives those lines again, each byte for byte, as long
/// as each of them can stand as a line.
pub proof fn law_split_inverts_join(lines: Seq<Seq<u8>>)
    requires
        forall|k: int| 0 <= k < lines.len() ==> is_line(#[trigger] lines[k]),
    ensures
        lines_of(joined(lines)) == lines,
    decreases lines.len(),
{
    if lines.len() == 0 {
        assert(lines_of(joined(lines)) =~= lines);
    } else {
        let first = lines[0];
        let rest = lines.drop_first();
        let text = joined(lines);
        assert(is_line(first));
        assert forall|k: int| 0 <= k < first.len() implies text[k] != LINE_FEED by {
            assert(text[k] == first[k]);
            assert(first.contains(first[k]));
        }
        assert(text[first.len() as int] == LINE_FEED);
        lemma_first_feed_is(text, first.len() as int);
        assert(text.subrange(0, first.len() as int) =~= first);
        assert(text.subrange(first.len() as int + 1, text.len() as int) =~= joined(rest));
        assert forall|k: int| 0 <= k < rest.len() implies is_line(#[trigger] rest[k]) by {
            assert(rest[k] == lines[k + 1]);
        }
        law_split_inverts_join(rest);
        assert(lines_of(text) =~= seq![first] + rest);
        assert(seq![first] + rest =~= lines);
    }
}

} // verus!
