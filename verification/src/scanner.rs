//! Scanning a source line by line, and collecting a whole batch.
//!
//! The scanner owns a cursor over the text of the source and decodes one
//! line per call, reporting exhaustion as "no more records" rather than an
//! error. After a decode error the scanner is permanently exhausted: further
//! calls report no more records rather than resuming mid-stream. The batch
//! collector drives a scanner to exhaustion and materializes every record in
//! read order, failing fast: the first error is returned and any partially
//! collected records are discarded.

use vstd::prelude::*;

use crate::error::ErrorModel;
use crate::error::SensorReadoutParserError;
use crate::raw_event::decode_line;
use crate::raw_event::spec_decode_line;
use crate::raw_event::RawEventModel;
use crate::raw_event::RawSensorEvent;
use crate::text::find_char;
use crate::text::find_from;
use crate::text::lemma_find_from_bounds;

verus! {

/// Where the line that starts at `pos` ends: one past its line feed, or the
/// end of the source when no line feed remains.
pub open spec fn line_end(s: Seq<char>, pos: int) -> int {
    match find_from(s, '\n', pos) {
        Some(i) => i + 1,
        None => s.len() as int,
    }
}

/// A line that starts inside the source ends after its start and within the
/// source.
pub proof fn lemma_line_end_bounds(s: Seq<char>, pos: int)
    requires
        0 <= pos < s.len(),
    ensures
        pos < line_end(s, pos) <= s.len(),
{
    lemma_find_from_bounds(s, '\n', pos);
}

/// A stateful cursor over one source: yields the raw record of each line in
/// turn, then "no more records".
pub struct VisitingParser {
    input: String,
    pos: usize,
}

impl VisitingParser {
    /// The whole text this scanner reads.
    pub closed spec fn src(&self) -> Seq<char> {
        self.input@
    }

    /// The position of the first character no call has decoded yet.
    pub closed spec fn cursor(&self) -> int {
        self.pos as int
    }

    /// The cursor never leaves the source.
    pub open spec fn wf(&self) -> bool {
        0 <= self.cursor() <= self.src().len()
    }

    /// Opens a scanning session at the start of the source.
    pub fn new(input: &str) -> (r: VisitingParser)
        ensures
            r.wf(),
            r.src() == input@,
            r.cursor() == 0,
    {
        VisitingParser { input: String::from_str(input), pos: 0 }
    }

    /// Decodes the next line. At the end of the source, reports "no more
    /// records"; on a malformed line, reports its format error and becomes
    /// permanently exhausted.
    pub fn next(&mut self) -> (r: Result<Option<RawSensorEvent>, SensorReadoutParserError>)
        requires
            old(self).wf(),
        ensures
            final(self).wf(),
            final(self).src() == old(self).src(),
            old(self).cursor() == old(self).src().len() ==> (r matches Ok(None)
                && final(self).cursor() == old(self).cursor()),
            old(self).cursor() < old(self).src().len() ==> {
                let end = line_end(old(self).src(), old(self).cursor());
                let line = old(self).src().subrange(old(self).cursor(), end);
                match spec_decode_line(line) {
                    Ok(rec) => r matches Ok(Some(evt)) && evt@ == rec && final(self).cursor()
                        == end,
                    Err(m) => r matches Err(e) && e@ == ErrorModel::Format(m)
                        && final(self).cursor() == old(self).src().len(),
                }
            },
            old(self).cursor() < old(self).src().len() ==> final(self).cursor() > old(
                self).cursor(),
    {
        let n = self.input.as_str().unicode_len();
        if self.pos >= n {
            return Ok(None);
        }
        proof {
            lemma_find_from_bounds(self.input@, '\n', self.pos as int);
        }
        let end = match find_char(self.input.as_str(), '\n', self.pos) {
            Some(i) => i + 1,
            None => n,
        };
        let line = self.input.as_str().substring_char(self.pos, end);
        match decode_line(line) {
            Ok(evt) => {
                self.pos = end;
                Ok(Some(evt))
            },
            Err(e) => {
                self.pos = n;
                Err(e)
            },
        }
    }
}

/// The batch collector: materializes every record of a source at once.
pub struct AggregatingParser {}

/// What collecting a whole source from `pos` yields: every remaining
/// record in read order, or the message of the first line that fails.
pub open spec fn spec_parse_all(s: Seq<char>, pos: int) -> Result<Seq<RawEventModel>, Seq<char>>
    decreases s.len() - pos,
    via spec_parse_all_decreases
{
    if pos < 0 || pos >= s.len() {
        Ok(Seq::empty())
    } else {
        let end = line_end(s, pos);
        match spec_decode_line(s.subrange(pos, end)) {
            Err(m) => Err(m),
            Ok(rec) => match spec_parse_all(s, end) {
                Err(m) => Err(m),
                Ok(rest) => Ok(seq![rec] + rest),
            },
        }
    }
}

#[via_fn]
proof fn spec_parse_all_decreases(s: Seq<char>, pos: int) {
    if 0 <= pos < s.len() {
        lemma_line_end_bounds(s, pos);
    }
}

impl AggregatingParser {
    /// Collects every record of the source in read order, failing fast: the
    /// first malformed line's error is returned and the records before it
    /// are discarded.
    pub fn parse(input: &str) -> (r: Result<Vec<RawSensorEvent>, SensorReadoutParserError>)
        ensures
            match r {
                Ok(v) => spec_parse_all(input@, 0) == Ok::<Seq<RawEventModel>, Seq<char>>(
                    v@.map_values(|e: RawSensorEvent| e@),
                ),
                Err(e) => e@ matches ErrorModel::Format(m) && spec_parse_all(input@, 0) == Err::<
                    Seq<RawEventModel>,
                    Seq<char>,
                >(m),
            },
    {
        let mut parser = VisitingParser::new(input);
        let mut events: Vec<RawSensorEvent> = Vec::new();
        proof {
            assert(events@.map_values(|e: RawSensorEvent| e@) =~= Seq::<RawEventModel>::empty());
        }
        loop
            invariant
                parser.wf(),
                parser.src() == input@,
                ({
                    let done = events@.map_values(|e: RawSensorEvent| e@);
                    match spec_parse_all(input@, parser.cursor()) {
                        Ok(rest) => spec_parse_all(input@, 0) == Ok::<
                            Seq<RawEventModel>,
                            Seq<char>,
                        >(done + rest),
                        Err(m) => spec_parse_all(input@, 0) == Err::<
                            Seq<RawEventModel>,
                            Seq<char>,
                        >(m),
                    }
                }),
            decreases input@.len() - parser.cursor(),
        {
            let ghost old_pos = parser.cursor();
            let ghost done_old = events@.map_values(|e: RawSensorEvent| e@);
            match parser.next() {
                Ok(Some(evt)) => {
                    events.push(evt);
                    proof {
                        assert(events@.map_values(|e: RawSensorEvent| e@) =~= done_old.push(evt@));
                        let rest_at_old = spec_parse_all(input@, old_pos);
                        match spec_parse_all(input@, parser.cursor()) {
                            Ok(rest) => {
                                assert(rest_at_old == Ok::<Seq<RawEventModel>, Seq<char>>(
                                    seq![evt@] + rest,
                                ));
                                assert(done_old + (seq![evt@] + rest) =~= done_old.push(evt@)
                                    + rest);
                            },
                            Err(m) => {},
                        }
                    }
                },
                Ok(None) => {
                    proof {
                        let done = events@.map_values(|e: RawSensorEvent| e@);
                        assert(done + Seq::<RawEventModel>::empty() =~= done);
                    }
                    return Ok(events);
                },
                Err(e) => {
                    return Err(e);
                },
            }
        }
    }
}

} // verus!
