//! The journal reader: one text blob becomes an ordered sequence of decoded
//! records, under an explicit per-line failure policy.
//!
//! The blob is split on line terminators; blank (whitespace-only) lines are
//! skipped, never decoded. Under `Strict` the first decode failure aborts the
//! whole read with no partial result; under `Lenient` each failure is
//! recorded beside the surviving records, whose relative order is the line
//! order of the input.

use vstd::prelude::*;
use crate::Policy;
use crate::decode::decode_line;
use crate::decode::spec_decode_line;
use crate::events::DecodeError;
use crate::events::Event;
use crate::events::SpecDecodeError;
use crate::events::SpecEvent;

verus! {

/// One reported per-line failure: the offending line and why it failed.
#[derive(Debug, Clone, PartialEq)]
pub struct LineFailure {
    pub line: String,
    pub error: DecodeError,
}

/// The mathematical form of a `LineFailure`.
pub struct SpecLineFailure {
    pub line: Seq<char>,
    pub error: SpecDecodeError,
}

impl View for LineFailure {
    type V = SpecLineFailure;

    open spec fn view(&self) -> SpecLineFailure {
        SpecLineFailure { line: self.line@, error: self.error@ }
    }
}

impl DeepView for LineFailure {
    type V = SpecLineFailure;

    open spec fn deep_view(&self) -> SpecLineFailure {
        self.view()
    }
}

/// The outcome of one read: the decoded records in line order and, under the
/// lenient policy, the failures in line order.
#[derive(Debug, Clone, PartialEq)]
pub struct JournalReport {
    pub events: Vec<Event>,
    pub failures: Vec<LineFailure>,
}

/// The segments of `s` split on `'\n'`. Splitting never yields fewer than one
/// segment: an empty input is one empty segment.
pub open spec fn split_nl(s: Seq<char>) -> Seq<Seq<char>>
    decreases s.len(),
{
    if s.len() == 0 {
        seq![Seq::<char>::empty()]
    } else if s.first() == '\n' {
        seq![Seq::<char>::empty()] + split_nl(s.drop_first())
    } else {
        let rest = split_nl(s.drop_first());
        seq![seq![s.first()] + rest.first()] + rest.drop_first()
    }
}

/// A segment with one trailing carriage return removed, so that CRLF
/// terminators split like bare LF ones.
pub open spec fn strip_cr(l: Seq<char>) -> Seq<char> {
    if l.len() > 0 && l.last() == '\r' {
        l.drop_last()
    } else {
        l
    }
}

/// Whether a line is blank: nothing but spaces, tabs and carriage returns.
pub open spec fn is_blank(l: Seq<char>) -> bool {
    forall|i: int| 0 <= i < l.len() ==> (l[i] == ' ' || l[i] == '\t' || l[i] == '\r')
}

/// The lines that are decoded: each segment stripped of a trailing carriage
/// return, blank lines dropped, order kept.
pub open spec fn kept(segs: Seq<Seq<char>>) -> Seq<Seq<char>>
    decreases segs.len(),
{
    if segs.len() == 0 {
        Seq::empty()
    } else {
        let pre = kept(segs.drop_last());
        let l = strip_cr(segs.last());
        if is_blank(l) {
            pre
        } else {
            pre.push(l)
        }
    }
}

/// The lines of a journal blob that are decoded, in input order.
pub open spec fn journal_lines(s: Seq<char>) -> Seq<Seq<char>> {
    kept(split_nl(s))
}

/// The records of the lines that decode, in line order.
pub open spec fn ok_events(lines: Seq<Seq<char>>) -> Seq<SpecEvent>
    decreases lines.len(),
{
    if lines.len() == 0 {
        Seq::empty()
    } else {
        let pre = ok_events(lines.drop_last());
        match spec_decode_line(lines.last()) {
            Ok(e) => pre.push(e),
            Err(_) => pre,
        }
    }
}

/// The failures of the lines that do not decode, in line order, each beside
/// its line's content.
pub open spec fn failures_of(lines: Seq<Seq<char>>) -> Seq<SpecLineFailure>
    decreases lines.len(),
{
    if lines.len() == 0 {
        Seq::empty()
    } else {
        let pre = failures_of(lines.drop_last());
        match spec_decode_line(lines.last()) {
            Ok(_) => pre,
            Err(er) => pre.push(SpecLineFailure { line: lines.last(), error: er }),
        }
    }
}

/// The lines that decode successfully, in line order.
pub open spec fn ok_lines(lines: Seq<Seq<char>>) -> Seq<Seq<char>>
    decreases lines.len(),
{
    if lines.len() == 0 {
        Seq::empty()
    } else {
        let pre = ok_lines(lines.drop_last());
        if spec_decode_line(lines.last()) is Ok {
            pre.push(lines.last())
        } else {
            pre
        }
    }
}

/// Order preservation: the records are exactly the decodes of the lines that
/// decode, in order — the record at index `k` comes from the `k`-th line
/// that decodes successfully.
pub proof fn lemma_order_preservation(lines: Seq<Seq<char>>)
    ensures
        ok_events(lines).len() == ok_lines(lines).len(),
        forall|k: int|
            0 <= k < ok_events(lines).len() ==> #[trigger] ok_events(lines)[k]
                == spec_decode_line(ok_lines(lines)[k])->Ok_0,
    decreases lines.len(),
{
    if lines.len() > 0 {
        lemma_order_preservation(lines.drop_last());
    }
}

/// The first failure among the lines, if any line fails to decode.
pub open spec fn first_failure(lines: Seq<Seq<char>>) -> Option<SpecLineFailure> {
    if failures_of(lines).len() == 0 {
        None
    } else {
        Some(failures_of(lines)[0])
    }
}

/// Splitting distributes over the first unterminated prefix: cutting at the
/// first `'\n'` peels one segment off.
proof fn lemma_split_nl_at(s: Seq<char>, j: int)
    requires
        0 <= j < s.len(),
        s[j] == '\n',
        forall|k: int| 0 <= k < j ==> s[k] != '\n',
    ensures
        split_nl(s) == seq![s.subrange(0, j)] + split_nl(s.subrange(j + 1, s.len() as int)),
    decreases j,
{
    if j == 0 {
        assert(s.subrange(0, 0) =~= Seq::<char>::empty());
        assert(s.drop_first() =~= s.subrange(1, s.len() as int));
    } else {
        let t = s.drop_first();
        assert(forall|k: int| 0 <= k < j - 1 ==> t[k] == s[k + 1]);
        lemma_split_nl_at(t, j - 1);
        let rest = split_nl(t);
        assert(rest.first() == t.subrange(0, j - 1));
        assert(rest.drop_first() =~= split_nl(t.subrange(j - 1 + 1, t.len() as int)));
        assert(seq![s.first()] + t.subrange(0, j - 1) =~= s.subrange(0, j));
        assert(t.subrange(j, t.len() as int) =~= s.subrange(j + 1, s.len() as int));
        assert(split_nl(s) =~= seq![s.subrange(0, j)] + split_nl(
            s.subrange(j + 1, s.len() as int),
        ));
    }
}

/// A text without `'\n'` splits into exactly itself.
proof fn lemma_split_nl_whole(s: Seq<char>)
    requires
        forall|k: int| 0 <= k < s.len() ==> s[k] != '\n',
    ensures
        split_nl(s) == seq![s],
    decreases s.len(),
{
    if s.len() == 0 {
        assert(s =~= Seq::<char>::empty());
        assert(split_nl(s) =~= seq![s]);
    } else {
        let t = s.drop_first();
        lemma_split_nl_whole(t);
        let rest = split_nl(t);
        assert(rest.first() == t);
        assert(rest.drop_first() =~= Seq::<Seq<char>>::empty());
        assert(seq![s.first()] + t =~= s);
        assert(split_nl(s) =~= seq![s]);
    }
}

/// How one more segment extends the kept lines.
proof fn lemma_kept_push(segs: Seq<Seq<char>>, seg: Seq<char>)
    ensures
        kept(segs.push(seg)) == if is_blank(strip_cr(seg)) {
            kept(segs)
        } else {
            kept(segs).push(strip_cr(seg))
        },
{
    assert(segs.push(seg).drop_last() =~= segs);
    assert(segs.push(seg).last() == seg);
}

/// How one more line extends the decoded records.
proof fn lemma_ok_events_push(lines: Seq<Seq<char>>, l: Seq<char>)
    ensures
        ok_events(lines.push(l)) == match spec_decode_line(l) {
            Ok(e) => ok_events(lines).push(e),
            Err(_) => ok_events(lines),
        },
{
    assert(lines.push(l).drop_last() =~= lines);
    assert(lines.push(l).last() == l);
}

/// How one more line extends the recorded failures.
proof fn lemma_failures_push(lines: Seq<Seq<char>>, l: Seq<char>)
    ensures
        failures_of(lines.push(l)) == match spec_decode_line(l) {
            Ok(_) => failures_of(lines),
            Err(er) => failures_of(lines).push(SpecLineFailure { line: l, error: er }),
        },
{
    assert(lines.push(l).drop_last() =~= lines);
    assert(lines.push(l).last() == l);
}

/// Keeping lines distributes over concatenation of segment sequences.
proof fn lemma_kept_concat(a: Seq<Seq<char>>, b: Seq<Seq<char>>)
    ensures
        kept(a + b) == kept(a) + kept(b),
    decreases b.len(),
{
    if b.len() == 0 {
        assert(a + b =~= a);
        assert(kept(b) =~= Seq::<Seq<char>>::empty());
        assert(kept(a) + kept(b) =~= kept(a));
    } else {
        lemma_kept_concat(a, b.drop_last());
        assert(a + b =~= (a + b.drop_last()).push(b.last()));
        lemma_kept_push(a + b.drop_last(), b.last());
        assert(b =~= b.drop_last().push(b.last()));
        lemma_kept_push(b.drop_last(), b.last());
        if !is_blank(strip_cr(b.last())) {
            assert((kept(a) + kept(b.drop_last())).push(strip_cr(b.last())) =~= kept(a) + kept(
                b.drop_last(),
            ).push(strip_cr(b.last())));
        }
    }
}

/// Recorded failures distribute over concatenation of line sequences.
proof fn lemma_failures_concat(a: Seq<Seq<char>>, b: Seq<Seq<char>>)
    ensures
        failures_of(a + b) == failures_of(a) + failures_of(b),
    decreases b.len(),
{
    if b.len() == 0 {
        assert(a + b =~= a);
        assert(failures_of(b) =~= Seq::<SpecLineFailure>::empty());
        assert(failures_of(a) + failures_of(b) =~= failures_of(a));
    } else {
        lemma_failures_concat(a, b.drop_last());
        assert(a + b =~= (a + b.drop_last()).push(b.last()));
        lemma_failures_push(a + b.drop_last(), b.last());
        assert(b =~= b.drop_last().push(b.last()));
        lemma_failures_push(b.drop_last(), b.last());
        match spec_decode_line(b.last()) {
            Ok(_) => {},
            Err(er) => {
                let f = SpecLineFailure { line: b.last(), error: er };
                assert((failures_of(a) + failures_of(b.drop_last())).push(f) =~= failures_of(a)
                    + failures_of(b.drop_last()).push(f));
            },
        }
    }
}

/// The index of the first `'\n'` in `s`, or its length where there is none.
fn find_newline(s: &str) -> (j: usize)
    ensures
        j <= s@.len(),
        forall|k: int| 0 <= k < j ==> s@[k] != '\n',
        j < s@.len() ==> s@[j as int] == '\n',
{
    let n = s.unicode_len();
    let mut j: usize = 0;
    while j < n
        invariant
            j <= n,
            n == s@.len(),
            forall|k: int| 0 <= k < j ==> s@[k] != '\n',
        decreases n - j,
    {
        if s.get_char(j) == '\n' {
            return j;
        }
        j = j + 1;
    }
    j
}

/// Removes one trailing carriage return, if any.
fn strip_cr_line<'a>(l: &'a str) -> (r: &'a str)
    ensures
        r@ == strip_cr(l@),
{
    let n = l.unicode_len();
    if n > 0 && l.get_char(n - 1) == '\r' {
        let r = l.substring_char(0, n - 1);
        proof {
            assert(r@ =~= l@.drop_last());
        }
        r
    } else {
        l
    }
}

/// Whether a line holds nothing but spaces, tabs and carriage returns.
fn is_blank_line(l: &str) -> (b: bool)
    ensures
        b == is_blank(l@),
{
    let n = l.unicode_len();
    let mut i: usize = 0;
    while i < n
        invariant
            i <= n,
            n == l@.len(),
            forall|k: int| 0 <= k < i ==> (l@[k] == ' ' || l@[k] == '\t' || l@[k] == '\r'),
        decreases n - i,
    {
        let c = l.get_char(i);
        if !(c == ' ' || c == '\t' || c == '\r') {
            return false;
        }
        i = i + 1;
    }
    true
}

/// Reads one journal blob: splits it into lines, skips blank lines, decodes
/// each remaining line in order, and applies the failure policy.
///
/// Under `Strict` the first failing line aborts the read: the result is that
/// line's failure and no records. Under `Lenient` the result is every record
/// that decodes, in line order, beside every failure, in line order.
#[verifier::loop_isolation(false)]
pub fn decode_journal(content: &str, policy: Policy) -> (r: Result<JournalReport, LineFailure>)
    ensures
        policy == Policy::Lenient ==> (r matches Ok(rep) && rep.events.deep_view() == ok_events(
            journal_lines(content@),
        ) && rep.failures.deep_view() == failures_of(journal_lines(content@))),
        policy == Policy::Strict ==> match first_failure(journal_lines(content@)) {
            None => r matches Ok(rep) && rep.events.deep_view() == ok_events(
                journal_lines(content@),
            ) && rep.failures@.len() == 0,
            Some(f) => r matches Err(lf) && lf@ == f,
        },
{
    let mut events: Vec<Event> = Vec::new();
    let mut failures: Vec<LineFailure> = Vec::new();
    let mut rest: &str = content;
    let mut done: bool = false;
    let ghost mut processed: Seq<Seq<char>> = Seq::empty();
    while !done
        invariant
            !done ==> split_nl(content@) == processed + split_nl(rest@),
            done ==> split_nl(content@) == processed,
            events.deep_view() == ok_events(kept(processed)),
            failures.deep_view() == failures_of(kept(processed)),
            policy == Policy::Strict ==> failures@.len() == 0,
        decreases rest@.len(), (if done {
            0int
        } else {
            1int
        }),
    {
        let n = rest.unicode_len();
        let j = find_newline(rest);
        let seg = rest.substring_char(0, j);
        let line = strip_cr_line(seg);
        let ghost oldrest = rest@;
        let ghost oldprocessed = processed;
        if j < n {
            rest = rest.substring_char(j + 1, n);
        } else {
            rest = "";
            done = true;
        }
        proof {
            reveal_strlit("");
            if j < oldrest.len() {
                lemma_split_nl_at(oldrest, j as int);
            } else {
                lemma_split_nl_whole(oldrest);
                assert(seg@ =~= oldrest);
            }
            processed = processed.push(seg@);
            assert(processed =~= oldprocessed + seq![seg@]);
            if !done {
                assert(oldprocessed + split_nl(oldrest) =~= processed + split_nl(rest@));
            } else {
                assert(oldprocessed + split_nl(oldrest) =~= processed);
            }
            lemma_kept_push(oldprocessed, seg@);
        }
        if is_blank_line(line) {
            // the segment adds no kept line
        } else {
            match decode_line(line) {
                Ok(e) => {
                    let ghost predeep = events.deep_view();
                    let ghost pre = events@;
                    events.push(e);
                    proof {
                        lemma_ok_events_push(kept(oldprocessed), line@);
                        lemma_failures_push(kept(oldprocessed), line@);
                        assert forall|k: int| 0 <= k < events@.len() implies (
                        #[trigger] events.deep_view()[k]) == ok_events(kept(processed))[k] by {
                            if k < pre.len() {
                                assert(events@[k] == pre[k]);
                                assert(predeep[k] == pre[k]@);
                            }
                        };
                        assert(events.deep_view() =~= ok_events(kept(processed)));
                    }
                },
                Err(er) => {
                    match policy {
                        Policy::Strict => {
                            let out = LineFailure { line: line.to_owned(), error: er };
                            proof {
                                lemma_failures_push(kept(oldprocessed), line@);
                                assert(failures_of(kept(processed)) =~= seq![out@]);
                                if !done {
                                    lemma_kept_concat(processed, split_nl(rest@));
                                    lemma_failures_concat(
                                        kept(processed),
                                        kept(split_nl(rest@)),
                                    );
                                    assert(failures_of(journal_lines(content@))[0] == out@);
                                } else {
                                    assert(failures_of(journal_lines(content@))[0] == out@);
                                }
                            }
                            return Err(out);
                        },
                        Policy::Lenient => {
                            let ghost predeep = failures.deep_view();
                            let ghost pre = failures@;
                            failures.push(LineFailure { line: line.to_owned(), error: er });
                            proof {
                                lemma_failures_push(kept(oldprocessed), line@);
                                lemma_ok_events_push(kept(oldprocessed), line@);
                                assert forall|k: int| 0 <= k < failures@.len() implies (
                                #[trigger] failures.deep_view()[k]) == failures_of(
                                    kept(processed),
                                )[k] by {
                                    if k < pre.len() {
                                        assert(failures@[k] == pre[k]);
                                        assert(predeep[k] == pre[k]@);
                                    }
                                };
                                assert(failures.deep_view() =~= failures_of(kept(processed)));
                            }
                        },
                    }
                },
            }
        }
    }
    Ok(JournalReport { events, failures })
}

} // verus!
