//! The stream decoder: turns the text lines of a streaming completion
//! response into an ordered, finite sequence of partial results.
//!
//! One line is handled at a time: blank lines and lines without the event
//! prefix are skipped, the sentinel after the prefix ends the stream, a
//! well-formed fragment yields exactly one item (and ends the stream when
//! it carries the stop mark), and a malformed fragment is skipped without
//! ending the stream.  Once the decoder has seen a terminal frame it never
//! emits again.

use vstd::prelude::*;
use crate::request::InferenceResponse;
use crate::strutil::{spec_starts_with, starts_with, str_eq};

verus! {

/// The whitespace trimmed from the ends of a line.
pub open spec fn is_line_ws(c: char) -> bool {
    c == ' ' || c == '\t' || c == '\r' || c == '\n'
}

/// `s` without trailing whitespace.
pub open spec fn spec_trim_back(s: Seq<char>) -> Seq<char>
    decreases s.len(),
{
    if s.len() > 0 && is_line_ws(s.last()) {
        spec_trim_back(s.drop_last())
    } else {
        s
    }
}

/// `s` without leading whitespace.
pub open spec fn spec_trim_front(s: Seq<char>) -> Seq<char>
    decreases s.len(),
{
    if s.len() > 0 && is_line_ws(s[0]) {
        spec_trim_front(s.drop_first())
    } else {
        s
    }
}

/// `s` without leading and trailing whitespace.
pub open spec fn spec_trim(s: Seq<char>) -> Seq<char> {
    spec_trim_front(spec_trim_back(s))
}

/// What `serde_json` reads out of one stream fragment: its `content` text
/// and `stop` mark, or nothing when the text is unparsable or has no string
/// `content` or boolean `stop`.
pub uninterp spec fn fragment_of(s: Seq<char>) -> Option<(Seq<char>, bool)>;

/// How the decoder reads one line, after trimming: nothing, the end of the
/// stream, or one fragment.
pub enum LineClass {
    Skip,
    Done,
    Fragment { content: Seq<char>, stop: bool },
}

/// Classifies one raw line: blank lines and lines without the `data: `
/// prefix are skipped; after the prefix, the `[DONE]` sentinel ends the
/// stream, a fragment that `serde_json` can read is yielded, and anything
/// else is skipped.
pub open spec fn spec_classify(line: Seq<char>) -> LineClass {
    let t = spec_trim(line);
    if t.len() == 0 {
        LineClass::Skip
    } else if !spec_starts_with(t, "data: "@) {
        LineClass::Skip
    } else {
        let rest = t.skip("data: "@.len() as int);
        if rest == "[DONE]"@ {
            LineClass::Done
        } else {
            match fragment_of(rest) {
                None => LineClass::Skip,
                Some(p) => LineClass::Fragment { content: p.0, stop: p.1 },
            }
        }
    }
}

/// Relies on `serde_json::from_str` and the `Value` accessors `get`,
/// `as_str` and `as_bool`: reads one stream fragment object.  The result
/// depends on the text alone.
#[verifier::external_body]
fn parse_fragment_json(s: &str) -> (r: Option<(String, bool)>)
    ensures
        match r {
            Some(p) => fragment_of(s@) == Some((p.0@, p.1)),
            None => fragment_of(s@) is None,
        },
{
    let v: serde_json::Value = match serde_json::from_str(s) {
        Ok(v) => v,
        Err(_) => return None,
    };
    let content = match v.get("content").and_then(serde_json::Value::as_str) {
        Some(c) => c.to_string(),
        None => return None,
    };
    let stop = match v.get("stop").and_then(serde_json::Value::as_bool) {
        Some(b) => b,
        None => return None,
    };
    Some((content, stop))
}

/// A scan from the back that stops at the first non-whitespace character
/// finds exactly the trailing whitespace.
proof fn lemma_trim_back_at(s: Seq<char>, e: int)
    requires
        0 <= e <= s.len(),
        forall|j: int| e <= j < s.len() ==> is_line_ws(#[trigger] s[j]),
        e == 0 || !is_line_ws(s[e - 1]),
    ensures
        spec_trim_back(s) == s.subrange(0, e),
    decreases s.len(),
{
    if s.len() > 0 && is_line_ws(s.last()) {
        assert(e < s.len());
        assert forall|j: int| e <= j < s.drop_last().len() implies is_line_ws(
            #[trigger] s.drop_last()[j],
        ) by {
            assert(s.drop_last()[j] == s[j]);
        }
        lemma_trim_back_at(s.drop_last(), e);
        assert(s.drop_last().subrange(0, e) =~= s.subrange(0, e));
    } else {
        assert(e == s.len());
        assert(s.subrange(0, e) =~= s);
    }
}

/// A scan from the front that stops at the first non-whitespace character
/// finds exactly the leading whitespace.
proof fn lemma_trim_front_at(s: Seq<char>, b: int)
    requires
        0 <= b <= s.len(),
        forall|j: int| 0 <= j < b ==> is_line_ws(#[trigger] s[j]),
        b == s.len() || !is_line_ws(s[b]),
    ensures
        spec_trim_front(s) == s.subrange(b, s.len() as int),
    decreases s.len(),
{
    if s.len() > 0 && is_line_ws(s[0]) {
        assert(b > 0);
        assert forall|j: int| 0 <= j < b - 1 implies is_line_ws(#[trigger] s.drop_first()[j]) by {
            assert(s.drop_first()[j] == s[j + 1]);
        }
        lemma_trim_front_at(s.drop_first(), b - 1);
        assert(s.drop_first().subrange(b - 1, s.drop_first().len() as int) =~= s.subrange(
            b,
            s.len() as int,
        ));
    } else {
        assert(b == 0);
        assert(s.subrange(0, s.len() as int) =~= s);
    }
}

/// Whether one character is line whitespace.
fn is_ws_char(c: char) -> (r: bool)
    ensures
        r == is_line_ws(c),
{
    c == ' ' || c == '\t' || c == '\r' || c == '\n'
}

/// Trims leading and trailing whitespace from a line.
fn trim_line(s: &str) -> (r: &str)
    ensures
        r@ == spec_trim(s@),
{
    let n = s.unicode_len();
    let mut e: usize = n;
    while e > 0 && is_ws_char(s.get_char(e - 1))
        invariant
            n == s@.len(),
            0 <= e <= n,
            forall|j: int| e <= j < n ==> is_line_ws(#[trigger] s@[j]),
        decreases e,
    {
        e = e - 1;
    }
    let mut b: usize = 0;
    while b < e && is_ws_char(s.get_char(b))
        invariant
            n == s@.len(),
            0 <= b <= e <= n,
            forall|j: int| 0 <= j < b ==> is_line_ws(#[trigger] s@[j]),
        decreases e - b,
    {
        b = b + 1;
    }
    proof {
        lemma_trim_back_at(s@, e as int);
        let t = s@.subrange(0, e as int);
        assert forall|j: int| 0 <= j < b implies is_line_ws(#[trigger] t[j]) by {
            assert(t[j] == s@[j]);
        }
        if b < e {
            assert(t[b as int] == s@[b as int]);
        }
        lemma_trim_front_at(t, b as int);
        assert(t.subrange(b as int, t.len() as int) =~= s@.subrange(b as int, e as int));
    }
    s.substring_char(b, e)
}

/// The stream decoder.  It is not restartable: a fresh decoder is needed
/// for a fresh response.
pub struct StreamDecoder {
    /// Whether a terminal frame (sentinel or stop-marked fragment) has been
    /// seen; nothing is emitted once this holds.
    pub finished: bool,
}

impl StreamDecoder {
    /// A fresh decoder, ready for the first line.
    pub fn new() -> (r: StreamDecoder)
        ensures
            !r.finished,
    {
        StreamDecoder { finished: false }
    }

    /// Decodes one line.  After a terminal frame nothing is ever emitted
    /// and the decoder stays finished; before that, a skipped line emits
    /// nothing, the sentinel finishes the stream, and a fragment becomes
    /// one item carrying the elapsed time, finishing the stream exactly
    /// when it carries the stop mark.
    pub fn feed_line(&mut self, line: &str, elapsed_ms: u64) -> (r: Option<InferenceResponse>)
        ensures
            old(self).finished ==> final(self).finished && r is None,
            !old(self).finished ==> match spec_classify(line@) {
                LineClass::Skip => r is None && !final(self).finished,
                LineClass::Done => r is None && final(self).finished,
                LineClass::Fragment { content, stop } => {
                    &&& r is Some
                    &&& r->0.text@ == content
                    &&& r->0.tokens_generated == 1
                    &&& r->0.inference_time_ms == elapsed_ms
                    &&& final(self).finished == stop
                },
            },
    {
        if self.finished {
            return None;
        }
        let t = trim_line(line);
        let tn = t.unicode_len();
        if tn == 0 {
            return None;
        }
        if !starts_with(t, "data: ") {
            return None;
        }
        proof {
            reveal_strlit("data: ");
        }
        let rest = t.substring_char(6, tn);
        proof {
            assert(rest@ =~= spec_trim(line@).skip("data: "@.len() as int));
        }
        if str_eq(rest, "[DONE]") {
            self.finished = true;
            return None;
        }
        match parse_fragment_json(rest) {
            None => None,
            Some((content, stop)) => {
                self.finished = stop;
                Some(
                    InferenceResponse {
                        text: content,
                        tokens_generated: 1,
                        inference_time_ms: elapsed_ms,
                    },
                )
            },
        }
    }
}

/// One step of line assembly: the complete lines found in `s` when `cur`
/// has already been read, each ending in its newline, and the unfinished
/// tail.
pub open spec fn spec_split_lines(cur: Seq<char>, s: Seq<char>) -> (Seq<Seq<char>>, Seq<char>)
    decreases s.len(),
{
    if s.len() == 0 {
        (Seq::<Seq<char>>::empty(), cur)
    } else if s[0] == '\n' {
        let rest = spec_split_lines(Seq::<char>::empty(), s.drop_first());
        (seq![cur.push('\n')] + rest.0, rest.1)
    } else {
        spec_split_lines(cur.push(s[0]), s.drop_first())
    }
}

/// Processing a single character either completes the carried line or
/// extends it.
proof fn lemma_split_lines_one(cur: Seq<char>, c: char)
    ensures
        c == '\n' ==> spec_split_lines(cur, seq![c]) == (
            seq![cur.push('\n')],
            Seq::<char>::empty(),
        ),
        c != '\n' ==> spec_split_lines(cur, seq![c]) == (
            Seq::<Seq<char>>::empty(),
            cur.push(c),
        ),
{
    let one = seq![c];
    assert(one.drop_first() =~= Seq::<char>::empty());
    if c == '\n' {
        let rest = spec_split_lines(Seq::<char>::empty(), one.drop_first());
        assert(rest.0 =~= Seq::<Seq<char>>::empty());
        assert(rest.1 =~= Seq::<char>::empty());
        assert(spec_split_lines(cur, one).0 =~= seq![cur.push('\n')] + rest.0);
        assert(seq![cur.push('\n')] + rest.0 =~= seq![cur.push('\n')]);
    } else {
        let rest = spec_split_lines(cur.push(c), one.drop_first());
        assert(spec_split_lines(cur, one) == rest);
        assert(rest.0 =~= Seq::<Seq<char>>::empty());
        assert(rest.1 =~= cur.push(c));
    }
}

/// Processing `a + b` is processing `a`, then `b` from where `a` left off.
proof fn lemma_split_lines_append(cur: Seq<char>, a: Seq<char>, b: Seq<char>)
    ensures
        ({
            let first = spec_split_lines(cur, a);
            let second = spec_split_lines(first.1, b);
            spec_split_lines(cur, a + b) == (first.0 + second.0, second.1)
        }),
    decreases a.len(),
{
    let first = spec_split_lines(cur, a);
    let second = spec_split_lines(first.1, b);
    if a.len() == 0 {
        assert(a + b =~= b);
        assert(first.0 + second.0 =~= second.0);
    } else {
        assert((a + b).drop_first() =~= a.drop_first() + b);
        if a[0] == '\n' {
            lemma_split_lines_append(Seq::<char>::empty(), a.drop_first(), b);
            let rest = spec_split_lines(Seq::<char>::empty(), a.drop_first());
            let restb = spec_split_lines(rest.1, b);
            assert(first.0 + second.0 =~= seq![cur.push('\n')] + (rest.0 + restb.0));
        } else {
            lemma_split_lines_append(cur.push(a[0]), a.drop_first(), b);
        }
    }
}

/// Assembles the text chunks of a streamed response into whole lines: a
/// chunk boundary can fall anywhere, so the unfinished tail is carried
/// until its newline arrives.
pub struct LineSplitter {
    /// The unfinished tail: everything read since the last newline.
    buffer: String,
}

impl LineSplitter {
    /// The unfinished tail carried so far.
    pub closed spec fn spec_buffer(&self) -> Seq<char> {
        self.buffer@
    }

    /// A fresh splitter with nothing carried.
    pub fn new() -> (r: LineSplitter)
        ensures
            r.spec_buffer() == Seq::<char>::empty(),
    {
        LineSplitter { buffer: String::new() }
    }

    /// Takes one chunk and hands back every line it completes, each ending
    /// in its newline, in order; the unfinished tail stays carried.
    pub fn push_chunk(&mut self, chunk: &str) -> (r: Vec<String>)
        ensures
            ({
                let split = spec_split_lines(old(self).spec_buffer(), chunk@);
                r.deep_view() == split.0 && final(self).spec_buffer() == split.1
            }),
    {
        let mut out: Vec<String> = Vec::new();
        let n = chunk.unicode_len();
        let mut i: usize = 0;
        proof {
            assert(chunk@.subrange(0, 0) =~= Seq::<char>::empty());
            assert(out.deep_view() =~= spec_split_lines(old(self).spec_buffer(), chunk@.subrange(0, 0)).0);
        }
        while i < n
            invariant
                n == chunk@.len(),
                0 <= i <= n,
                ({
                    let split = spec_split_lines(old(self).spec_buffer(), chunk@.subrange(0, i as int));
                    out.deep_view() == split.0 && self.buffer@ == split.1
                }),
            decreases n - i,
        {
            let c = chunk.get_char(i);
            let ghost pre = chunk@.subrange(0, i as int);
            let ghost split_pre = spec_split_lines(old(self).spec_buffer(), pre);
            if c == '\n' {
                self.buffer.push('\n');
                let mut line = String::new();
                std::mem::swap(&mut line, &mut self.buffer);
                out.push(line);
            } else {
                self.buffer.push(c);
            }
            proof {
                let ext = chunk@.subrange(0, i as int + 1);
                assert(ext =~= pre + seq![chunk@[i as int]]);
                lemma_split_lines_append(old(self).spec_buffer(), pre, seq![chunk@[i as int]]);
                lemma_split_lines_one(split_pre.1, chunk@[i as int]);
                if chunk@[i as int] == '\n' {
                    assert(out.deep_view().last() =~= split_pre.1.push('\n'));
                } else {
                    assert(self.buffer@ =~= split_pre.1.push(chunk@[i as int]));
                }
                assert(out.deep_view() =~= spec_split_lines(old(self).spec_buffer(), ext).0);
                assert(self.buffer@ =~= spec_split_lines(old(self).spec_buffer(), ext).1);
            }
            i = i + 1;
        }
        proof {
            assert(chunk@.subrange(0, n as int) =~= chunk@);
        }
        out
    }

    /// Hands back the unfinished tail, if any, once the stream has closed:
    /// a final line that never got its newline.
    pub fn finish(&mut self) -> (r: Option<String>)
        ensures
            final(self).spec_buffer() == Seq::<char>::empty(),
            old(self).spec_buffer().len() == 0 ==> r is None,
            old(self).spec_buffer().len() > 0 ==> (r matches Some(line) && line@ == old(
                self,
            ).spec_buffer()),
    {
        if self.buffer.as_str().unicode_len() == 0 {
            None
        } else {
            let mut line = String::new();
            std::mem::swap(&mut line, &mut self.buffer);
            Some(line)
        }
    }
}

/// The texts of a sequence of partial results.
pub open spec fn texts_of(rs: Seq<InferenceResponse>) -> Seq<Seq<char>> {
    rs.map_values(|r: InferenceResponse| r.text@)
}

/// The fragment contents a sequence of lines decodes to: skipped lines
/// contribute nothing, the sentinel ends the sequence, and a fragment
/// contributes one item, ending the sequence when it carries the stop mark.
pub open spec fn spec_decode(lines: Seq<Seq<char>>) -> Seq<Seq<char>>
    decreases lines.len(),
{
    if lines.len() == 0 {
        Seq::<Seq<char>>::empty()
    } else {
        match spec_classify(lines[0]) {
            LineClass::Skip => spec_decode(lines.drop_first()),
            LineClass::Done => Seq::<Seq<char>>::empty(),
            LineClass::Fragment { content, stop } => if stop {
                seq![content]
            } else {
                seq![content] + spec_decode(lines.drop_first())
            },
        }
    }
}

/// Decodes a whole sequence of lines: the items are the decoded fragment
/// contents, in order, each counting one generated token and carrying the
/// given elapsed time.
pub fn decode_lines(lines: &Vec<String>, elapsed_ms: u64) -> (r: Vec<InferenceResponse>)
    ensures
        texts_of(r@) == spec_decode(lines.deep_view()),
        forall|i: int|
            0 <= i < r@.len() ==> (#[trigger] r@[i]).tokens_generated == 1
                && r@[i].inference_time_ms == elapsed_ms,
{
    let mut out: Vec<InferenceResponse> = Vec::new();
    let mut dec = StreamDecoder::new();
    let n = lines.len();
    let mut i: usize = 0;
    proof {
        assert(lines.deep_view().skip(0) =~= lines.deep_view());
        assert(texts_of(out@) + spec_decode(lines.deep_view()) =~= spec_decode(lines.deep_view()));
    }
    while i < n
        invariant
            n == lines@.len(),
            0 <= i <= n,
            texts_of(out@) + (if dec.finished {
                Seq::<Seq<char>>::empty()
            } else {
                spec_decode(lines.deep_view().skip(i as int))
            }) == spec_decode(lines.deep_view()),
            forall|k: int|
                0 <= k < out@.len() ==> (#[trigger] out@[k]).tokens_generated == 1
                    && out@[k].inference_time_ms == elapsed_ms,
        decreases n - i,
    {
        let ghost rest = lines.deep_view().skip(i as int);
        proof {
            assert(rest.len() > 0);
            assert(rest[0] == lines.deep_view()[i as int]);
            assert(rest.drop_first() =~= lines.deep_view().skip(i as int + 1));
        }
        let ghost pre_finished = dec.finished;
        let item = dec.feed_line(lines[i].as_str(), elapsed_ms);
        match item {
            None => {},
            Some(resp) => {
                out.push(resp);
            },
        }
        proof {
            if !pre_finished {
                assert(texts_of(out@) + (if dec.finished {
                    Seq::<Seq<char>>::empty()
                } else {
                    spec_decode(lines.deep_view().skip(i as int + 1))
                }) =~= spec_decode(lines.deep_view()));
            } else {
                assert(texts_of(out@) + Seq::<Seq<char>>::empty() =~= spec_decode(
                    lines.deep_view(),
                ));
            }
        }
        i = i + 1;
    }
    proof {
        if !dec.finished {
            assert(lines.deep_view().skip(n as int) =~= Seq::<Seq<char>>::empty());
        }
        assert(texts_of(out@) =~= spec_decode(lines.deep_view()));
    }
    out
}

} // verus!
