//! Server-sent-events framing for streamed JSON chunks.
//!
//! A stream is text split into lines by `\n` (a `\r` before it is dropped). A `data:` line
//! adds its value (one leading space dropped) to the current event, several `data:` lines
//! joining with `\n`; other lines (`event:`, comments) are ignored. A blank line ends the
//! event and hands out its data; the payload `[DONE]` ends the stream, after which nothing is
//! handed out.
use vstd::prelude::*;

verus! {

/// The decoder's state: the unfinished line, the data of the unfinished event, and whether
/// the stream has ended.
pub struct SseView {
    pub line: Seq<char>,
    pub data: Option<Seq<char>>,
    pub done: bool,
}

/// The value of a `data:` field line, one leading space dropped; `None` for any other line.
pub open spec fn data_value(line: Seq<char>) -> Option<Seq<char>> {
    if line.len() >= 5 && line.take(5) == "data:"@ {
        let v = line.skip(5);
        Some(
            if v.len() > 0 && v[0] == ' ' {
                v.skip(1)
            } else {
                v
            },
        )
    } else {
        None
    }
}

/// A line without its trailing `\r`, if any.
pub open spec fn without_cr(line: Seq<char>) -> Seq<char> {
    if line.len() > 0 && line.last() == '\r' {
        line.drop_last()
    } else {
        line
    }
}

/// The state after the unfinished line ends, and the payload handed out, if any.
pub open spec fn end_line(st: SseView) -> (SseView, Option<Seq<char>>) {
    let line = without_cr(st.line);
    if line.len() == 0 {
        match st.data {
            Some(d) => if d == "[DONE]"@ {
                (SseView { line: Seq::empty(), data: None, done: true }, None)
            } else {
                (SseView { line: Seq::empty(), data: None, done: false }, Some(d))
            },
            None => (SseView { line: Seq::empty(), ..st }, None),
        }
    } else {
        match data_value(line) {
            Some(v) => (
                SseView {
                    line: Seq::empty(),
                    data: Some(
                        match st.data {
                            Some(d) => d + "\n"@ + v,
                            None => v,
                        },
                    ),
                    done: st.done,
                },
                None,
            ),
            None => (SseView { line: Seq::empty(), ..st }, None),
        }
    }
}

/// The state after one more character, and the payload handed out, if any.
pub open spec fn sse_char(st: SseView, c: char) -> (SseView, Option<Seq<char>>) {
    if st.done {
        (st, None)
    } else if c == '\n' {
        end_line(st)
    } else {
        (SseView { line: st.line.push(c), ..st }, None)
    }
}

/// The state after a run of characters, and the payloads handed out, in order.
pub open spec fn sse_feed(st: SseView, s: Seq<char>) -> (SseView, Seq<Seq<char>>)
    decreases s.len(),
{
    if s.len() == 0 {
        (st, Seq::empty())
    } else {
        let (st1, out1) = sse_feed(st, s.drop_last());
        let (st2, e) = sse_char(st1, s.last());
        (
            st2,
            match e {
                Some(p) => out1.push(p),
                None => out1,
            },
        )
    }
}

/// Once the stream has ended, further text changes nothing and hands out nothing.
proof fn lemma_feed_after_done(st: SseView, s: Seq<char>)
    requires
        st.done,
    ensures
        sse_feed(st, s) == (st, Seq::<Seq<char>>::empty()),
    decreases s.len(),
{
    if s.len() > 0 {
        lemma_feed_after_done(st, s.drop_last());
    }
}

/// Characters other than `\n` accumulate on the unfinished line.
proof fn lemma_feed_plain(st: SseView, s: Seq<char>)
    requires
        !st.done,
        forall|j: int| 0 <= j < s.len() ==> s[j] != '\n',
    ensures
        sse_feed(st, s) == (SseView { line: st.line + s, ..st }, Seq::<Seq<char>>::empty()),
    decreases s.len(),
{
    if s.len() > 0 {
        lemma_feed_plain(st, s.drop_last());
        assert(st.line + s.drop_last() + seq![s.last()] =~= st.line + s);
        assert((st.line + s.drop_last()).push(s.last()) =~= st.line + s);
    } else {
        assert(st.line + s =~= st.line);
    }
}

/// Incremental decoder of an event stream.
pub struct SseDecoder {
    line: String,
    data: Option<String>,
    done: bool,
}

impl View for SseDecoder {
    type V = SseView;

    closed spec fn view(&self) -> SseView {
        SseView {
            line: self.line@,
            data: crate::types::message::opt_str_view(self.data),
            done: self.done,
        }
    }
}

impl SseDecoder {
    /// A decoder at the start of a stream.
    pub fn new() -> (r: Self)
        ensures
            r@ == (SseView { line: Seq::empty(), data: None, done: false }),
    {
        SseDecoder { line: String::new(), data: None, done: false }
    }

    /// Whether the stream has ended with `[DONE]`.
    pub fn is_done(&self) -> (r: bool)
        ensures
            r == self@.done,
    {
        self.done
    }

    /// Ends the unfinished line.
    fn finish_line(&mut self) -> (r: Option<String>)
        requires
            !old(self)@.done,
        ensures
            (final(self)@, crate::types::message::opt_str_view(r)) == end_line(old(self)@),
    {
        proof {
            reveal_strlit("data:");
        }
        let mut raw = String::new();
        std::mem::swap(&mut raw, &mut self.line);
        let n = raw.as_str().unicode_len();
        let line: &str = if n > 0 && raw.as_str().get_char(n - 1) == '\r' {
            raw.as_str().substring_char(0, n - 1)
        } else {
            raw.as_str().substring_char(0, n)
        };
        assert(line@ == without_cr(raw@)) by {
            if n > 0 && raw@.last() == '\r' {
                assert(raw@.subrange(0, n - 1) =~= raw@.drop_last());
            } else {
                assert(raw@.subrange(0, n as int) =~= raw@);
            }
        }
        let m = line.unicode_len();
        if m == 0 {
            let payload = self.data.take();
            return match payload {
                Some(d) => {
                    if d == String::from_str("[DONE]") {
                        self.done = true;
                        None
                    } else {
                        Some(d)
                    }
                },
                None => None,
            };
        }
        let is_data = m >= 5 && line.get_char(0) == 'd' && line.get_char(1) == 'a' && line.get_char(2) == 't'
            && line.get_char(3) == 'a' && line.get_char(4) == ':';
        assert(is_data == (line@.len() >= 5 && line@.take(5) == "data:"@)) by {
            if line@.len() >= 5 {
                if is_data {
                    assert(line@.take(5) =~= "data:"@);
                } else if line@.take(5) == "data:"@ {
                    assert(line@[0] == line@.take(5)[0]);
                    assert(line@[1] == line@.take(5)[1]);
                    assert(line@[2] == line@.take(5)[2]);
                    assert(line@[3] == line@.take(5)[3]);
                    assert(line@[4] == line@.take(5)[4]);
                }
            }
        }
        if is_data {
            let start: usize = if m > 5 && line.get_char(5) == ' ' {
                6
            } else {
                5
            };
            let value = line.substring_char(start, m);
            assert(value@ == data_value(line@)->0) by {
                let v = line@.skip(5);
                if m > 5 && line@[5] == ' ' {
                    assert(v[0] == line@[5]);
                    assert(line@.subrange(6, m as int) =~= v.skip(1));
                } else {
                    if v.len() > 0 {
                        assert(v[0] == line@[5]);
                    }
                    assert(line@.subrange(5, m as int) =~= v);
                }
            }
            let joined = match self.data.take() {
                Some(d) => {
                    let mut d = d;
                    d.append("\n");
                    d.append(value);
                    d
                },
                None => value.to_owned(),
            };
            self.data = Some(joined);
        }
        None
    }

    /// Feeds the next piece of stream text and returns the payloads of the events it
    /// completes, in order.
    pub fn feed(&mut self, text: &str) -> (r: Vec<String>)
        ensures
            (final(self)@, crate::types::shared::strings_view(r@)) == sse_feed(old(self)@, text@),
    {
        let ghost s = text@;
        let ghost st0 = self@;
        let n = text.unicode_len();
        let mut out: Vec<String> = Vec::new();
        let mut start: usize = 0;
        let mut i: usize = 0;
        if self.done {
            proof {
                lemma_feed_after_done(st0, s);
                assert(crate::types::shared::strings_view(out@) =~= Seq::<Seq<char>>::empty());
            }
            return out;
        }
        while i < n
            invariant
                n == s.len(),
                s == text@,
                st0 == old(self)@,
                start <= i <= n,
                !self@.done,
                forall|j: int| start <= j < i ==> s[j] != '\n',
                sse_feed(st0, s.take(start as int)) == (self@, crate::types::shared::strings_view(out@)),
            decreases n - i,
        {
            let c = text.get_char(i);
            if c == '\n' {
                let segment = text.substring_char(start, i);
                let ghost pre = self@;
                let ghost out0 = crate::types::shared::strings_view(out@);
                let ghost seg = s.subrange(start as int, i as int);
                let ghost t = s.take(i as int + 1);
                proof {
                    assert forall|j: int| 0 <= j < seg.len() implies seg[j] != '\n' by {
                        assert(seg[j] == s[start + j]);
                    }
                    lemma_feed_plain(pre, seg);
                    lemma_feed_split(st0, t, start as int);
                    assert(t.take(start as int) =~= s.take(start as int));
                    assert(t.subrange(start as int, t.len() - 1) =~= seg);
                    assert(t.last() == c);
                }
                self.line.append(segment);
                assert(self@ == (SseView { line: pre.line + seg, ..pre }));
                let done_line = self.finish_line();
                let ghost before_push = out@;
                if let Some(p) = done_line {
                    out.push(p);
                }
                proof {
                    assert(out0 + Seq::<Seq<char>>::empty() =~= out0);
                    assert(crate::types::shared::strings_view(out@) =~= match sse_char(
                        SseView { line: pre.line + seg, ..pre },
                        c,
                    ).1 {
                        Some(p) => out0.push(p),
                        None => out0,
                    });
                }
                start = i + 1;
                assert(t == s.take(start as int));
                assert(sse_feed(st0, s.take(start as int)) == (self@, crate::types::shared::strings_view(out@)));
                if self.done {
                    proof {
                        let a = s.take(start as int);
                        let b = s.skip(start as int);
                        let o = crate::types::shared::strings_view(out@);
                        assert(s =~= a + b);
                        lemma_feed_after_done(self@, b);
                        law_chunking_is_invisible(st0, a, b);
                        assert(sse_feed(st0, a) == (self@, o));
                        assert(sse_feed(self@, b) == (self@, Seq::<Seq<char>>::empty()));
                        assert(o + Seq::<Seq<char>>::empty() =~= o);
                        assert(sse_feed(st0, a + b) == (self@, o));
                        assert(sse_feed(st0, s) == (self@, o));
                    }
                    return out;
                }
            }
            i = i + 1;
        }
        let rest = text.substring_char(start, n);
        proof {
            lemma_feed_plain(self@, s.subrange(start as int, n as int));
            assert(s =~= s.take(start as int) + s.subrange(start as int, n as int));
            law_chunking_is_invisible(st0, s.take(start as int), s.subrange(start as int, n as int));
        }
        self.line.append(rest);
        out
    }
}

/// How a stream is cut into pieces does not matter: feeding `a` and then `b` ends in the same
/// state, with the same payloads in the same order, as feeding `a + b` at once.
pub proof fn law_chunking_is_invisible(st: SseView, a: Seq<char>, b: Seq<char>)
    ensures
        sse_feed(st, a + b) == (sse_feed(sse_feed(st, a).0, b).0, sse_feed(st, a).1 + sse_feed(sse_feed(st, a).0, b).1),
    decreases b.len(),
{
    if b.len() == 0 {
        assert(a + b =~= a);
        assert(sse_feed(st, a).1 + Seq::<Seq<char>>::empty() =~= sse_feed(st, a).1);
    } else {
        assert((a + b).drop_last() =~= a + b.drop_last());
        assert((a + b).last() == b.last());
        law_chunking_is_invisible(st, a, b.drop_last());
        let mid = sse_feed(st, a);
        let pre = sse_feed(mid.0, b.drop_last());
        let e = sse_char(pre.0, b.last()).1;
        match e {
            Some(p) => {
                assert((mid.1 + pre.1).push(p) =~= mid.1 + pre.1.push(p));
            },
            None => {},
        }
    }
}

/// The run up to and including a newline at `i` is the run before `start`, a newline-free
/// segment, and the newline.
proof fn lemma_feed_split(st: SseView, t: Seq<char>, start: int)
    requires
        0 <= start < t.len(),
    ensures
        sse_feed(st, t) == ({
            let (s1, o1) = sse_feed(st, t.take(start));
            let (s2, o2) = sse_feed(s1, t.subrange(start, t.len() - 1));
            let (s3, e) = sse_char(s2, t.last());
            (
                s3,
                match e {
                    Some(p) => (o1 + o2).push(p),
                    None => o1 + o2,
                },
            )
        }),
{
    assert(t.drop_last() =~= t.take(start) + t.subrange(start, t.len() - 1));
    law_chunking_is_invisible(st, t.take(start), t.subrange(start, t.len() - 1));
}

} // verus!
