//! Stream decoding: the bytes of one output stream become newline-delimited
//! text lines, forwarded in production order; lines that do not decode are
//! dropped rather than aborting the stream.

use vstd::prelude::*;
use vstd::utf8::{decode_utf8, valid_utf8};

verus! {

/// The bytes after the last newline: the current, unterminated line.
pub open spec fn pending(bs: Seq<u8>) -> Seq<u8>
    decreases bs.len(),
{
    if bs.len() == 0 {
        Seq::empty()
    } else if bs.last() == 10u8 {
        Seq::empty()
    } else {
        pending(bs.drop_last()).push(bs.last())
    }
}

/// The newline-terminated raw lines so far, in order, without terminators.
pub open spec fn complete_raw(bs: Seq<u8>) -> Seq<Seq<u8>>
    decreases bs.len(),
{
    if bs.len() == 0 {
        Seq::empty()
    } else if bs.last() == 10u8 {
        complete_raw(bs.drop_last()).push(pending(bs.drop_last()))
    } else {
        complete_raw(bs.drop_last())
    }
}

/// A raw line with one trailing carriage return removed.
pub open spec fn strip_cr(l: Seq<u8>) -> Seq<u8> {
    if l.len() > 0 && l.last() == 13u8 {
        l.drop_last()
    } else {
        l
    }
}

/// The text of one raw line: its bytes, without a trailing carriage return,
/// decoded — or nothing when they are not valid UTF-8.
pub open spec fn line_text(l: Seq<u8>) -> Option<Seq<char>> {
    if valid_utf8(strip_cr(l)) {
        Some(decode_utf8(strip_cr(l)))
    } else {
        None
    }
}

/// The text of one raw line as a sequence of zero or one lines.
pub open spec fn line_texts(l: Seq<u8>) -> Seq<Seq<char>> {
    match line_text(l) {
        Some(t) => seq![t],
        None => Seq::empty(),
    }
}

/// The decodable lines among `raws`, in order.
pub open spec fn texts_of(raws: Seq<Seq<u8>>) -> Seq<Seq<char>>
    decreases raws.len(),
{
    if raws.len() == 0 {
        Seq::empty()
    } else {
        texts_of(raws.drop_last()) + line_texts(raws.last())
    }
}

/// Every line of a finished stream, in production order: the
/// newline-terminated ones, then the final unterminated one if it is
/// nonempty; lines that do not decode are dropped.
pub open spec fn stream_lines(bs: Seq<u8>) -> Seq<Seq<char>> {
    texts_of(complete_raw(bs)) + if pending(bs).len() == 0 {
        Seq::empty()
    } else {
        line_texts(pending(bs))
    }
}

/// The views of a sequence of owned lines.
pub open spec fn seq_views(ss: Seq<String>) -> Seq<Seq<char>> {
    ss.map_values(|s: String| s@)
}

/// How feeding one byte changes the pending line and the completed lines.
proof fn lemma_feed_byte(bs: Seq<u8>, b: u8)
    ensures
        b == 10 ==> pending(bs.push(b)) == Seq::<u8>::empty(),
        b == 10 ==> complete_raw(bs.push(b)) == complete_raw(bs).push(pending(bs)),
        b != 10 ==> pending(bs.push(b)) == pending(bs).push(b),
        b != 10 ==> complete_raw(bs.push(b)) == complete_raw(bs),
{
    assert(bs.push(b).drop_last() =~= bs);
    assert(bs.push(b).last() == b);
}

/// Completing one more raw line appends its text, if it has one.
proof fn lemma_texts_push(raws: Seq<Seq<u8>>, l: Seq<u8>)
    ensures
        texts_of(raws.push(l)) == texts_of(raws) + line_texts(l),
{
    assert(raws.push(l).drop_last() =~= raws);
    assert(raws.push(l).last() == l);
}

/// Relies on `core::str::from_utf8`: it returns `Ok` exactly when the bytes
/// are valid UTF-8, and the resulting text then decodes those bytes.
#[verifier::external_body]
fn utf8_line(bytes: &[u8]) -> (r: Option<String>)
    ensures
        r is Some <==> valid_utf8(bytes@),
        r matches Some(s) ==> s@ == decode_utf8(bytes@),
{
    core::str::from_utf8(bytes).ok().map(|s| s.to_string())
}

/// Incremental decoder for one output stream. Bytes go in as they arrive
/// from the pipe; completed lines come out, in production order.
pub struct LineDecoder {
    buf: Vec<u8>,
    fed: Ghost<Seq<u8>>,
}

impl LineDecoder {
    /// All bytes fed so far.
    pub closed spec fn fed(&self) -> Seq<u8> {
        self.fed@
    }

    /// The buffered bytes are exactly the unterminated tail of the stream.
    pub closed spec fn wf(&self) -> bool {
        self.buf@ == pending(self.fed@)
    }

    pub fn new() -> (r: LineDecoder)
        ensures
            r.wf(),
            r.fed() == Seq::<u8>::empty(),
    {
        LineDecoder { buf: Vec::new(), fed: Ghost(Seq::empty()) }
    }

    /// Feed one chunk of bytes; the newly completed lines come back, in
    /// order. The lines already out plus these are exactly the decodable
    /// newline-terminated lines of everything fed.
    pub fn push_chunk(&mut self, chunk: &Vec<u8>) -> (out: Vec<String>)
        requires
            old(self).wf(),
        ensures
            final(self).wf(),
            final(self).fed() == old(self).fed() + chunk@,
            texts_of(complete_raw(old(self).fed())) + seq_views(out@) == texts_of(
                complete_raw(final(self).fed()),
            ),
    {
        let ghost old_fed = self.fed@;
        let mut out: Vec<String> = Vec::new();
        let mut i: usize = 0;
        proof {
            assert(old_fed + chunk@.take(0) =~= old_fed);
            assert(seq_views(out@) =~= Seq::<Seq<char>>::empty());
            assert(texts_of(complete_raw(old_fed)) + seq_views(out@) =~= texts_of(
                complete_raw(old_fed),
            ));
        }
        while i < chunk.len()
            invariant
                0 <= i <= chunk@.len(),
                self.wf(),
                self.fed@ == old_fed + chunk@.take(i as int),
                texts_of(complete_raw(old_fed)) + seq_views(out@) == texts_of(
                    complete_raw(self.fed@),
                ),
            decreases chunk@.len() - i,
        {
            let b = chunk[i];
            let ghost prev = self.fed@;
            proof {
                lemma_feed_byte(prev, b);
                assert((old_fed + chunk@.take(i as int)).push(chunk@[i as int]) =~= old_fed
                    + chunk@.take(i as int + 1));
            }
            if b == 10u8 {
                let mut line = self.buf.split_off(0);
                let n = line.len();
                if n > 0 && line[n - 1] == 13u8 {
                    line.pop();
                }
                proof {
                    assert(line@ =~= strip_cr(pending(prev)));
                }
                match utf8_line(line.as_slice()) {
                    Some(s) => {
                        proof {
                            lemma_texts_push(complete_raw(prev), pending(prev));
                            assert(seq_views(out@.push(s)) =~= seq_views(out@).push(s@));
                            assert(texts_of(complete_raw(old_fed)) + seq_views(out@.push(s))
                                =~= (texts_of(complete_raw(old_fed)) + seq_views(out@)) + seq![s@]);
                        }
                        out.push(s);
                    },
                    None => {
                        proof {
                            lemma_texts_push(complete_raw(prev), pending(prev));
                            assert(texts_of(complete_raw(prev)) + Seq::<Seq<char>>::empty()
                                =~= texts_of(complete_raw(prev)));
                        }
                    },
                }
            } else {
                self.buf.push(b);
            }
            self.fed = Ghost(prev.push(b));
            proof {
                assert(self.buf@ =~= pending(prev.push(b)));
            }
            i = i + 1;
        }
        proof {
            assert(old_fed + chunk@.take(chunk@.len() as int) =~= old_fed + chunk@);
        }
        out
    }

    /// Finish the stream at end-of-input: the final unterminated line, if
    /// there is one and it decodes. With it, everything handed out is
    /// exactly `stream_lines` of the bytes fed.
    pub fn finish(self) -> (out: Option<String>)
        requires
            self.wf(),
        ensures
            (match out {
                Some(s) => stream_lines(self.fed()) == texts_of(complete_raw(self.fed())).push(
                    s@,
                ),
                None => stream_lines(self.fed()) == texts_of(complete_raw(self.fed())),
            }),
    {
        let ghost fed = self.fed@;
        if self.buf.is_empty() {
            proof {
                assert(texts_of(complete_raw(fed)) + Seq::<Seq<char>>::empty() =~= texts_of(
                    complete_raw(fed),
                ));
            }
            return None;
        }
        let mut line = self.buf;
        let n = line.len();
        if n > 0 && line[n - 1] == 13u8 {
            line.pop();
        }
        proof {
            assert(line@ =~= strip_cr(pending(fed)));
        }
        let r = utf8_line(line.as_slice());
        proof {
            match &r {
                Some(s) => {
                    assert(texts_of(complete_raw(fed)) + seq![s@] =~= texts_of(
                        complete_raw(fed),
                    ).push(s@));
                },
                None => {
                    assert(texts_of(complete_raw(fed)) + Seq::<Seq<char>>::empty() =~= texts_of(
                        complete_raw(fed),
                    ));
                },
            }
        }
        r
    }
}

/// Decode a whole captured stream at once: every newline-terminated line and
/// the final unterminated one, in production order, undecodable lines
/// dropped.
pub fn decode_stream(bytes: &Vec<u8>) -> (lines: Vec<String>)
    ensures
        seq_views(lines@) == stream_lines(bytes@),
{
    let mut d = LineDecoder::new();
    let mut lines = d.push_chunk(bytes);
    proof {
        assert(Seq::<u8>::empty() + bytes@ =~= bytes@);
        assert(Seq::<Seq<char>>::empty() + seq_views(lines@) =~= seq_views(lines@));
    }
    match d.finish() {
        Some(s) => {
            proof {
                assert(seq_views(lines@.push(s)) =~= seq_views(lines@).push(s@));
            }
            lines.push(s);
        },
        None => {},
    }
    lines
}

} // verus!
