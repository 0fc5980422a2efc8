use vstd::prelude::*;

verus! {

pub const LINE_FEED: u8 = 10;

pub const CARRIAGE_RETURN: u8 = 13;

/// A line with its trailing carriage return, if any, removed.
pub open spec fn strip_cr(l: Seq<u8>) -> Seq<u8> {
    if l.len() > 0 && l.last() == CARRIAGE_RETURN {
        l.drop_last()
    } else {
        l
    }
}

/// Frames a byte sequence into lines: the first component is every
/// terminated line in order, carriage returns stripped; the second is the
/// unterminated tail still waiting for its line feed.
pub open spec fn frame(s: Seq<u8>) -> (Seq<Seq<u8>>, Seq<u8>)
    decreases s.len(),
{
    if s.len() == 0 {
        (Seq::<Seq<u8>>::empty(), Seq::<u8>::empty())
    } else {
        let prev = frame(s.drop_last());
        if s.last() == LINE_FEED {
            (prev.0.push(strip_cr(prev.1)), Seq::<u8>::empty())
        } else {
            (prev.0, prev.1.push(s.last()))
        }
    }
}

pub open spec fn lines_of(s: Seq<u8>) -> Seq<Seq<u8>> {
    frame(s).0
}

pub open spec fn rest_of(s: Seq<u8>) -> Seq<u8> {
    frame(s).1
}

/// The views of a list of byte lines.
pub open spec fn byte_views(ls: Seq<Vec<u8>>) -> Seq<Seq<u8>> {
    ls.map_values(|l: Vec<u8>| l@)
}

/// Turns a byte stream, fed in arbitrary chunks, into the exact sequence of
/// line-feed-terminated lines, buffering the unterminated tail: the framing
/// step of the streaming decoder.
pub struct LineFramer {
    buf: Vec<u8>,
    fed: Ghost<Seq<u8>>,
}

impl LineFramer {
    /// Every byte this framer has been fed, in order.
    pub closed spec fn fed(self) -> Seq<u8> {
        self.fed@
    }

    /// The buffer holds exactly the bytes after the last line feed.
    pub closed spec fn wf(self) -> bool {
        self.buf@ == rest_of(self.fed@)
    }

    pub fn new() -> (r: LineFramer)
        ensures
            r.wf(),
            r.fed() == Seq::<u8>::empty(),
    {
        LineFramer { buf: Vec::new(), fed: Ghost(Seq::<u8>::empty()) }
    }

    /// Feeds one chunk and returns every line completed by it, in order.
    pub fn push_chunk(&mut self, chunk: &[u8]) -> (out: Vec<Vec<u8>>)
        requires
            old(self).wf(),
        ensures
            final(self).wf(),
            final(self).fed() == old(self).fed() + chunk@,
            lines_of(final(self).fed()) == lines_of(old(self).fed()) + byte_views(out@),
    {
        let mut out: Vec<Vec<u8>> = Vec::new();
        let ghost fed0 = self.fed@;
        proof {
            assert(lines_of(fed0) + byte_views(out@) =~= lines_of(fed0));
            assert(fed0 + chunk@.take(0) =~= fed0);
        }
        let mut i: usize = 0;
        while i < chunk.len()
            invariant
                i <= chunk@.len(),
                self.fed@ == fed0 + chunk@.take(i as int),
                self.buf@ == rest_of(self.fed@),
                lines_of(self.fed@) == lines_of(fed0) + byte_views(out@),
            decreases chunk@.len() - i,
        {
            let ghost prev_fed = self.fed@;
            let ghost prev_out = out@;
            let c = chunk[i];
            self.fed = Ghost(self.fed@.push(c));
            proof {
                assert(fed0 + chunk@.take(i as int + 1) =~= self.fed@);
                assert(self.fed@.drop_last() =~= prev_fed);
                assert(self.fed@.last() == c);
            }
            if c == LINE_FEED {
                let mut line: Vec<u8> = Vec::new();
                core::mem::swap(&mut line, &mut self.buf);
                if line.len() > 0 && line[line.len() - 1] == CARRIAGE_RETURN {
                    let _dropped = line.pop();
                }
                proof {
                    assert(line@ == strip_cr(rest_of(prev_fed)));
                }
                out.push(line);
                proof {
                    assert(byte_views(out@) =~= byte_views(prev_out).push(out@.last()@));
                    assert(lines_of(self.fed@) =~= lines_of(fed0) + byte_views(out@));
                }
            } else {
                self.buf.push(c);
            }
            i += 1;
        }
        proof {
            assert(chunk@.take(chunk@.len() as int) =~= chunk@);
        }
        out
    }

    /// Ends the stream, handing back the unterminated final line, if any,
    /// with its carriage return stripped like every other line.
    pub fn finish(self) -> (rest: Option<Vec<u8>>)
        requires
            self.wf(),
        ensures
            rest is Some <==> rest_of(self.fed()).len() > 0,
            rest matches Some(l) ==> l@ == strip_cr(rest_of(self.fed())),
    {
        let LineFramer { buf: mut buf, fed: _ } = self;
        if buf.len() == 0 {
            None
        } else {
            if buf[buf.len() - 1] == CARRIAGE_RETURN {
                let _dropped = buf.pop();
            }
            Some(buf)
        }
    }
}

} // verus!
