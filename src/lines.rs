//! Cuts a byte stream into lines at either carriage return or line feed.
use vstd::prelude::*;

verus! {

pub open spec fn is_break(b: u8) -> bool {
    b == 10 || b == 13
}

pub open spec fn byte_lines(v: Seq<Vec<u8>>) -> Seq<Seq<u8>> {
    v.map_values(|l: Vec<u8>| l@)
}

/// Reads `data` after the unfinished line `pending`: the lines completed on the way,
/// appended to `done`, and what is left unfinished. Empty lines are dropped.
pub open spec fn scan(done: Seq<Seq<u8>>, pending: Seq<u8>, data: Seq<u8>) -> (
    Seq<Seq<u8>>,
    Seq<u8>,
)
    decreases data.len(),
{
    if data.len() == 0 {
        (done, pending)
    } else if is_break(data[0]) {
        scan(
            if pending.len() > 0 {
                done.push(pending)
            } else {
                done
            },
            Seq::empty(),
            data.drop_first(),
        )
    } else {
        scan(done, pending.push(data[0]), data.drop_first())
    }
}

/// Holds the unfinished tail of a stream between reads.
pub struct LineSplitter {
    pub pending: Vec<u8>,
}

impl LineSplitter {
    pub fn new() -> (r: LineSplitter)
        ensures
            r.pending@ == Seq::<u8>::empty(),
    {
        LineSplitter { pending: Vec::new() }
    }

    /// Takes the next bytes of the stream and returns the lines they complete.
    pub fn feed(&mut self, data: &[u8]) -> (r: Vec<Vec<u8>>)
        ensures
            byte_lines(r@) == scan(Seq::empty(), old(self).pending@, data@).0,
            final(self).pending@ == scan(Seq::empty(), old(self).pending@, data@).1,
    {
        let ghost start = self.pending@;
        let mut out: Vec<Vec<u8>> = Vec::new();
        let mut i: usize = 0;
        assert(data@.skip(0) =~= data@);
        assert(byte_lines(out@) =~= Seq::<Seq<u8>>::empty());
        while i < data.len()
            invariant
                i <= data@.len(),
                scan(byte_lines(out@), self.pending@, data@.skip(i as int)) == scan(
                    Seq::empty(),
                    start,
                    data@,
                ),
            decreases data@.len() - i,
        {
            let b = data[i];
            let ghost rest = data@.skip(i as int);
            assert(rest[0] == b);
            assert(rest.drop_first() =~= data@.skip(i + 1));
            let ghost lines_before = byte_lines(out@);
            let ghost pending_before = self.pending@;
            if b == 10 || b == 13 {
                if self.pending.len() > 0 {
                    let ghost before = byte_lines(out@);
                    let line = self.pending.split_off(0);
                    assert(line@ =~= pending_before);
                    out.push(line);
                    assert(byte_lines(out@) =~= before.push(line@));
                } else {
                    self.pending = Vec::new();
                }
                assert(self.pending@ =~= Seq::<u8>::empty());
            } else {
                self.pending.push(b);
            }
            assert(scan(lines_before, pending_before, rest) == scan(
                byte_lines(out@),
                self.pending@,
                rest.drop_first(),
            ));
            i = i + 1;
        }
        assert(data@.skip(i as int) =~= Seq::<u8>::empty());
        out
    }

    /// Ends the stream: the unfinished last line, if it holds anything.
    pub fn finish(&mut self) -> (r: Option<Vec<u8>>)
        ensures
            old(self).pending@.len() > 0 ==> (r matches Some(l) && l@ == old(self).pending@),
            old(self).pending@.len() == 0 ==> r is None,
            final(self).pending@ == Seq::<u8>::empty(),
    {
        if self.pending.len() > 0 {
            Some(self.pending.split_off(0))
        } else {
            None
        }
    }
}

/// Bytes without a line break complete no line: they only extend the unfinished one.
pub proof fn lemma_no_break_stays_pending(done: Seq<Seq<u8>>, pending: Seq<u8>, data: Seq<u8>)
    requires
        forall|i: int| 0 <= i < data.len() ==> !is_break(#[trigger] data[i]),
    ensures
        scan(done, pending, data) == (done, pending + data),
    decreases data.len(),
{
    if data.len() == 0 {
        assert(pending + data =~= pending);
    } else {
        assert(!is_break(data[0]));
        let rest = data.drop_first();
        assert forall|i: int| 0 <= i < rest.len() implies !is_break(#[trigger] rest[i]) by {
            assert(rest[i] == data[i + 1]);
        }
        lemma_no_break_stays_pending(done, pending.push(data[0]), rest);
        assert(pending.push(data[0]) + rest =~= pending + data);
    }
}

/// A stream whose last byte is not a line break leaves a non-empty unfinished line,
/// which `finish` hands out as the one last line.
pub proof fn lemma_unterminated_tail_flushed(done: Seq<Seq<u8>>, pending: Seq<u8>, data: Seq<u8>)
    requires
        data.len() > 0,
        !is_break(data.last()),
    ensures
        scan(done, pending, data).1.len() > 0,
    decreases data.len(),
{
    if data.len() > 1 {
        let rest = data.drop_first();
        assert(rest.last() == data.last());
        if is_break(data[0]) {
            let d = if pending.len() > 0 {
                done.push(pending)
            } else {
                done
            };
            lemma_unterminated_tail_flushed(d, Seq::empty(), rest);
        } else {
            lemma_unterminated_tail_flushed(done, pending.push(data[0]), rest);
        }
    } else {
        assert(data.drop_first() =~= Seq::<u8>::empty());
        assert(!is_break(data[0]));
        assert(scan(done, pending.push(data[0]), data.drop_first()) == (
            done,
            pending.push(data[0]),
        ));
    }
}

/// Fed to a fresh splitter, bytes without any line break come back whole, as the single
/// line that ends the stream.
pub proof fn lemma_fresh_stream_without_break(data: Seq<u8>)
    requires
        forall|i: int| 0 <= i < data.len() ==> !is_break(#[trigger] data[i]),
    ensures
        scan(Seq::empty(), Seq::empty(), data).0 == Seq::<Seq<u8>>::empty(),
        scan(Seq::empty(), Seq::empty(), data).1 == data,
{
    lemma_no_break_stays_pending(Seq::empty(), Seq::empty(), data);
    assert(Seq::<u8>::empty() + data =~= data);
}

} // verus!
