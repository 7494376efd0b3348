//! The segmentation layer: carrying one APDU exchange over fixed-size HID
//! reports.
//!
//! The writer side turns a command into the exact list of reports to put on
//! the wire ([`fragment`], [`command_reports`]). The reader side is a state
//! machine ([`ApduReader`]) that the embedding application feeds one report
//! at a time until the announced answer length has been reassembled. The
//! application owns the device handle and performs the blocking writes and
//! reads; everything it decides with is specified and verified here.

use vstd::prelude::*;
use crate::apdu::{be16, spec_serialize, APDUCommand};
use crate::constant::LEDGER_TAG;
use crate::error::TransportError;

verus! {

/// Bytes of the header of an outgoing report: one pad byte, two channel
/// bytes, the tag, and two sequence bytes.
pub const WRITE_HEADER_SIZE: usize = 6;

/// Total size of one outgoing report.
pub const WRITE_REPORT_SIZE: usize = 65;

/// Body bytes carried by one report: the outgoing report size less its
/// header.
pub const CHUNK_CAPACITY: usize = 59;

/// The high byte of a 16-bit big-endian value.
pub open spec fn hi8(x: int) -> u8 {
    (x / 256) as u8
}

/// The low byte of a 16-bit big-endian value.
pub open spec fn lo8(x: int) -> u8 {
    (x % 256) as u8
}

/// The framed body of an exchange: the APDU bytes behind their 16-bit
/// big-endian length.
pub open spec fn framed(apdu: Seq<u8>) -> Seq<u8> {
    seq![hi8(apdu.len() as int), lo8(apdu.len() as int)] + apdu
}

/// How many reports a body of the given length occupies. An empty body
/// still takes one report; a body that is an exact multiple of the chunk
/// capacity produces no trailing empty report.
pub open spec fn num_reports(body_len: int) -> int {
    if body_len == 0 {
        1
    } else {
        (body_len + CHUNK_CAPACITY - 1) / (CHUNK_CAPACITY as int)
    }
}

/// The slice of the body that report `i` carries.
pub open spec fn report_chunk(body: Seq<u8>, i: int) -> Seq<u8> {
    let start = CHUNK_CAPACITY * i;
    let end = if CHUNK_CAPACITY * (i + 1) <= body.len() {
        CHUNK_CAPACITY * (i + 1)
    } else {
        body.len() as int
    };
    body.subrange(start, end)
}

/// `s` extended with zero bytes to length `n`.
pub open spec fn zero_padded(s: Seq<u8>, n: int) -> Seq<u8> {
    s + Seq::new((n - s.len()) as nat, |j: int| 0u8)
}

/// The bytes of outgoing report `i` for the given body: the zero pad byte,
/// the channel and sequence index in big-endian order around the fixed tag,
/// then the body chunk, zero-padded to the report size.
pub open spec fn write_report(channel: u16, body: Seq<u8>, i: int) -> Seq<u8> {
    zero_padded(
        seq![
            0u8,
            hi8(channel as int),
            lo8(channel as int),
            LEDGER_TAG,
            hi8(i),
            lo8(i),
        ] + report_chunk(body, i),
        WRITE_REPORT_SIZE as int,
    )
}

/// Split a length-prefixed command into wire-ready reports.
///
/// The result holds, in sequence order, every report of the exchange, each
/// exactly [`WRITE_REPORT_SIZE`] bytes.
pub fn fragment(channel: u16, apdu: &Vec<u8>) -> (reports: Vec<Vec<u8>>)
    requires
        apdu@.len() <= 0xFFFF,
    ensures
        reports@.len() == num_reports(framed(apdu@).len() as int),
        forall|i: int|
            0 <= i < reports@.len() ==> #[trigger] reports@[i]@ == write_report(
                channel,
                framed(apdu@),
                i,
            ),
{
    let len = apdu.len();
    let mut body: Vec<u8> = Vec::new();
    body.push((len / 256) as u8);
    body.push((len % 256) as u8);
    let mut i: usize = 0;
    while i < apdu.len()
        invariant
            i <= apdu@.len(),
            apdu@.len() <= 0xFFFF,
            len == apdu@.len(),
            body@ == seq![hi8(apdu@.len() as int), lo8(apdu@.len() as int)] + apdu@.take(i as int),
        decreases apdu@.len() - i,
    {
        body.push(apdu[i]);
        assert(apdu@.take(i + 1) == apdu@.take(i as int).push(apdu@[i as int]));
        i = i + 1;
    }
    assert(apdu@.take(apdu@.len() as int) == apdu@);
    assert(body@ == framed(apdu@));

    let total: usize = (body.len() + (CHUNK_CAPACITY - 1)) / CHUNK_CAPACITY;
    assert(total == num_reports(body@.len() as int));

    let mut reports: Vec<Vec<u8>> = Vec::new();
    let mut seq_idx: usize = 0;
    while seq_idx < total
        invariant
            seq_idx <= total,
            body@ == framed(apdu@),
            2 <= body@.len() <= 0x10001,
            total == num_reports(body@.len() as int),
            total <= 0x1200,
            reports@.len() == seq_idx,
            forall|k: int|
                0 <= k < seq_idx ==> #[trigger] reports@[k]@ == write_report(channel, body@, k),
        decreases total - seq_idx,
    {
        let mut rep: Vec<u8> = Vec::new();
        rep.push(0u8);
        rep.push((channel / 256) as u8);
        rep.push((channel % 256) as u8);
        rep.push(LEDGER_TAG);
        rep.push((seq_idx / 256) as u8);
        rep.push((seq_idx % 256) as u8);
        assert(rep@ == seq![
            0u8,
            hi8(channel as int),
            lo8(channel as int),
            LEDGER_TAG,
            hi8(seq_idx as int),
            lo8(seq_idx as int),
        ]);
        let start = seq_idx * CHUNK_CAPACITY;
        assert(start < body@.len());
        let end = if start + CHUNK_CAPACITY <= body.len() {
            start + CHUNK_CAPACITY
        } else {
            body.len()
        };
        let ghost header = rep@;
        let mut j: usize = start;
        while j < end
            invariant
                start <= j <= end,
                end <= body@.len(),
                end - start <= CHUNK_CAPACITY,
                rep@ == header + body@.subrange(start as int, j as int),
                header.len() == WRITE_HEADER_SIZE,
            decreases end - j,
        {
            rep.push(body[j]);
            assert(body@.subrange(start as int, j + 1) == body@.subrange(
                start as int,
                j as int,
            ).push(body@[j as int]));
            j = j + 1;
        }
        while rep.len() < WRITE_REPORT_SIZE
            invariant
                rep@.len() >= header.len() + (end - start),
                rep@.len() <= WRITE_REPORT_SIZE,
                rep@ == zero_padded(header + body@.subrange(start as int, end as int), rep@.len() as int),
            decreases WRITE_REPORT_SIZE - rep@.len(),
        {
            let ghost before = rep@;
            rep.push(0u8);
            assert(rep@ == zero_padded(
                header + body@.subrange(start as int, end as int),
                rep@.len() as int,
            )) by {
                assert(rep@ =~= zero_padded(
                    header + body@.subrange(start as int, end as int),
                    before.len() as int + 1,
                ));
            }
        }
        assert(rep@ == write_report(channel, body@, seq_idx as int)) by {
            assert(body@.subrange(start as int, end as int) == report_chunk(body@, seq_idx as int));
        }
        reports.push(rep);
        seq_idx = seq_idx + 1;
    }
    reports
}

/// Whether the device handle accepted one whole report.
///
/// A short write is a fatal communication error, not a retry condition.
pub fn check_write(written: usize, report_len: usize) -> (r: Result<(), TransportError>)
    ensures
        written < report_len <==> r == Err::<(), TransportError>(TransportError::ShortWrite),
        written >= report_len <==> r == Ok::<(), TransportError>(()),
{
    if written < report_len {
        Err(TransportError::ShortWrite)
    } else {
        Ok(())
    }
}

/// Serialize a command and split it into wire-ready reports.
///
/// A payload longer than the one-byte length field allows is rejected with
/// [`TransportError::PayloadTooLong`]; every payload of 0 to 255 bytes is
/// accepted.
pub fn command_reports(channel: u16, command: &APDUCommand) -> (r: Result<
    Vec<Vec<u8>>,
    TransportError,
>)
    ensures
        command.data@.len() > 255 ==> r == Err::<Vec<Vec<u8>>, TransportError>(
            TransportError::PayloadTooLong,
        ),
        command.data@.len() <= 255 ==> (r matches Ok(reports) && ({
            let body = framed(
                spec_serialize(command.cla, command.ins, command.p1, command.p2, command.data@),
            );
            &&& reports@.len() == num_reports(body.len() as int)
            &&& forall|i: int|
                0 <= i < reports@.len() ==> #[trigger] reports@[i]@ == write_report(
                    channel,
                    body,
                    i,
                )
        })),
{
    if command.data.len() > 255 {
        return Err(TransportError::PayloadTooLong);
    }
    let bytes = command.serialize();
    Ok(fragment(channel, &bytes))
}

/// The reader's state, as the contracts of [`ApduReader`] speak of it.
#[verifier::ext_equal]
pub ghost struct ReaderModel {
    /// The channel id that every report of the exchange must bear.
    pub channel: u16,
    /// The sequence index the next report must bear.
    pub sequence: int,
    /// The total answer length announced in the first report; 0 before it.
    pub expected: int,
    /// The answer bytes reassembled so far.
    pub acc: Seq<u8>,
    /// Whether the announced length has been reached.
    pub done: bool,
}

/// The reader's state before any report has arrived.
pub open spec fn reader_init(channel: u16) -> ReaderModel {
    ReaderModel { channel, sequence: 0, expected: 0, acc: Seq::empty(), done: false }
}

/// What one report does to the reader's state.
///
/// The header is validated first: a report too short for the header of its
/// position, a foreign channel id, a foreign tag, or a sequence index other
/// than the expected counter each reject the report, fatally and without
/// changing the state. The first report announces the total answer length;
/// every report then contributes as many of its remaining bytes as are still
/// missing, and the exchange is done the instant the announced length is
/// reached, trailing bytes ignored.
pub open spec fn feed_step(s: ReaderModel, r: Seq<u8>) -> Result<ReaderModel, TransportError> {
    let header_len: int = if s.sequence == 0 {
        7
    } else {
        5
    };
    if r.len() < header_len {
        Err(TransportError::IncompleteHeader)
    } else if be16(r[0], r[1]) != s.channel {
        Err(TransportError::InvalidChannel)
    } else if r[2] != LEDGER_TAG {
        Err(TransportError::InvalidTag)
    } else if be16(r[3], r[4]) != s.sequence {
        Err(TransportError::InvalidSequence)
    } else {
        let expected: int = if s.sequence == 0 {
            be16(r[5], r[6])
        } else {
            s.expected
        };
        let missing: int = if expected >= s.acc.len() {
            expected - s.acc.len()
        } else {
            0
        };
        let available: int = r.len() - header_len;
        let copied: int = if available <= missing {
            available
        } else {
            missing
        };
        let acc = s.acc + r.subrange(header_len, header_len + copied);
        if acc.len() >= expected {
            Ok(ReaderModel { channel: s.channel, sequence: s.sequence, expected, acc, done: true })
        } else {
            Ok(
                ReaderModel {
                    channel: s.channel,
                    sequence: s.sequence + 1,
                    expected,
                    acc,
                    done: false,
                },
            )
        }
    }
}

/// What holds of the reader's state between reports.
pub open spec fn reader_inv(s: ReaderModel) -> bool {
    &&& 0 <= s.sequence <= 0x10000
    &&& 0 <= s.expected <= 0xFFFF
    &&& s.acc.len() <= s.expected
    &&& s.done ==> s.acc.len() == s.expected
    &&& (!s.done && s.sequence > 0) ==> s.acc.len() < s.expected
    &&& (!s.done && s.sequence == 0) ==> (s.acc.len() == 0 && s.expected == 0)
}

/// An accepted report keeps the reader's state well formed.
pub proof fn lemma_feed_step_inv(s: ReaderModel, r: Seq<u8>)
    requires
        reader_inv(s),
        !s.done,
        feed_step(s, r) is Ok,
    ensures
        reader_inv(feed_step(s, r)->Ok_0),
{
}

/// What the reader tells the embedding application after a report.
#[derive(Clone, Copy, Debug, PartialEq, Eq, Structural)]
pub enum ReadStep {
    /// The announced length has not been reached: read one more report.
    More,
    /// The answer is complete: take it with [`ApduReader::answer`].
    Done,
}

/// The reassembly state machine of one exchange.
///
/// The embedding application performs the blocking reads: it asks the device
/// for one report at a time and hands each to [`ApduReader::feed`] until that
/// returns [`ReadStep::Done`] or an error. Every decision taken with the
/// report bytes is made here.
pub struct ApduReader {
    channel: u16,
    sequence: usize,
    expected: usize,
    acc: Vec<u8>,
    done: bool,
}

impl View for ApduReader {
    type V = ReaderModel;

    closed spec fn view(&self) -> ReaderModel {
        ReaderModel {
            channel: self.channel,
            sequence: self.sequence as int,
            expected: self.expected as int,
            acc: self.acc@,
            done: self.done,
        }
    }
}

impl ApduReader {
    /// A reader awaiting the first report of an exchange on `channel`.
    pub fn new(channel: u16) -> (r: ApduReader)
        ensures
            r@ == reader_init(channel),
            reader_inv(r@),
    {
        let r = ApduReader { channel, sequence: 0, expected: 0, acc: Vec::new(), done: false };
        proof {
            assert(r@ =~= reader_init(channel));
        }
        r
    }

    /// Consume one report, exactly as [`feed_step`] says: a rejected report
    /// is a fatal error and leaves the state unchanged; an accepted one
    /// advances the reassembly and reports whether the answer is complete.
    pub fn feed(&mut self, report: &[u8]) -> (r: Result<ReadStep, TransportError>)
        requires
            reader_inv(old(self)@),
            !old(self)@.done,
        ensures
            reader_inv(final(self)@),
            (match feed_step(old(self)@, report@) {
                Ok(m) => final(self)@ == m && r == Ok::<ReadStep, TransportError>(
                    if m.done {
                        ReadStep::Done
                    } else {
                        ReadStep::More
                    },
                ),
                Err(e) => final(self)@ == old(self)@ && r == Err::<ReadStep, TransportError>(e),
            }),
    {
        let header_len: usize = if self.sequence == 0 {
            7
        } else {
            5
        };
        if report.len() < header_len {
            return Err(TransportError::IncompleteHeader);
        }
        let rcv_channel: u16 = (report[0] as u16) * 256 + (report[1] as u16);
        if rcv_channel != self.channel {
            return Err(TransportError::InvalidChannel);
        }
        if report[2] != LEDGER_TAG {
            return Err(TransportError::InvalidTag);
        }
        let rcv_seq: u16 = (report[3] as u16) * 256 + (report[4] as u16);
        if rcv_seq as usize != self.sequence {
            return Err(TransportError::InvalidSequence);
        }
        if self.sequence == 0 {
            self.expected = ((report[5] as u16) * 256 + (report[6] as u16)) as usize;
        }
        let available: usize = report.len() - header_len;
        let missing: usize = self.expected - self.acc.len();
        let copied: usize = if available <= missing {
            available
        } else {
            missing
        };
        let ghost s1 = self@;
        let ghost acc0 = self.acc@;
        let mut j: usize = 0;
        while j < copied
            invariant
                j <= copied,
                header_len + copied <= report@.len(),
                report@.len() <= usize::MAX,
                self@ == (ReaderModel {
                    acc: acc0 + report@.subrange(header_len as int, header_len + j),
                    ..s1
                }),
            decreases copied - j,
        {
            self.acc.push(report[header_len + j]);
            assert(report@.subrange(header_len as int, header_len + j + 1) == report@.subrange(
                header_len as int,
                header_len + j,
            ).push(report@[header_len + j]));
            assert(self@ =~= (ReaderModel {
                acc: acc0 + report@.subrange(header_len as int, header_len + j + 1),
                ..s1
            }));
            j = j + 1;
        }
        proof {
            lemma_feed_step_inv(old(self)@, report@);
        }
        if self.acc.len() >= self.expected {
            self.done = true;
            proof {
                assert(self@ =~= feed_step(old(self)@, report@)->Ok_0);
            }
            Ok(ReadStep::Done)
        } else {
            self.sequence = self.sequence + 1;
            proof {
                assert(self@ =~= feed_step(old(self)@, report@)->Ok_0);
            }
            Ok(ReadStep::More)
        }
    }

    /// Whether the announced answer length has been reached.
    pub fn is_done(&self) -> (r: bool)
        ensures
            r == self@.done,
    {
        self.done
    }

    /// The reassembled answer of a completed exchange.
    pub fn answer(self) -> (r: Vec<u8>)
        requires
            self@.done,
        ensures
            r@ == self@.acc,
    {
        self.acc
    }
}

/// The state a fresh reader reaches after the given reports, in order: it
/// stops at the first rejected report, and ignores reports after the answer
/// is complete.
pub open spec fn run_reader(s: ReaderModel, reports: Seq<Seq<u8>>) -> Result<
    ReaderModel,
    TransportError,
>
    decreases reports.len(),
{
    if s.done || reports.len() == 0 {
        Ok(s)
    } else {
        match feed_step(s, reports[0]) {
            Ok(s2) => run_reader(s2, reports.skip(1)),
            Err(e) => Err(e),
        }
    }
}

/// Reassemble an answer from the given reports, exactly as [`run_reader`]
/// says: the answer once the announced length is reached, `None` when the
/// reports run out first, and the first protocol violation otherwise.
pub fn reassemble(channel: u16, reports: &Vec<Vec<u8>>) -> (r: Result<
    Option<Vec<u8>>,
    TransportError,
>)
    ensures
        (match run_reader(reader_init(channel), reports@.map_values(|v: Vec<u8>| v@)) {
            Ok(m) => if m.done {
                r matches Ok(a) && a matches Some(v) && v@ == m.acc
            } else {
                r == Ok::<Option<Vec<u8>>, TransportError>(None)
            },
            Err(e) => r == Err::<Option<Vec<u8>>, TransportError>(e),
        }),
{
    let ghost rs = reports@.map_values(|v: Vec<u8>| v@);
    let mut reader = ApduReader::new(channel);
    let mut i: usize = 0;
    proof {
        assert(rs.skip(0) =~= rs);
    }
    while i < reports.len()
        invariant
            i <= reports@.len(),
            rs == reports@.map_values(|v: Vec<u8>| v@),
            rs.len() == reports@.len(),
            reader_inv(reader@),
            !reader@.done,
            run_reader(reader_init(channel), rs) == run_reader(reader@, rs.skip(i as int)),
        decreases reports@.len() - i,
    {
        let ghost before = reader@;
        let step = reader.feed(reports[i].as_slice());
        proof {
            assert(rs.skip(i as int)[0] == rs[i as int]);
            assert(rs[i as int] == reports@[i as int]@);
            assert(rs.skip(i as int).skip(1) =~= rs.skip(i + 1));
            if step is Ok {
                assert(run_reader(before, rs.skip(i as int)) == run_reader(reader@, rs.skip(i + 1)));
                if reader@.done {
                    assert(run_reader(reader@, rs.skip(i + 1)) == Ok::<ReaderModel, TransportError>(
                        reader@,
                    ));
                }
            }
        }
        match step {
            Err(e) => {
                return Err(e);
            },
            Ok(ReadStep::Done) => {
                return Ok(Some(reader.answer()));
            },
            Ok(ReadStep::More) => {
                i = i + 1;
            },
        }
    }
    proof {
        assert(rs.skip(i as int) =~= Seq::<Seq<u8>>::empty());
    }
    Ok(None)
}

/// The reports of an exchange as the reader sees them: each written report
/// without its leading pad byte, in sequence order.
pub open spec fn wire_reports(channel: u16, body: Seq<u8>) -> Seq<Seq<u8>> {
    Seq::new(
        num_reports(body.len() as int) as nat,
        |i: int| write_report(channel, body, i).skip(1),
    )
}

/// The reader's state once the first `i` reports of the exchange for `apdu`
/// have been fed, for `i` at least 1: the announced length is known, the
/// first `59 i - 2` APDU bytes (all of them, if fewer) have been
/// accumulated, and the exchange is done exactly when that is all of them.
spec fn mid_state(channel: u16, apdu: Seq<u8>, i: int) -> ReaderModel {
    let l = apdu.len() as int;
    let filled = if CHUNK_CAPACITY * i - 2 <= l {
        CHUNK_CAPACITY * i - 2
    } else {
        l
    };
    ReaderModel {
        channel,
        sequence: if filled >= l {
            i - 1
        } else {
            i
        },
        expected: l,
        acc: apdu.take(filled),
        done: filled >= l,
    }
}

/// The first report announces the length and contributes the first chunk.
proof fn lemma_first_step(channel: u16, apdu: Seq<u8>)
    requires
        apdu.len() <= 0xFFFF,
    ensures
        feed_step(reader_init(channel), write_report(channel, framed(apdu), 0).skip(1)) == Ok::<
            ReaderModel,
            TransportError,
        >(mid_state(channel, apdu, 1)),
{
    let l = apdu.len() as int;
    let body = framed(apdu);
    let r = write_report(channel, body, 0).skip(1);
    let chunk = report_chunk(body, 0);
    assert(r.len() == 64);
    assert(forall|j: int|
        0 <= j < 64 ==> r[j] == write_report(channel, body, 0)[j + 1]);
    assert(be16(r[0], r[1]) == channel) by {
        assert(r[0] == hi8(channel as int));
        assert(r[1] == lo8(channel as int));
    };
    assert(r[2] == LEDGER_TAG);
    assert(be16(r[3], r[4]) == 0) by {
        assert(r[3] == hi8(0));
        assert(r[4] == lo8(0));
    };
    assert(chunk.len() >= 2);
    assert(be16(r[5], r[6]) == l) by {
        assert(r[5] == chunk[0] && chunk[0] == body[0] && body[0] == hi8(l));
        assert(r[6] == chunk[1] && chunk[1] == body[1] && body[1] == lo8(l));
    };
    let copied: int = if 57 <= l {
        57
    } else {
        l
    };
    assert(chunk.len() == (if body.len() >= 59 { 59int } else { body.len() as int }));
    assert(forall|j: int| 0 <= j < copied ==> r[7 + j] == chunk[2 + j] && chunk[2 + j] == apdu[j]);
    let s = feed_step(reader_init(channel), r);
    assert(s is Ok);
    assert(r.subrange(7, 7 + copied) =~= apdu.take(copied));
    assert(Seq::empty().add(r.subrange(7, 7 + copied)) =~= apdu.take(copied));
    assert(s->Ok_0 =~= mid_state(channel, apdu, 1));
}

/// Report `i` of an unfinished exchange contributes its whole chunk.
proof fn lemma_next_step(channel: u16, apdu: Seq<u8>, i: int)
    requires
        apdu.len() <= 0xFFFF,
        1 <= i,
        !mid_state(channel, apdu, i).done,
    ensures
        feed_step(mid_state(channel, apdu, i), write_report(channel, framed(apdu), i).skip(1))
            == Ok::<ReaderModel, TransportError>(mid_state(channel, apdu, i + 1)),
{
    let l = apdu.len() as int;
    let body = framed(apdu);
    let s = mid_state(channel, apdu, i);
    assert(59 * i - 2 < l);
    assert(i <= 1111);
    let r = write_report(channel, body, i).skip(1);
    let chunk = report_chunk(body, i);
    assert(r.len() == 64);
    assert(forall|j: int|
        0 <= j < 64 ==> r[j] == write_report(channel, body, i)[j + 1]);
    assert(be16(r[0], r[1]) == channel) by {
        assert(r[0] == hi8(channel as int));
        assert(r[1] == lo8(channel as int));
    };
    assert(r[2] == LEDGER_TAG);
    assert(be16(r[3], r[4]) == i) by {
        assert(r[3] == hi8(i));
        assert(r[4] == lo8(i));
    };
    let missing = l - (59 * i - 2);
    let copied: int = if 59 <= missing {
        59
    } else {
        missing
    };
    assert(chunk.len() == copied);
    assert(forall|j: int|
        0 <= j < copied ==> r[5 + j] == chunk[j] && chunk[j] == body[59 * i + j] && body[59 * i + j]
            == apdu[59 * i - 2 + j]);
    let t = feed_step(s, r);
    assert(t is Ok);
    let filled2 = if 59 * (i + 1) - 2 <= l {
        59 * (i + 1) - 2
    } else {
        l
    };
    assert(s.acc + r.subrange(5, 5 + copied) =~= apdu.take(filled2));
    assert(t->Ok_0 =~= mid_state(channel, apdu, i + 1));
}

/// Running the reader over the remaining reports finishes the exchange.
proof fn lemma_run_from(channel: u16, apdu: Seq<u8>, i: int)
    requires
        apdu.len() <= 0xFFFF,
        1 <= i <= num_reports(framed(apdu).len() as int),
    ensures
        run_reader(mid_state(channel, apdu, i), wire_reports(channel, framed(apdu)).skip(i))
            == Ok::<ReaderModel, TransportError>(
            mid_state(channel, apdu, num_reports(framed(apdu).len() as int)),
        ),
    decreases num_reports(framed(apdu).len() as int) - i,
{
    let l = apdu.len() as int;
    let body = framed(apdu);
    let n = num_reports(body.len() as int);
    let ws = wire_reports(channel, body);
    assert(59 * n >= l + 2);
    if i == n {
        assert(mid_state(channel, apdu, i).done);
    } else {
        assert(59 * i < l + 2);
        assert(!mid_state(channel, apdu, i).done);
        assert(ws.skip(i).len() == n - i);
        assert(ws.skip(i)[0] == ws[i]);
        lemma_next_step(channel, apdu, i);
        assert(ws.skip(i).skip(1) =~= ws.skip(i + 1));
        lemma_run_from(channel, apdu, i + 1);
    }
}

/// Law: segmentation round trip. For any APDU of at most 0xFFFF bytes,
/// fragmenting its framed body and feeding the resulting reports, each
/// without its leading pad byte, to a fresh reader on the same channel
/// accepts every report, reaches the announced length on the last one, and
/// reassembles exactly the APDU bytes that were fragmented.
pub proof fn lemma_segmentation_round_trip(channel: u16, apdu: Seq<u8>)
    requires
        apdu.len() <= 0xFFFF,
    ensures
        ({
            let r = run_reader(reader_init(channel), wire_reports(channel, framed(apdu)));
            &&& r is Ok
            &&& r->Ok_0.done
            &&& r->Ok_0.acc == apdu
            &&& r->Ok_0.expected == apdu.len()
        }),
{
    let l = apdu.len() as int;
    let body = framed(apdu);
    let n = num_reports(body.len() as int);
    let ws = wire_reports(channel, body);
    assert(n >= 1);
    assert(ws[0] == write_report(channel, body, 0).skip(1));
    lemma_first_step(channel, apdu);
    lemma_run_from(channel, apdu, 1);
    assert(run_reader(reader_init(channel), ws) == run_reader(mid_state(channel, apdu, 1), ws.skip(1)));
    assert(59 * n >= l + 2);
    assert(mid_state(channel, apdu, n).done);
    assert(mid_state(channel, apdu, n).acc =~= apdu);
}

} // verus!

