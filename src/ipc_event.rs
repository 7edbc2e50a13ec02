use vstd::prelude::*;
use vstd::string::*;
use vstd::utf8::*;

use crate::{HEART_BEAT_INTERVAL, IPC_DATA_SIZE};

verus! {

broadcast use vstd::seq::group_seq_axioms;

/// The wire message exchanged between the shell and the terminal.
///
/// Byte-carrying variants hold a fixed `IPC_DATA_SIZE` buffer and the count of
/// meaningful bytes in it; bytes past that count carry no meaning.
#[derive(Debug, Clone, Copy, PartialEq, Eq)]
pub enum IpcEvent {
    HeartBeat,
    Ready,
    Exit,
    RequestExit,
    /// (Cols, Rows)
    SetTerminalSize(i32, i32),
    TerminalVersion([u8; IPC_DATA_SIZE], usize),
    HostNameChanged([u8; IPC_DATA_SIZE], usize),
    SendData([u8; IPC_DATA_SIZE], usize),
}

/// The first `len` bytes of a payload buffer.
pub open spec fn prefix_of(data: [u8; IPC_DATA_SIZE], len: usize) -> Seq<u8> {
    data@.subrange(0, len as int)
}

impl IpcEvent {
    /// The meaningful bytes of a byte-carrying event (empty for the others).
    pub open spec fn payload(self) -> Seq<u8> {
        match self {
            IpcEvent::TerminalVersion(d, n) => prefix_of(d, n),
            IpcEvent::HostNameChanged(d, n) => prefix_of(d, n),
            IpcEvent::SendData(d, n) => prefix_of(d, n),
            _ => Seq::empty(),
        }
    }

    /// The variant carries a byte payload.
    pub open spec fn carries_bytes(self) -> bool {
        ||| self is TerminalVersion
        ||| self is HostNameChanged
        ||| self is SendData
    }

    /// The declared payload length is within the buffer.
    pub open spec fn well_formed(self) -> bool {
        match self {
            IpcEvent::TerminalVersion(_, n) => n <= IPC_DATA_SIZE,
            IpcEvent::HostNameChanged(_, n) => n <= IPC_DATA_SIZE,
            IpcEvent::SendData(_, n) => n <= IPC_DATA_SIZE,
            _ => true,
        }
    }
}

/// Walks `end` backwards until it lands on a character boundary of `bytes`
/// (or reaches zero).
pub open spec fn back_to_boundary(bytes: Seq<u8>, end: int) -> int
    decreases end,
{
    if end <= 0 || is_char_boundary(bytes, end) {
        end
    } else {
        back_to_boundary(bytes, end - 1)
    }
}

/// Length of the first chunk cut from `bytes`: at most `cap` bytes, moved back
/// onto a character boundary.
pub open spec fn first_cut(bytes: Seq<u8>, cap: int) -> int {
    back_to_boundary(bytes, if cap < bytes.len() { cap } else { bytes.len() as int })
}

/// The greedy split of `bytes` into runs of at most `cap` bytes, each ending on
/// a character boundary, in left-to-right order.
pub open spec fn utf8_chunks(bytes: Seq<u8>, cap: int) -> Seq<Seq<u8>>
    decreases bytes.len(),
{
    let cut = first_cut(bytes, cap);
    if bytes.len() == 0 || cut <= 0 || cut > bytes.len() {
        Seq::empty()
    } else {
        seq![bytes.subrange(0, cut)] + utf8_chunks(bytes.subrange(cut, bytes.len() as int), cap)
    }
}

/// The characters obtained by decoding each chunk and concatenating in order.
pub open spec fn decode_chunks(chunks: Seq<Seq<u8>>) -> Seq<char>
    decreases chunks.len(),
{
    if chunks.len() == 0 {
        Seq::empty()
    } else {
        decode_utf8(chunks[0]) + decode_chunks(chunks.drop_first())
    }
}

proof fn lemma_back_to_boundary(bytes: Seq<u8>, end: int, k: int)
    requires
        0 < k <= end,
        is_char_boundary(bytes, k),
    ensures
        k <= back_to_boundary(bytes, end) <= end,
        is_char_boundary(bytes, back_to_boundary(bytes, end)),
    decreases end,
{
    if end > k && !is_char_boundary(bytes, end) {
        lemma_back_to_boundary(bytes, end - 1, k);
    }
}

proof fn lemma_first_scalar_boundary(bytes: Seq<u8>)
    requires
        valid_utf8(bytes),
        bytes.len() > 0,
    ensures
        1 <= length_of_first_scalar(bytes) <= 4,
        length_of_first_scalar(bytes) <= bytes.len(),
        is_char_boundary(bytes, length_of_first_scalar(bytes)),
{
    let k = length_of_first_scalar(bytes);
    assert(is_char_boundary(pop_first_scalar(bytes), 0));
}

/// With room for at least four bytes the first cut always makes progress and
/// ends on a character boundary.
proof fn lemma_first_cut(bytes: Seq<u8>, cap: int)
    requires
        valid_utf8(bytes),
        bytes.len() > 0,
        cap >= 4,
    ensures
        0 < first_cut(bytes, cap) <= bytes.len(),
        first_cut(bytes, cap) <= cap,
        is_char_boundary(bytes, first_cut(bytes, cap)),
{
    lemma_first_scalar_boundary(bytes);
    let m = if cap < bytes.len() { cap } else { bytes.len() as int };
    lemma_back_to_boundary(bytes, m, length_of_first_scalar(bytes));
}

/// A boundary of the suffix starting at a boundary is a boundary of the whole.
proof fn lemma_boundary_shift(bytes: Seq<u8>, start: int, j: int)
    requires
        valid_utf8(bytes),
        0 <= start <= bytes.len(),
        is_char_boundary(bytes, start),
        0 <= j <= bytes.len() - start,
    ensures
        valid_utf8(bytes.subrange(start, bytes.len() as int)),
        is_char_boundary(bytes, start + j) == is_char_boundary(
            bytes.subrange(start, bytes.len() as int),
            j,
        ),
{
    let sub = bytes.subrange(start, bytes.len() as int);
    valid_utf8_split(bytes, start);
    is_char_boundary_start_end_of_seq(bytes);
    is_char_boundary_start_end_of_seq(sub);
    if 0 < j < sub.len() {
        is_char_boundary_iff_not_is_continuation_byte(sub, j);
        is_char_boundary_iff_not_is_continuation_byte(bytes, start + j);
    }
}

proof fn lemma_chunks_valid(bytes: Seq<u8>, cap: int)
    requires
        valid_utf8(bytes),
        cap >= 4,
    ensures
        utf8_chunks(bytes, cap).flatten() == bytes,
        decode_chunks(utf8_chunks(bytes, cap)) == decode_utf8(bytes),
        forall|i: int|
            0 <= i < utf8_chunks(bytes, cap).len() ==> {
                let c = #[trigger] utf8_chunks(bytes, cap)[i];
                &&& 0 < c.len() <= cap
                &&& valid_utf8(c)
            },
    decreases bytes.len(),
{
    let cs = utf8_chunks(bytes, cap);
    if bytes.len() == 0 {
        assert(cs.flatten() =~= bytes);
    } else {
        lemma_first_cut(bytes, cap);
        let cut = first_cut(bytes, cap);
        let head = bytes.subrange(0, cut);
        let tail = bytes.subrange(cut, bytes.len() as int);
        valid_utf8_split(bytes, cut);
        decode_utf8_split(bytes, cut);
        lemma_chunks_valid(tail, cap);
        let rest = utf8_chunks(tail, cap);
        assert(cs == seq![head] + rest);
        assert(cs.drop_first() =~= rest);
        assert(cs.flatten() == head + rest.flatten());
        assert(head + tail =~= bytes);
        assert forall|i: int| 0 <= i < cs.len() implies {
            let c = #[trigger] cs[i];
            &&& 0 < c.len() <= cap
            &&& valid_utf8(c)
        } by {
            if i > 0 {
                assert(cs[i] == rest[i - 1]);
            }
        }
    }
}

/// Chunking is lossless: for any text and any capacity of at least four bytes,
/// the chunks concatenate back to the text's bytes, decoding them one by one
/// and concatenating gives back the text, every chunk holds between one and
/// `cap` bytes, and every chunk is valid UTF-8 on its own (no cut falls inside
/// a character).
pub proof fn lemma_chunking_round_trip(s: Seq<char>, cap: int)
    requires
        cap >= 4,
    ensures
        utf8_chunks(encode_utf8(s), cap).flatten() == encode_utf8(s),
        decode_chunks(utf8_chunks(encode_utf8(s), cap)) == s,
        forall|i: int|
            0 <= i < utf8_chunks(encode_utf8(s), cap).len() ==> {
                let c = #[trigger] utf8_chunks(encode_utf8(s), cap)[i];
                &&& 0 < c.len() <= cap
                &&& valid_utf8(c)
            },
{
    encode_utf8_valid_utf8(s);
    encode_utf8_decode_utf8(s);
    lemma_chunks_valid(encode_utf8(s), cap);
}

proof fn lemma_ascii_chunks(bytes: Seq<u8>, cap: int)
    requires
        forall|i: int| 0 <= i < bytes.len() ==> #[trigger] bytes[i] <= 0x7f,
        cap >= 1,
    ensures
        utf8_chunks(bytes, cap).len() == (bytes.len() + cap - 1) / cap,
        forall|i: int|
            0 <= i < utf8_chunks(bytes, cap).len() ==> #[trigger] utf8_chunks(bytes, cap)[i]
                == bytes.subrange(
                i * cap,
                if (i + 1) * cap < bytes.len() {
                    (i + 1) * cap
                } else {
                    bytes.len() as int
                },
            ),
    decreases bytes.len(),
{
    let n = bytes.len() as int;
    let cs = utf8_chunks(bytes, cap);
    if n == 0 {
        vstd::arithmetic::div_mod::lemma_basic_div(cap - 1, cap);
    } else {
        assert(partial_valid_utf8(bytes, 0)) by {
            assert(bytes.subrange(0, 0) =~= Seq::<u8>::empty());
        }
        partial_valid_utf8_extend_ascii_block(bytes, 0, n);
        assert(bytes.subrange(0, n) =~= bytes);
        let m = if cap < n { cap } else { n };
        is_char_boundary_start_end_of_seq(bytes);
        if m < n {
            is_char_boundary_iff_is_leading_byte(bytes, m);
        }
        assert(first_cut(bytes, cap) == m);
        let tail = bytes.subrange(m, n);
        lemma_ascii_chunks(tail, cap);
        let rest = utf8_chunks(tail, cap);
        assert(cs == seq![bytes.subrange(0, m)] + rest);
        vstd::arithmetic::div_mod::lemma_div_plus_one(n - 1, cap);
        assert(cap + (n - 1) == n + cap - 1);
        if n <= cap {
            vstd::arithmetic::div_mod::lemma_basic_div(n - 1, cap);
            assert(tail.len() == 0);
        } else {
            assert(tail.len() + cap - 1 == n - 1);
        }
        assert forall|i: int| 0 <= i < cs.len() implies #[trigger] cs[i] == bytes.subrange(
            i * cap,
            if (i + 1) * cap < n {
                (i + 1) * cap
            } else {
                n
            },
        ) by {
            if i == 0 {
                assert(i * cap == 0 && (i + 1) * cap == cap) by (nonlinear_arith)
                    requires
                        i == 0,
                ;
                assert(cs[0] == bytes.subrange(0, m));
            } else {
                assert(cs[i] == rest[i - 1]);
                assert(m == cap);
                let q = (n - 1) / cap;
                vstd::arithmetic::div_mod::lemma_fundamental_div_mod(n - 1, cap);
                vstd::arithmetic::div_mod::lemma_mod_pos_bound(n - 1, cap);
                assert(i * cap <= n - 1) by (nonlinear_arith)
                    requires
                        1 <= i <= q,
                        cap * q + (n - 1) % cap == n - 1,
                        (n - 1) % cap >= 0,
                        cap >= 1,
                ;
                assert(0 <= (i - 1) * cap) by (nonlinear_arith)
                    requires
                        1 <= i,
                        cap >= 1,
                ;
                assert((i - 1) * cap + cap == i * cap) by (nonlinear_arith);
                assert(i * cap + cap == (i + 1) * cap) by (nonlinear_arith);
                let b = if i * cap < n - cap {
                    i * cap
                } else {
                    n - cap
                };
                assert(rest[i - 1] == tail.subrange((i - 1) * cap, b));
                assert(rest[i - 1] =~= bytes.subrange(
                    i * cap,
                    if (i + 1) * cap < n {
                        (i + 1) * cap
                    } else {
                        n
                    },
                ));
            }
        }
    }
}

/// Pure ASCII text is cut every `cap` bytes: there are `ceil(len / cap)`
/// chunks, the `i`-th of which is bytes `i * cap` up to `(i + 1) * cap` (or
/// the end of the text).
pub proof fn lemma_ascii_chunk_count(s: Seq<char>, cap: int)
    requires
        is_ascii_chars(s),
        cap >= 1,
    ensures
        utf8_chunks(encode_utf8(s), cap).len() == (s.len() + cap - 1) / cap,
        forall|i: int|
            0 <= i < utf8_chunks(encode_utf8(s), cap).len() ==> #[trigger] utf8_chunks(
                encode_utf8(s),
                cap,
            )[i] == encode_utf8(s).subrange(
                i * cap,
                if (i + 1) * cap < s.len() {
                    (i + 1) * cap
                } else {
                    s.len() as int
                },
            ),
{
    is_ascii_chars_encode_utf8(s);
    let bytes = encode_utf8(s);
    assert forall|i: int| 0 <= i < bytes.len() implies #[trigger] bytes[i] <= 0x7f by {
        assert('\0' <= s[i] <= '\u{7f}');
    }
    lemma_ascii_chunks(bytes, cap);
}

/// Relies on std's `String::from_utf8`: it succeeds exactly on valid UTF-8 and
/// then holds the characters those bytes encode.
#[verifier::external_body]
fn string_from_utf8(bytes: Vec<u8>) -> (r: Option<String>)
    ensures
        r.is_some() <==> valid_utf8(bytes@),
        r.is_some() ==> r.unwrap()@ == decode_utf8(bytes@),
{
    String::from_utf8(bytes).ok()
}

/// Copies `bytes[start..end]` to the front of a zeroed payload buffer.
fn fill_payload(bytes: &[u8], start: usize, end: usize) -> (r: [u8; IPC_DATA_SIZE])
    requires
        start <= end <= bytes@.len(),
        end - start <= IPC_DATA_SIZE,
    ensures
        prefix_of(r, (end - start) as usize) == bytes@.subrange(start as int, end as int),
{
    let mut array = [0u8; IPC_DATA_SIZE];
    let n = end - start;
    let mut k: usize = 0;
    while k < n
        invariant
            start <= end <= bytes@.len(),
            n == end - start,
            n <= IPC_DATA_SIZE,
            k <= n,
            forall|t: int| 0 <= t < k ==> array@[t] == bytes@[start + t],
        decreases n - k,
    {
        array[k] = bytes[start + k];
        k += 1;
    }
    assert(prefix_of(array, n) =~= bytes@.subrange(start as int, end as int));
    array
}

impl IpcEvent {
    /// Splits `data` into `SendData` events of at most `IPC_DATA_SIZE` bytes,
    /// cutting only at character boundaries, in left-to-right order.
    pub fn pack_data(data: &str) -> (events: Vec<IpcEvent>)
        ensures
            events@.len() == utf8_chunks(data.spec_bytes(), IPC_DATA_SIZE as int).len(),
            forall|i: int|
                0 <= i < events@.len() ==> {
                    &&& (#[trigger] events@[i]) is SendData
                    &&& events@[i].well_formed()
                    &&& events@[i].payload() == utf8_chunks(data.spec_bytes(), IPC_DATA_SIZE as int)[i]
                },
    {
        let bytes = data.as_bytes();
        let ghost all = data.spec_bytes();
        let ghost cap = IPC_DATA_SIZE as int;
        let ghost chunks = utf8_chunks(all, cap);
        let mut events: Vec<IpcEvent> = Vec::new();
        let mut start: usize = 0;
        proof {
            encode_utf8_valid_utf8(data@);
            is_char_boundary_start_end_of_seq(all);
            assert(all.subrange(0, all.len() as int) =~= all);
        }
        while start < bytes.len()
            invariant
                bytes@ == all,
                all == data.spec_bytes(),
                valid_utf8(all),
                start <= all.len(),
                is_char_boundary(all, start as int),
                chunks == utf8_chunks(all, cap),
                cap == IPC_DATA_SIZE,
                events@.len() + utf8_chunks(all.subrange(start as int, all.len() as int), cap).len()
                    == chunks.len(),
                forall|i: int|
                    0 <= i < utf8_chunks(all.subrange(start as int, all.len() as int), cap).len()
                        ==> #[trigger] utf8_chunks(all.subrange(start as int, all.len() as int), cap)[i]
                        == chunks[events@.len() + i],
                forall|i: int|
                    0 <= i < events@.len() ==> {
                        &&& (#[trigger] events@[i]) is SendData
                        &&& events@[i].well_formed()
                        &&& events@[i].payload() == chunks[i]
                    },
            decreases all.len() - start,
        {
            let ghost sub = all.subrange(start as int, all.len() as int);
            proof {
                lemma_boundary_shift(all, start as int, 0);
                lemma_first_cut(sub, cap);
            }
            let mut end = if bytes.len() - start < IPC_DATA_SIZE {
                bytes.len()
            } else {
                start + IPC_DATA_SIZE
            };
            while end > start && !data.is_char_boundary(end)
                invariant
                    bytes@ == all,
                    all == data.spec_bytes(),
                    valid_utf8(all),
                    start < end <= all.len() || end == start,
                    start < all.len(),
                    is_char_boundary(all, start as int),
                    sub == all.subrange(start as int, all.len() as int),
                    back_to_boundary(sub, end - start) == first_cut(sub, cap),
                decreases end,
            {
                proof {
                    lemma_boundary_shift(all, start as int, end - start);
                    assert(!is_char_boundary(sub, end - start));
                    assert(back_to_boundary(sub, end - start) == back_to_boundary(
                        sub,
                        end - start - 1,
                    ));
                }
                end -= 1;
            }
            proof {
                lemma_boundary_shift(all, start as int, end - start);
                lemma_boundary_shift(all, start as int, first_cut(sub, cap));
                if end > start {
                    assert(is_char_boundary(all, end as int));
                    assert(is_char_boundary(sub, end - start));
                }
                assert(end - start == first_cut(sub, cap));
            }
            let array = fill_payload(bytes, start, end);
            let ghost rest_before = utf8_chunks(sub, cap);
            let ghost tail = all.subrange(end as int, all.len() as int);
            proof {
                assert(sub.subrange(end - start, sub.len() as int) =~= tail);
                assert(sub.subrange(0, end - start) =~= all.subrange(start as int, end as int));
                assert(rest_before == seq![sub.subrange(0, end - start)] + utf8_chunks(tail, cap));
                assert(rest_before[0] == chunks[events@.len() as int]);
                assert forall|i: int| 0 <= i < utf8_chunks(tail, cap).len() implies
                    #[trigger] utf8_chunks(tail, cap)[i] == chunks[events@.len() + 1 + i] by {
                    assert(utf8_chunks(tail, cap)[i] == rest_before[i + 1]);
                }
            }
            events.push(IpcEvent::SendData(array, end - start));
            start = end;
        }
        proof {
            assert(all.subrange(start as int, all.len() as int).len() == 0);
        }
        events
    }

    /// Packs `host_name` whole into one `HostNameChanged` event; the name must
    /// fit in one payload.
    pub fn pack_host_name(host_name: &str) -> (event: IpcEvent)
        requires
            host_name.spec_bytes().len() <= IPC_DATA_SIZE,
        ensures
            event is HostNameChanged,
            event.well_formed(),
            event.payload() == host_name.spec_bytes(),
    {
        let bytes = host_name.as_bytes();
        let array = fill_payload(bytes, 0, bytes.len());
        proof {
            assert(bytes@.subrange(0, bytes@.len() as int) =~= bytes@);
        }
        IpcEvent::HostNameChanged(array, bytes.len())
    }

    /// Packs `version` whole into one `TerminalVersion` event; the version
    /// string must fit in one payload.
    pub fn pack_terminal_version(version: &str) -> (event: IpcEvent)
        requires
            version.spec_bytes().len() <= IPC_DATA_SIZE,
        ensures
            event is TerminalVersion,
            event.well_formed(),
            event.payload() == version.spec_bytes(),
    {
        let bytes = version.as_bytes();
        let array = fill_payload(bytes, 0, bytes.len());
        proof {
            assert(bytes@.subrange(0, bytes@.len() as int) =~= bytes@);
        }
        IpcEvent::TerminalVersion(array, bytes.len())
    }

    /// Decodes the payload of a byte-carrying event as text. `None` for the
    /// other variants, for a length past the buffer, and for bytes that are
    /// not valid UTF-8.
    pub fn decode_payload(&self) -> (r: Option<String>)
        ensures
            r.is_some() <==> (self.carries_bytes() && self.well_formed() && valid_utf8(
                self.payload(),
            )),
            r.is_some() ==> r.unwrap()@ == decode_utf8(self.payload()),
    {
        let (data, len) = match self {
            IpcEvent::TerminalVersion(d, n) => (d, *n),
            IpcEvent::HostNameChanged(d, n) => (d, *n),
            IpcEvent::SendData(d, n) => (d, *n),
            _ => {
                return None;
            },
        };
        if len > IPC_DATA_SIZE {
            return None;
        }
        let mut bytes: Vec<u8> = Vec::new();
        let mut k: usize = 0;
        while k < len
            invariant
                len <= IPC_DATA_SIZE,
                k <= len,
                bytes@ == data@.subrange(0, k as int),
            decreases len - k,
        {
            bytes.push(data[k]);
            k += 1;
            proof {
                assert(bytes@ =~= data@.subrange(0, k as int));
            }
        }
        string_from_utf8(bytes)
    }
}

/// What the shell does with an event received from the terminal.
#[derive(Debug, Clone, PartialEq, Eq)]
pub enum ShellReaction {
    /// Nothing to do.
    Ignore,
    /// The terminal asks to exit: answer with `Exit`.
    ReplyExit,
    /// The terminal exited: reset the shell and drop the channel.
    Close,
    /// Record the terminal's version.
    SetTerminalVersion(String),
    /// The terminal now has this many (columns, rows).
    Resize(i32, i32),
    /// Text typed on the terminal.
    Input(String),
    /// A data payload that is not valid UTF-8: dropped.
    Reject,
}

/// Version recorded when the terminal's version payload cannot be decoded.
pub const UNKNOWN_VERSION: &'static str = "UNKNOWN_VERSION";

/// The shell's reaction to `evt`.
pub fn shell_reaction(evt: &IpcEvent) -> (r: ShellReaction)
    ensures
        (evt is HeartBeat || evt is Ready || evt is HostNameChanged) ==> r == ShellReaction::Ignore,
        evt is RequestExit ==> r == ShellReaction::ReplyExit,
        evt is Exit ==> r == ShellReaction::Close,
        *evt matches IpcEvent::SetTerminalSize(c, w) ==> r == ShellReaction::Resize(c, w),
        evt is TerminalVersion ==> (r matches ShellReaction::SetTerminalVersion(v) && if evt.well_formed()
            && valid_utf8(evt.payload()) {
            v@ == decode_utf8(evt.payload())
        } else {
            v@ == UNKNOWN_VERSION@
        }),
        evt is SendData ==> if evt.well_formed() && valid_utf8(evt.payload()) {
            r matches ShellReaction::Input(t) && t@ == decode_utf8(evt.payload())
        } else {
            r == ShellReaction::Reject
        },
{
    match evt {
        IpcEvent::HeartBeat | IpcEvent::Ready | IpcEvent::HostNameChanged(..) => ShellReaction::Ignore,
        IpcEvent::RequestExit => ShellReaction::ReplyExit,
        IpcEvent::Exit => ShellReaction::Close,
        IpcEvent::SetTerminalSize(cols, rows) => ShellReaction::Resize(*cols, *rows),
        IpcEvent::TerminalVersion(..) => match evt.decode_payload() {
            Some(v) => ShellReaction::SetTerminalVersion(v),
            None => ShellReaction::SetTerminalVersion(String::from_str(UNKNOWN_VERSION)),
        },
        IpcEvent::SendData(..) => match evt.decode_payload() {
            Some(t) => ShellReaction::Input(t),
            None => ShellReaction::Reject,
        },
    }
}

/// What the terminal does with an event received from the shell.
#[derive(Debug, Clone, PartialEq, Eq)]
pub enum TerminalReaction {
    /// The shell is alive: remember when it last beat.
    PeerAlive,
    /// The shell is ready: answer with the window size and the terminal's
    /// version.
    ShellReady,
    /// The shell exited: close the session.
    Close,
    /// Bytes of shell output to render.
    Output(Vec<u8>),
    /// The shell's host name, shown as the title.
    TitleChanged(String),
    /// A payload that is corrupt (length past the buffer, or a host name that
    /// is not valid UTF-8): dropped.
    Reject,
    /// Nothing to do.
    Ignore,
}

/// The terminal's reaction to `evt`.
pub fn terminal_reaction(evt: &IpcEvent) -> (r: TerminalReaction)
    ensures
        evt is HeartBeat ==> r == TerminalReaction::PeerAlive,
        evt is Ready ==> r == TerminalReaction::ShellReady,
        evt is Exit ==> r == TerminalReaction::Close,
        (evt is RequestExit || evt is SetTerminalSize || evt is TerminalVersion) ==> r
            == TerminalReaction::Ignore,
        evt is SendData ==> if evt.well_formed() {
            r matches TerminalReaction::Output(b) && b@ == evt.payload()
        } else {
            r == TerminalReaction::Reject
        },
        evt is HostNameChanged ==> if evt.well_formed() && valid_utf8(evt.payload()) {
            r matches TerminalReaction::TitleChanged(t) && t@ == decode_utf8(evt.payload())
        } else {
            r == TerminalReaction::Reject
        },
{
    match evt {
        IpcEvent::HeartBeat => TerminalReaction::PeerAlive,
        IpcEvent::Ready => TerminalReaction::ShellReady,
        IpcEvent::Exit => TerminalReaction::Close,
        IpcEvent::SendData(data, len) => {
            if *len > IPC_DATA_SIZE {
                return TerminalReaction::Reject;
            }
            let mut bytes: Vec<u8> = Vec::new();
            let mut k: usize = 0;
            while k < *len
                invariant
                    *len <= IPC_DATA_SIZE,
                    k <= *len,
                    bytes@ == data@.subrange(0, k as int),
                decreases *len - k,
            {
                bytes.push(data[k]);
                k += 1;
                proof {
                    assert(bytes@ =~= data@.subrange(0, k as int));
                }
            }
            TerminalReaction::Output(bytes)
        },
        IpcEvent::HostNameChanged(..) => match evt.decode_payload() {
            Some(t) => TerminalReaction::TitleChanged(t),
            None => TerminalReaction::Reject,
        },
        _ => TerminalReaction::Ignore,
    }
}

/// Heartbeats older than this many milliseconds mean the shell is gone.
pub const SHELL_SILENCE_MILLIS: u64 = HEART_BEAT_INTERVAL * 10;

/// Whether the shell has been silent too long: more than
/// `SHELL_SILENCE_MILLIS` since its last heartbeat. Before any heartbeat it
/// is not.
pub fn shell_silent(last_heart_beat: Option<u64>, now: u64) -> (r: bool)
    ensures
        r == match last_heart_beat {
            None => false,
            Some(last) => now > last + SHELL_SILENCE_MILLIS,
        },
{
    match last_heart_beat {
        None => false,
        Some(last) => now > last && now - last > SHELL_SILENCE_MILLIS,
    }
}

} // verus!
