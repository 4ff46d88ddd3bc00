//! The payload format of a standalone executable.
//!
//! A compiled program is the fabela executable followed by the script,
//! compressed with zstd, and a trailer of 16 bytes: the payload size as a
//! little-endian `u64`, then the magic bytes `FABELA01`. Reading a payload
//! back is a short sequence of file operations; [`Extraction`] decides each
//! next operation from the result of the previous one, and
//! [`Binary::decode_payload`] turns the payload into the script.

use vstd::prelude::*;
use vstd::utf8::*;

use crate::error::{ErrorView, FabelaError};
use crate::text::{string_from_utf8, owned};

verus! {

/// Total trailer size: the payload size (8 bytes) and the magic (8 bytes).
pub const TRAILER_SIZE: u64 = 16;

/// zstd compression level that payloads are written with.
pub const ZSTD_LEVEL: i32 = 19;

/// `FABELA01`, the last eight bytes of an executable that carries a script.
pub open spec fn magic_bytes() -> Seq<u8> {
    seq![0x46u8, 0x41u8, 0x42u8, 0x45u8, 0x4cu8, 0x41u8, 0x30u8, 0x31u8]
}

/// `256` to the power `n`.
pub open spec fn pow256(n: nat) -> nat
    decreases n,
{
    if n == 0 {
        1
    } else {
        256 * pow256((n - 1) as nat)
    }
}

/// The number that bytes encode in little-endian order.
pub open spec fn le_value(bytes: Seq<u8>) -> nat
    decreases bytes.len(),
{
    if bytes.len() == 0 {
        0
    } else {
        bytes[0] as nat + 256 * le_value(bytes.drop_first())
    }
}

/// The `n` little-endian bytes of `v` (taken modulo `256^n`).
pub open spec fn le_bytes(v: nat, n: nat) -> Seq<u8>
    decreases n,
{
    if n == 0 {
        seq![]
    } else {
        seq![(v % 256) as u8] + le_bytes(v / 256, (n - 1) as nat)
    }
}

/// Where the script of a file lies, as its trailer describes it.
pub enum Location {
    /// The file carries no script: it is shorter than a trailer, or its last
    /// eight bytes are not the magic.
    NotEmbedded,
    /// The trailer announces a payload larger than the rest of the file.
    InvalidSize,
    /// The payload is the `size` bytes starting at `offset`.
    Payload { offset: nat, size: nat },
}

/// The location described by a file of `file_len` bytes that ends with the
/// 16 bytes `trailer`.
pub open spec fn locate(file_len: nat, trailer: Seq<u8>) -> Location {
    if file_len < 16 || trailer.subrange(8, 16) != magic_bytes() {
        Location::NotEmbedded
    } else {
        let size = le_value(trailer.subrange(0, 8));
        if size > file_len - 16 {
            Location::InvalidSize
        } else {
            Location::Payload { offset: (file_len - 16 - size) as nat, size: size }
        }
    }
}

/// The location of the payload of `file`.
pub open spec fn payload_location(file: Seq<u8>) -> Location {
    if file.len() < 16 {
        Location::NotEmbedded
    } else {
        locate(file.len(), file.subrange(file.len() - 16, file.len() as int))
    }
}

/// A payload `payload` appended to `base`, followed by its trailer: the file
/// layout that a bundle has.
pub open spec fn bundle_layout(base: Seq<u8>, payload: Seq<u8>) -> Seq<u8> {
    base + payload + le_bytes(payload.len(), 8) + magic_bytes()
}

/// The payload size and magic read from a trailer.
#[derive(Debug)]
pub struct Trailer {
    pub payload_size: u64,
    pub magic: [u8; 8],
}

/// What zstd decompression makes of a byte sequence: `None` when it is not
/// a valid zstd stream.
pub uninterp spec fn zstd_decoded(compressed: Seq<u8>) -> Option<Seq<u8>>;

/// `zstd::decode_all` on an in-memory buffer: the result is determined by the
/// bytes alone, and is named `zstd_decoded`; an error is returned exactly when
/// that name is `None`. The zstd format itself is not restated.
#[verifier::external_body]
fn zstd_decode_all(compressed: &[u8]) -> (res: Result<Vec<u8>, std::io::Error>)
    ensures
        res is Ok <==> zstd_decoded(compressed@) is Some,
        res matches Ok(v) ==> zstd_decoded(compressed@) == Some(v@),
{
    zstd::decode_all(compressed)
}

/// The script that a payload holds: its zstd decompression, read as UTF-8.
pub open spec fn payload_text(compressed: Seq<u8>) -> Option<Seq<char>> {
    match zstd_decoded(compressed) {
        Some(d) => if valid_utf8(d) {
            Some(decode_utf8(d))
        } else {
            None
        },
        None => None,
    }
}

/// The operations on the executable file that extraction asks for.
#[derive(Debug)]
pub enum ExtractAction {
    /// Read the length of the file.
    ReadLength,
    /// Move to the given offset from the end of the file.
    SeekFromEnd(i64),
    /// Move to the given offset from the start of the file.
    SeekFromStart(u64),
    /// Read exactly this many bytes from the current position.
    ReadExact(u64),
    /// The payload has been read: decode it with [`Binary::decode_payload`].
    Decode(Vec<u8>),
    /// The file carries no script.
    NotEmbedded,
    /// Extraction failed.
    Fail(FabelaError),
}

/// The results of those operations.
#[derive(Debug)]
pub enum ExtractEvent {
    Length(Result<u64, std::io::Error>),
    Seeked(Result<u64, std::io::Error>),
    Read(Result<Vec<u8>, std::io::Error>),
}

/// Mathematical form of an [`ExtractAction`].
pub enum ActionView {
    ReadLength,
    SeekFromEnd(int),
    SeekFromStart(nat),
    ReadExact(nat),
    Decode(Seq<u8>),
    NotEmbedded,
    Fail(ErrorView),
}

/// Mathematical form of an [`ExtractEvent`].
pub enum EventView {
    Length(Result<nat, std::io::Error>),
    Seeked(Result<nat, std::io::Error>),
    Read(Result<Seq<u8>, std::io::Error>),
}

impl View for ExtractAction {
    type V = ActionView;

    open spec fn view(&self) -> ActionView {
        match self {
            ExtractAction::ReadLength => ActionView::ReadLength,
            ExtractAction::SeekFromEnd(k) => ActionView::SeekFromEnd(*k as int),
            ExtractAction::SeekFromStart(o) => ActionView::SeekFromStart(*o as nat),
            ExtractAction::ReadExact(n) => ActionView::ReadExact(*n as nat),
            ExtractAction::Decode(v) => ActionView::Decode(v@),
            ExtractAction::NotEmbedded => ActionView::NotEmbedded,
            ExtractAction::Fail(e) => ActionView::Fail(e@),
        }
    }
}

impl View for ExtractEvent {
    type V = EventView;

    open spec fn view(&self) -> EventView {
        match self {
            ExtractEvent::Length(Ok(n)) => EventView::Length(Ok(*n as nat)),
            ExtractEvent::Length(Err(e)) => EventView::Length(Err(*e)),
            ExtractEvent::Seeked(Ok(n)) => EventView::Seeked(Ok(*n as nat)),
            ExtractEvent::Seeked(Err(e)) => EventView::Seeked(Err(*e)),
            ExtractEvent::Read(Ok(v)) => EventView::Read(Ok(v@)),
            ExtractEvent::Read(Err(e)) => EventView::Read(Err(*e)),
        }
    }
}

/// The stage an extraction is in: which result it waits for.
#[derive(Clone, Copy, Debug)]
pub enum ExtractStage {
    AwaitLength,
    AwaitTrailerSeek { file_len: u64 },
    AwaitTrailerRead { file_len: u64 },
    AwaitPayloadSeek { size: u64 },
    AwaitPayloadRead { size: u64 },
    Finished,
}

/// An I/O failure, described by the operation that failed.
pub open spec fn io_failure(context: Seq<char>, source: std::io::Error) -> ActionView {
    ActionView::Fail(ErrorView::Io { context: context, source: source })
}

/// Whether `event` answers what a machine in `stage` asked for.
pub open spec fn answers(stage: ExtractStage, event: EventView) -> bool {
    match stage {
        ExtractStage::AwaitLength => event is Length,
        ExtractStage::AwaitTrailerSeek { .. } => event is Seeked,
        ExtractStage::AwaitTrailerRead { .. } => match event {
            EventView::Read(Ok(b)) => b.len() == 16,
            EventView::Read(Err(_)) => true,
            _ => false,
        },
        ExtractStage::AwaitPayloadSeek { .. } => event is Seeked,
        ExtractStage::AwaitPayloadRead { size } => match event {
            EventView::Read(Ok(b)) => b.len() == size,
            EventView::Read(Err(_)) => true,
            _ => false,
        },
        ExtractStage::Finished => false,
    }
}

/// One step of extraction: the next stage and the next operation.
pub open spec fn next(stage: ExtractStage, event: EventView) -> (ExtractStage, ActionView) {
    match stage {
        ExtractStage::AwaitLength => match event {
            EventView::Length(Err(e)) => (
                ExtractStage::Finished,
                io_failure("reading executable metadata"@, e),
            ),
            EventView::Length(Ok(len)) => if len < 16 {
                (ExtractStage::Finished, ActionView::NotEmbedded)
            } else {
                (
                    ExtractStage::AwaitTrailerSeek { file_len: len as u64 },
                    ActionView::SeekFromEnd(-16),
                )
            },
            _ => (ExtractStage::Finished, ActionView::NotEmbedded),
        },
        ExtractStage::AwaitTrailerSeek { file_len } => match event {
            EventView::Seeked(Err(e)) => (ExtractStage::Finished, io_failure("seeking trailer"@, e)),
            _ => (ExtractStage::AwaitTrailerRead { file_len: file_len }, ActionView::ReadExact(16)),
        },
        ExtractStage::AwaitTrailerRead { file_len } => match event {
            EventView::Read(Ok(trailer)) => match locate(file_len as nat, trailer) {
                Location::NotEmbedded => (ExtractStage::Finished, ActionView::NotEmbedded),
                Location::InvalidSize => (
                    ExtractStage::Finished,
                    ActionView::Fail(ErrorView::Compile("invalid payload size"@)),
                ),
                Location::Payload { offset, size } => (
                    ExtractStage::AwaitPayloadSeek { size: size as u64 },
                    ActionView::SeekFromStart(offset),
                ),
            },
            EventView::Read(Err(e)) => (ExtractStage::Finished, io_failure("reading trailer"@, e)),
            _ => (ExtractStage::Finished, ActionView::NotEmbedded),
        },
        ExtractStage::AwaitPayloadSeek { size } => match event {
            EventView::Seeked(Err(e)) => (
                ExtractStage::Finished,
                io_failure("seeking payload start"@, e),
            ),
            _ => (ExtractStage::AwaitPayloadRead { size: size }, ActionView::ReadExact(size as nat)),
        },
        ExtractStage::AwaitPayloadRead { size } => match event {
            EventView::Read(Ok(payload)) => (ExtractStage::Finished, ActionView::Decode(payload)),
            EventView::Read(Err(e)) => (ExtractStage::Finished, io_failure("reading payload"@, e)),
            _ => (ExtractStage::Finished, ActionView::NotEmbedded),
        },
        ExtractStage::Finished => (ExtractStage::Finished, ActionView::NotEmbedded),
    }
}

/// Reading the script embedded in an executable, one file operation at a
/// time. The caller performs each requested operation and hands its result
/// to [`Extraction::step`].
#[derive(Debug)]
pub struct Extraction {
    stage: ExtractStage,
}

impl View for Extraction {
    type V = ExtractStage;

    closed spec fn view(&self) -> ExtractStage {
        self.stage
    }
}

/// A stand-in for a file: the operations of [`ExtractAction`] answered from
/// the bytes of `file`, with the current position `pos`. Returns the new
/// position and the answer.
pub open spec fn honest_reply(file: Seq<u8>, pos: int, action: ActionView) -> (int, EventView) {
    match action {
        ActionView::ReadLength => (pos, EventView::Length(Ok(file.len()))),
        ActionView::SeekFromEnd(k) => (file.len() + k, EventView::Seeked(Ok((file.len() + k) as nat))),
        ActionView::SeekFromStart(o) => (o as int, EventView::Seeked(Ok(o))),
        ActionView::ReadExact(n) => (pos + n, EventView::Read(Ok(file.subrange(pos, pos + n)))),
        _ => (pos, EventView::Length(Ok(file.len()))),
    }
}

/// Whether an action asks for a file operation (rather than ending the
/// extraction).
pub open spec fn is_request(action: ActionView) -> bool {
    action is ReadLength || action is SeekFromEnd || action is SeekFromStart || action is ReadExact
}

/// The action an extraction ends with when every operation it asks for is
/// answered from `file`, starting at `stage` with pending `action`.
pub open spec fn drive(file: Seq<u8>, stage: ExtractStage, pos: int, action: ActionView, fuel: nat) -> ActionView
    decreases fuel,
{
    if fuel == 0 || !is_request(action) {
        action
    } else {
        let (p, event) = honest_reply(file, pos, action);
        let (s, a) = next(stage, event);
        drive(file, s, p, a, (fuel - 1) as nat)
    }
}

/// The end of an extraction of `file` answered honestly from its bytes.
pub open spec fn extracted(file: Seq<u8>) -> ActionView {
    drive(file, ExtractStage::AwaitLength, 0, ActionView::ReadLength, 5)
}

/// What the format says an extraction of `file` ends with.
pub open spec fn expected_extraction(file: Seq<u8>) -> ActionView {
    match payload_location(file) {
        Location::NotEmbedded => ActionView::NotEmbedded,
        Location::InvalidSize => ActionView::Fail(ErrorView::Compile("invalid payload size"@)),
        Location::Payload { offset, size } => ActionView::Decode(
            file.subrange(offset as int, (offset + size) as int),
        ),
    }
}

/// Whether eight bytes are the magic.
fn is_magic(m: &[u8; 8]) -> (res: bool)
    ensures
        res == (m@ == magic_bytes()),
{
    let res = m[0] == 0x46 && m[1] == 0x41 && m[2] == 0x42 && m[3] == 0x45 && m[4] == 0x4c
        && m[5] == 0x41 && m[6] == 0x30 && m[7] == 0x31;
    if res {
        assert(m@ =~= magic_bytes());
    } else {
        assert(m@ != magic_bytes()) by {
            if m@ == magic_bytes() {
                assert(forall|i: int| 0 <= i < 8 ==> m@[i] == magic_bytes()[i]);
            }
        }
    }
    res
}

/// A little-endian number is below `256^len`.
pub proof fn lemma_le_value_bound(bytes: Seq<u8>)
    ensures
        le_value(bytes) < pow256(bytes.len()),
    decreases bytes.len(),
{
    if bytes.len() > 0 {
        let rest = bytes.drop_first();
        lemma_le_value_bound(rest);
        let p = pow256(rest.len());
        let r = le_value(rest);
        let b = bytes[0] as nat;
        assert(b + 256 * r < 256 * p) by (nonlinear_arith)
            requires
                b < 256,
                r < p,
        ;
    }
}

/// `256^7` and `256^8`.
pub proof fn lemma_pow256_values()
    ensures
        pow256(7) == 0x100000000000000,
        pow256(8) == 0x10000000000000000,
{
    reveal_with_fuel(pow256, 9);
}

/// Reading `v` back from its own little-endian bytes gives `v`.
pub proof fn lemma_le_roundtrip(v: nat, n: nat)
    requires
        v < pow256(n),
    ensures
        le_bytes(v, n).len() == n,
        le_value(le_bytes(v, n)) == v,
    decreases n,
{
    if n > 0 {
        let q = v / 256;
        assert(q < pow256((n - 1) as nat)) by (nonlinear_arith)
            requires
                v < 256 * pow256((n - 1) as nat),
                q == v / 256,
        ;
        lemma_le_roundtrip(q, (n - 1) as nat);
        let bytes = le_bytes(v, n);
        assert(bytes.drop_first() =~= le_bytes(q, (n - 1) as nat));
    }
}

/// The executable-payload format.
#[derive(Debug)]
pub struct Binary;

impl Binary {
    /// The magic bytes.
    pub fn magic() -> (m: [u8; 8])
        ensures
            m@ == magic_bytes(),
    {
        let m: [u8; 8] = [0x46, 0x41, 0x42, 0x45, 0x4c, 0x41, 0x30, 0x31];
        assert(m@ =~= magic_bytes());
        m
    }

    /// The payload size and magic of a trailer: the size is the little-endian
    /// value of the first eight bytes, the magic the last eight.
    pub fn parse_trailer(buf: &[u8]) -> (t: Trailer)
        requires
            buf@.len() == 16,
        ensures
            t.payload_size as nat == le_value(buf@.subrange(0, 8)),
            t.magic@ == buf@.subrange(8, 16),
    {
        let mut acc: u64 = 0;
        let mut i: usize = 8;
        while i > 0
            invariant
                i <= 8,
                buf@.len() == 16,
                acc as nat == le_value(buf@.subrange(i as int, 8)),
            decreases i,
        {
            i -= 1;
            proof {
                lemma_le_value_bound(buf@.subrange(i + 1, 8));
                lemma_pow256_values();
                assert(pow256((7 - i) as nat) <= pow256(7)) by {
                    lemma_pow256_monotone((7 - i) as nat, 7);
                }
                assert(buf@.subrange(i as int, 8).drop_first() =~= buf@.subrange(i + 1, 8));
            }
            let b = buf[i];
            assert(acc * 256 + b < 0x10000000000000000) by (nonlinear_arith)
                requires
                    acc < 0x100000000000000,
                    b < 256,
            ;
            acc = acc * 256 + b as u64;
        }
        let magic: [u8; 8] = [buf[8], buf[9], buf[10], buf[11], buf[12], buf[13], buf[14], buf[15]];
        assert(magic@ =~= buf@.subrange(8, 16));
        Trailer { payload_size: acc, magic }
    }

    /// Where the payload lies in a file of `file_len` bytes with the given
    /// trailer: `None` when the file carries no script, else the offset and
    /// size of the payload.
    pub fn locate_payload(file_len: u64, trailer: &Trailer) -> (res: Result<Option<(u64, u64)>, FabelaError>)
        ensures
            file_len < 16 || trailer.magic@ != magic_bytes() ==> res matches Ok(None),
            file_len >= 16 && trailer.magic@ == magic_bytes() && trailer.payload_size > file_len - 16
                ==> (res matches Err(e) && e@ == ErrorView::Compile("invalid payload size"@)),
            file_len >= 16 && trailer.magic@ == magic_bytes() && trailer.payload_size <= file_len - 16
                ==> (res matches Ok(Some((offset, size))) && size == trailer.payload_size
                && offset == file_len - 16 - trailer.payload_size),
    {
        if file_len < TRAILER_SIZE || !is_magic(&trailer.magic) {
            return Ok(None);
        }
        if trailer.payload_size > file_len - TRAILER_SIZE {
            let msg = "invalid payload size";
            return Err(FabelaError::Compile(owned(msg)));
        }
        Ok(Some((file_len - TRAILER_SIZE - trailer.payload_size, trailer.payload_size)))
    }

    /// Turns a payload into the script: decompresses it with zstd and reads
    /// the result as UTF-8.
    pub fn decode_payload(compressed: &[u8]) -> (res: Result<String, FabelaError>)
        ensures
            zstd_decoded(compressed@) is None ==> (res matches Err(e) && e@ is Io
                && e@->Io_context == "decompressing zstd payload"@),
            zstd_decoded(compressed@) matches Some(d) && !valid_utf8(d) ==> (res matches Err(e)
                && e@ is Utf8),
            payload_text(compressed@) matches Some(t) ==> (res matches Ok(s) && s@ == t),
            res is Ok <==> payload_text(compressed@) is Some,
    {
        Self::script_from_decompressed(zstd_decode_all(compressed))
    }

    /// The script from the result of decompressing a payload: a
    /// decompression failure becomes an I/O error carrying zstd's own error
    /// with the context "decompressing zstd payload"; decompressed bytes are
    /// read as UTF-8, and invalid UTF-8 is a `Utf8` error.
    pub fn script_from_decompressed(decompressed: Result<Vec<u8>, std::io::Error>) -> (res: Result<String, FabelaError>)
        ensures
            decompressed matches Err(source) ==> (res matches Err(e) && e@ == ErrorView::Io {
                context: "decompressing zstd payload"@,
                source: source,
            }),
            decompressed is Ok && !valid_utf8(decompressed->Ok_0@) ==> (res matches Err(e) && e@ is Utf8),
            decompressed is Ok && valid_utf8(decompressed->Ok_0@) ==> (res matches Ok(s) && s@
                == decode_utf8(decompressed->Ok_0@)),
    {
        match decompressed {
            Err(source) => Err(FabelaError::Io { context: owned("decompressing zstd payload"), source }),
            Ok(bytes) => match string_from_utf8(bytes) {
                Ok(text) => Ok(text),
                Err(e) => Err(FabelaError::Utf8(e)),
            },
        }
    }
}

/// `256^a <= 256^b` when `a <= b`.
pub proof fn lemma_pow256_monotone(a: nat, b: nat)
    requires
        a <= b,
    ensures
        pow256(a) <= pow256(b),
    decreases b,
{
    if a < b {
        lemma_pow256_monotone(a, (b - 1) as nat);
    }
}

impl Extraction {
    /// A new extraction, and its first request: the length of the file.
    pub fn new() -> (res: (Extraction, ExtractAction))
        ensures
            res.0@ == ExtractStage::AwaitLength,
            res.1@ == ActionView::ReadLength,
    {
        (Extraction { stage: ExtractStage::AwaitLength }, ExtractAction::ReadLength)
    }

    /// Whether the extraction has ended.
    pub fn is_finished(&self) -> (res: bool)
        ensures
            res == (self@ is Finished),
    {
        match self.stage {
            ExtractStage::Finished => true,
            _ => false,
        }
    }

    /// Hands the result of the last requested operation to the extraction
    /// and returns the next one.
    pub fn step(&mut self, event: ExtractEvent) -> (action: ExtractAction)
        requires
            answers(old(self)@, event@),
        ensures
            (final(self)@, action@) == next(old(self)@, event@),
    {
        let ghost ev = event@;
        match (self.stage, event) {
            (ExtractStage::AwaitLength, ExtractEvent::Length(Err(source))) => {
                self.stage = ExtractStage::Finished;
                io_error_action("reading executable metadata", source)
            },
            (ExtractStage::AwaitLength, ExtractEvent::Length(Ok(len))) => {
                if len < TRAILER_SIZE {
                    self.stage = ExtractStage::Finished;
                    ExtractAction::NotEmbedded
                } else {
                    self.stage = ExtractStage::AwaitTrailerSeek { file_len: len };
                    ExtractAction::SeekFromEnd(-16)
                }
            },
            (ExtractStage::AwaitTrailerSeek { file_len }, ExtractEvent::Seeked(Err(source))) => {
                self.stage = ExtractStage::Finished;
                io_error_action("seeking trailer", source)
            },
            (ExtractStage::AwaitTrailerSeek { file_len }, _) => {
                self.stage = ExtractStage::AwaitTrailerRead { file_len };
                ExtractAction::ReadExact(16)
            },
            (ExtractStage::AwaitTrailerRead { file_len }, ExtractEvent::Read(Ok(bytes))) => {
                let trailer = Binary::parse_trailer(bytes.as_slice());
                assert(bytes@.subrange(8, 16) == trailer.magic@);
                match Binary::locate_payload(file_len, &trailer) {
                    Ok(None) => {
                        self.stage = ExtractStage::Finished;
                        ExtractAction::NotEmbedded
                    },
                    Err(e) => {
                        self.stage = ExtractStage::Finished;
                        ExtractAction::Fail(e)
                    },
                    Ok(Some((offset, size))) => {
                        self.stage = ExtractStage::AwaitPayloadSeek { size };
                        ExtractAction::SeekFromStart(offset)
                    },
                }
            },
            (ExtractStage::AwaitTrailerRead { file_len }, ExtractEvent::Read(Err(source))) => {
                self.stage = ExtractStage::Finished;
                io_error_action("reading trailer", source)
            },
            (ExtractStage::AwaitPayloadSeek { size }, ExtractEvent::Seeked(Err(source))) => {
                self.stage = ExtractStage::Finished;
                io_error_action("seeking payload start", source)
            },
            (ExtractStage::AwaitPayloadSeek { size }, _) => {
                self.stage = ExtractStage::AwaitPayloadRead { size };
                ExtractAction::ReadExact(size)
            },
            (ExtractStage::AwaitPayloadRead { size }, ExtractEvent::Read(Ok(payload))) => {
                self.stage = ExtractStage::Finished;
                ExtractAction::Decode(payload)
            },
            (ExtractStage::AwaitPayloadRead { size }, ExtractEvent::Read(Err(source))) => {
                self.stage = ExtractStage::Finished;
                io_error_action("reading payload", source)
            },
            (_, _) => {
                self.stage = ExtractStage::Finished;
                ExtractAction::NotEmbedded
            },
        }
    }
}

/// The failure of the operation described by `context`.
fn io_error_action(context: &str, source: std::io::Error) -> (action: ExtractAction)
    ensures
        action@ == io_failure(context@, source),
{
    ExtractAction::Fail(FabelaError::Io { context: owned(context), source })
}

/// A file laid out as a bundle has its payload where the trailer says.
///
/// Appending a payload and its trailer (the size in little-endian, then the
/// magic) to any base file yields a file whose payload location is exactly
/// the appended payload.
pub proof fn lemma_bundle_location(base: Seq<u8>, payload: Seq<u8>)
    requires
        base.len() + payload.len() + 16 <= u64::MAX,
    ensures
        payload_location(bundle_layout(base, payload)) == (Location::Payload {
            offset: base.len(),
            size: payload.len(),
        }),
        bundle_layout(base, payload).subrange(base.len() as int, (base.len() + payload.len()) as int)
            == payload,
{
    let file = bundle_layout(base, payload);
    let len = file.len();
    lemma_pow256_values();
    lemma_le_roundtrip(payload.len(), 8);
    let size_bytes = le_bytes(payload.len(), 8);
    let trailer = file.subrange(len - 16, len as int);
    assert(trailer =~= size_bytes + magic_bytes());
    assert(trailer.subrange(0, 8) =~= size_bytes);
    assert(trailer.subrange(8, 16) =~= magic_bytes());
    assert(file.subrange(base.len() as int, (base.len() + payload.len()) as int) =~= payload);
}

/// Extraction reads the payload the trailer describes.
///
/// When every operation an [`Extraction`] asks for is answered from the
/// bytes of a file, it ends as the format says: no script when the file is
/// shorter than a trailer or lacks the magic, "invalid payload size" when the
/// trailer announces more bytes than precede it, and otherwise the payload
/// bytes handed over for decoding.
pub proof fn lemma_extraction_follows_format(file: Seq<u8>)
    requires
        file.len() <= u64::MAX,
    ensures
        extracted(file) == expected_extraction(file),
{
    reveal_with_fuel(drive, 6);
    let len = file.len();
    if len >= 16 {
        let trailer = file.subrange(len - 16, len as int);
        assert(trailer.len() == 16);
    }
}

} // verus!

verus! {

/// The magic is the ASCII text `FABELA01`.
pub proof fn lemma_magic_is_fabela01()
    ensures
        magic_bytes().len() == "FABELA01"@.len(),
        forall|i: int| 0 <= i < 8 ==> #[trigger] magic_bytes()[i] as int == "FABELA01"@[i] as int,
{
    reveal_strlit("FABELA01");
}

/// Little-endian order: appending a byte adds it at the next higher place,
/// and a single byte is its own value.
pub proof fn lemma_le_value_push(bytes: Seq<u8>, b: u8)
    ensures
        le_value(bytes.push(b)) == le_value(bytes) + b * pow256(bytes.len()),
        le_value(seq![b]) == b,
    decreases bytes.len(),
{
    let longer = bytes.push(b);
    assert(le_value(Seq::<u8>::empty()) == 0);
    assert(seq![b].drop_first() =~= Seq::<u8>::empty());
    assert(le_value(seq![b]) == seq![b][0] + 256 * le_value(seq![b].drop_first()));
    if bytes.len() == 0 {
        assert(longer =~= seq![b]);
        assert(pow256(0) == 1);
    } else {
        let rest = bytes.drop_first();
        lemma_le_value_push(rest, b);
        assert(longer.drop_first() =~= rest.push(b));
        assert(pow256(bytes.len()) == 256 * pow256(rest.len()));
        assert(longer[0] == bytes[0]);
        assert(le_value(longer) == longer[0] + 256 * le_value(longer.drop_first()));
        assert(le_value(bytes) == bytes[0] + 256 * le_value(rest));
        assert(256 * (le_value(rest) + b * pow256(rest.len())) == 256 * le_value(rest) + b * (256
            * pow256(rest.len()))) by (nonlinear_arith);
    }
}

/// Each failed file operation ends the extraction with an I/O error that
/// carries that failure and names the operation.
pub proof fn lemma_extraction_failures(e: std::io::Error, file_len: u64, size: u64)
    ensures
        next(ExtractStage::AwaitLength, EventView::Length(Err(e))) == (
            ExtractStage::Finished,
            io_failure("reading executable metadata"@, e),
        ),
        next(ExtractStage::AwaitTrailerSeek { file_len }, EventView::Seeked(Err(e))) == (
            ExtractStage::Finished,
            io_failure("seeking trailer"@, e),
        ),
        next(ExtractStage::AwaitTrailerRead { file_len }, EventView::Read(Err(e))) == (
            ExtractStage::Finished,
            io_failure("reading trailer"@, e),
        ),
        next(ExtractStage::AwaitPayloadSeek { size }, EventView::Seeked(Err(e))) == (
            ExtractStage::Finished,
            io_failure("seeking payload start"@, e),
        ),
        next(ExtractStage::AwaitPayloadRead { size }, EventView::Read(Err(e))) == (
            ExtractStage::Finished,
            io_failure("reading payload"@, e),
        ),
        io_failure("reading payload"@, e) == ActionView::Fail(ErrorView::Io {
            context: "reading payload"@,
            source: e,
        }),
{
}

} // verus!
