//! The messages that client and server exchange, and their form on the
//! wire.
//!
//! A message travels as a header of seven little-endian words, followed
//! by a body for the kinds that carry one. The words are: the kind, the
//! three components of a vector and a scalar (each the bit pattern of a
//! single-precision float), an unsigned number, and the length of the
//! body in bytes.

use vstd::prelude::*;
use crate::wire::{
    get_u32, get_u64, le4, le8, lemma_long_at_le8, long_at, put_u32, word_at,
};

verus! {

/// The length of a header, in bytes.
pub const HEADER_LEN: usize = 28;

/// The number of kinds of message.
pub const KINDS: u32 = 14;

/// The kinds of message.
#[derive(Clone, Copy, PartialEq, Eq, Structural, Debug)]
pub enum MessageType {
    /// Nothing: stands in for a message that could not be read.
    Noop,
    /// Asks for the override store.
    RequestUdm,
    /// Asks for the seed.
    RequestSeed,
    /// Asks for the kind of world.
    RequestPt,
    /// Reports where the sender's avatar is.
    PlayerUpdate,
    /// Puts a block at a voxel.
    BlockSet,
    /// Asks for a new world.
    RequestTakeoff,
    /// Carries the override store.
    Udm,
    /// Carries the seed.
    Seed,
    /// Carries the kind of world.
    Pt,
    /// Tells a client its identifier.
    YourId,
    /// Reports where a moving entity is.
    MobUpdate,
    /// Reports the time of day.
    TimeUpdate,
    /// Asks for silence about moving entities.
    ShutUpMobMsgs,
}

/// A message. `x`, `y`, `z` and `rot` hold the bit patterns of floats.
pub struct Message {
    pub message_type: MessageType,
    pub x: u32,
    pub y: u32,
    pub z: u32,
    pub rot: u32,
    pub info: u32,
    pub payload: Vec<u8>,
}

/// A message as a value: its body is a sequence of bytes.
pub struct MessageView {
    pub message_type: MessageType,
    pub x: u32,
    pub y: u32,
    pub z: u32,
    pub rot: u32,
    pub info: u32,
    pub payload: Seq<u8>,
}

/// Why bytes are no message.
#[derive(Clone, Copy, PartialEq, Eq, Structural, Debug)]
pub enum DecodeError {
    /// There are fewer bytes than a header has.
    Truncated,
    /// The first word names no kind.
    UnknownType,
    /// The header announces another number of bytes than follow it.
    LengthMismatch,
    /// A body follows a kind that carries none.
    UnexpectedBody,
}

impl MessageType {
    /// The number that names the kind on the wire.
    pub open spec fn tag(self) -> u32 {
        match self {
            MessageType::Noop => 0,
            MessageType::RequestUdm => 1,
            MessageType::RequestSeed => 2,
            MessageType::RequestPt => 3,
            MessageType::PlayerUpdate => 4,
            MessageType::BlockSet => 5,
            MessageType::RequestTakeoff => 6,
            MessageType::Udm => 7,
            MessageType::Seed => 8,
            MessageType::Pt => 9,
            MessageType::YourId => 10,
            MessageType::MobUpdate => 11,
            MessageType::TimeUpdate => 12,
            MessageType::ShutUpMobMsgs => 13,
        }
    }

    /// The kind that a number names; `Noop` for a number that names no
    /// kind.
    pub open spec fn of_tag(tag: u32) -> MessageType {
        if tag == 1 {
            MessageType::RequestUdm
        } else if tag == 2 {
            MessageType::RequestSeed
        } else if tag == 3 {
            MessageType::RequestPt
        } else if tag == 4 {
            MessageType::PlayerUpdate
        } else if tag == 5 {
            MessageType::BlockSet
        } else if tag == 6 {
            MessageType::RequestTakeoff
        } else if tag == 7 {
            MessageType::Udm
        } else if tag == 8 {
            MessageType::Seed
        } else if tag == 9 {
            MessageType::Pt
        } else if tag == 10 {
            MessageType::YourId
        } else if tag == 11 {
            MessageType::MobUpdate
        } else if tag == 12 {
            MessageType::TimeUpdate
        } else if tag == 13 {
            MessageType::ShutUpMobMsgs
        } else {
            MessageType::Noop
        }
    }

    /// The kinds that carry a body: the three blobs of a world and the
    /// identifier.
    pub open spec fn carries_body(self) -> bool {
        self == MessageType::Udm || self == MessageType::Seed || self == MessageType::Pt || self
            == MessageType::YourId
    }

    /// The kinds by which a client asks the server for a blob. They are
    /// answered, not passed on.
    pub open spec fn is_request(self) -> bool {
        self == MessageType::RequestUdm || self == MessageType::RequestSeed || self
            == MessageType::RequestPt
    }

    /// Exec counterpart of [`MessageType::tag`].
    pub fn to_tag(self) -> (tag: u32)
        ensures
            tag == self.tag(),
            tag < KINDS,
            MessageType::of_tag(tag) == self,
    {
        match self {
            MessageType::Noop => 0,
            MessageType::RequestUdm => 1,
            MessageType::RequestSeed => 2,
            MessageType::RequestPt => 3,
            MessageType::PlayerUpdate => 4,
            MessageType::BlockSet => 5,
            MessageType::RequestTakeoff => 6,
            MessageType::Udm => 7,
            MessageType::Seed => 8,
            MessageType::Pt => 9,
            MessageType::YourId => 10,
            MessageType::MobUpdate => 11,
            MessageType::TimeUpdate => 12,
            MessageType::ShutUpMobMsgs => 13,
        }
    }

    /// The kind that a number names, if it names one.
    pub fn from_tag(tag: u32) -> (kind: Option<MessageType>)
        ensures
            kind == (if tag < KINDS {
                Some(MessageType::of_tag(tag))
            } else {
                None
            }),
            kind matches Some(k) ==> k.tag() == tag,
    {
        if tag == 0 {
            Some(MessageType::Noop)
        } else if tag == 1 {
            Some(MessageType::RequestUdm)
        } else if tag == 2 {
            Some(MessageType::RequestSeed)
        } else if tag == 3 {
            Some(MessageType::RequestPt)
        } else if tag == 4 {
            Some(MessageType::PlayerUpdate)
        } else if tag == 5 {
            Some(MessageType::BlockSet)
        } else if tag == 6 {
            Some(MessageType::RequestTakeoff)
        } else if tag == 7 {
            Some(MessageType::Udm)
        } else if tag == 8 {
            Some(MessageType::Seed)
        } else if tag == 9 {
            Some(MessageType::Pt)
        } else if tag == 10 {
            Some(MessageType::YourId)
        } else if tag == 11 {
            Some(MessageType::MobUpdate)
        } else if tag == 12 {
            Some(MessageType::TimeUpdate)
        } else if tag == 13 {
            Some(MessageType::ShutUpMobMsgs)
        } else {
            None
        }
    }

    /// Exec counterpart of [`MessageType::carries_body`].
    pub fn has_body(self) -> (b: bool)
        ensures
            b == self.carries_body(),
    {
        match self {
            MessageType::Udm | MessageType::Seed | MessageType::Pt | MessageType::YourId => true,
            _ => false,
        }
    }
}

impl MessageView {
    /// True when the message can travel: its body's length fits a word,
    /// and it has a body only if its kind carries one.
    pub open spec fn encodable(self) -> bool {
        &&& self.payload.len() <= u32::MAX
        &&& self.message_type.carries_body() || self.payload.len() == 0
    }

    /// The header of the message.
    pub open spec fn header(self) -> Seq<u8> {
        le4(self.message_type.tag()) + le4(self.x) + le4(self.y) + le4(self.z) + le4(self.rot)
            + le4(self.info) + le4(self.payload.len() as u32)
    }

    /// The message on the wire: its header, then its body.
    pub open spec fn encoded(self) -> Seq<u8> {
        self.header() + self.payload
    }
}

/// The message that bytes hold, or why they hold none.
pub open spec fn decoded(bytes: Seq<u8>) -> Result<MessageView, DecodeError> {
    if bytes.len() < HEADER_LEN {
        Err(DecodeError::Truncated)
    } else if word_at(bytes, 0) >= KINDS {
        Err(DecodeError::UnknownType)
    } else if word_at(bytes, 24) != bytes.len() - HEADER_LEN {
        Err(DecodeError::LengthMismatch)
    } else if !MessageType::of_tag(word_at(bytes, 0)).carries_body() && bytes.len() > HEADER_LEN {
        Err(DecodeError::UnexpectedBody)
    } else {
        Ok(
            MessageView {
                message_type: MessageType::of_tag(word_at(bytes, 0)),
                x: word_at(bytes, 4),
                y: word_at(bytes, 8),
                z: word_at(bytes, 12),
                rot: word_at(bytes, 16),
                info: word_at(bytes, 20),
                payload: bytes.subrange(HEADER_LEN as int, bytes.len() as int),
            },
        )
    }
}

/// Where seven runs of four bytes and a tail are found in the string made
/// of them.
proof fn lemma_eight_parts(
    a: Seq<u8>,
    b: Seq<u8>,
    c: Seq<u8>,
    d: Seq<u8>,
    e: Seq<u8>,
    f: Seq<u8>,
    g: Seq<u8>,
    tail: Seq<u8>,
)
    requires
        a.len() == 4,
        b.len() == 4,
        c.len() == 4,
        d.len() == 4,
        e.len() == 4,
        f.len() == 4,
        g.len() == 4,
    ensures
        ({
            let s = a + b + c + d + e + f + g + tail;
            &&& s.len() == 28 + tail.len()
            &&& s.subrange(0, 4) == a
            &&& s.subrange(4, 8) == b
            &&& s.subrange(8, 12) == c
            &&& s.subrange(12, 16) == d
            &&& s.subrange(16, 20) == e
            &&& s.subrange(20, 24) == f
            &&& s.subrange(24, 28) == g
            &&& s.subrange(28, s.len() as int) == tail
        }),
{
}

/// The word at a place is the word that the four bytes there spell.
proof fn lemma_word_in_window(s: Seq<u8>, at: int, w: u32)
    requires
        0 <= at,
        at + 4 <= s.len(),
        s.subrange(at, at + 4) == le4(w),
    ensures
        word_at(s, at) == w,
{
}

/// The length of the message that a stream of bytes begins with, if
/// enough of it has arrived to tell: the header and as many bytes as the
/// header announces.
pub open spec fn first_frame_len(bytes: Seq<u8>) -> Option<int> {
    if bytes.len() < HEADER_LEN {
        None
    } else {
        Some(HEADER_LEN + word_at(bytes, 24))
    }
}

/// The words of a header are found again in the encoded message.
pub proof fn lemma_header_words(m: MessageView)
    ensures
        m.header().len() == HEADER_LEN,
        m.encoded().len() == HEADER_LEN + m.payload.len(),
        word_at(m.encoded(), 0) == m.message_type.tag(),
        word_at(m.encoded(), 4) == m.x,
        word_at(m.encoded(), 8) == m.y,
        word_at(m.encoded(), 12) == m.z,
        word_at(m.encoded(), 16) == m.rot,
        word_at(m.encoded(), 20) == m.info,
        word_at(m.encoded(), 24) == m.payload.len() as u32,
        m.encoded().subrange(HEADER_LEN as int, m.encoded().len() as int) == m.payload,
{
    let e = m.encoded();
    lemma_eight_parts(
        le4(m.message_type.tag()),
        le4(m.x),
        le4(m.y),
        le4(m.z),
        le4(m.rot),
        le4(m.info),
        le4(m.payload.len() as u32),
        m.payload,
    );
    lemma_word_in_window(e, 0, m.message_type.tag());
    lemma_word_in_window(e, 4, m.x);
    lemma_word_in_window(e, 8, m.y);
    lemma_word_in_window(e, 12, m.z);
    lemma_word_in_window(e, 16, m.rot);
    lemma_word_in_window(e, 20, m.info);
    lemma_word_in_window(e, 24, m.payload.len() as u32);
}

/// Every message that can travel is read back as it was sent: kind,
/// vector, scalar, number and body.
pub proof fn lemma_round_trip(m: MessageView)
    requires
        m.encodable(),
    ensures
        decoded(m.encoded()) == Ok::<MessageView, DecodeError>(m),
{
    lemma_header_words(m);
}

/// A stream that begins with a message begins with a frame of exactly
/// the message's length, whatever follows: taking the first frame off
/// the stream gives the message's bytes, and they are read back as the
/// message.
pub proof fn lemma_frame_of_encoded(m: MessageView, rest: Seq<u8>)
    requires
        m.encodable(),
    ensures
        first_frame_len(m.encoded() + rest) == Some(m.encoded().len() as int),
        (m.encoded() + rest).take(m.encoded().len() as int) == m.encoded(),
        (m.encoded() + rest).skip(m.encoded().len() as int) == rest,
        decoded((m.encoded() + rest).take(m.encoded().len() as int)) == Ok::<
            MessageView,
            DecodeError,
        >(m),
{
    lemma_round_trip(m);
    let e = m.encoded();
    let s = e + rest;
    assert(s.take(e.len() as int) =~= e);
}

/// On the wire, the length that a header announces is the number of
/// bytes that follow it.
pub proof fn lemma_declared_length(m: MessageView)
    requires
        m.encodable(),
    ensures
        word_at(m.encoded(), 24) == m.encoded().len() - HEADER_LEN,
{
    lemma_header_words(m);
}

/// The body that carries a blob: its length as eight little-endian bytes,
/// then the blob.
pub open spec fn blob_body(blob: Seq<u8>) -> Seq<u8> {
    le8(blob.len() as u64) + blob
}

/// The body that carries an identifier: its high half, then its low half,
/// each as eight little-endian bytes.
pub open spec fn id_body(id: u128) -> Seq<u8> {
    le8((id / 0x1_0000_0000_0000_0000) as u64) + le8((id % 0x1_0000_0000_0000_0000) as u64)
}

/// The blob that a body carries, if the body is one that carries a blob:
/// a length of eight bytes followed by exactly that many bytes.
pub open spec fn opened(body: Seq<u8>) -> Option<Seq<u8>> {
    if body.len() >= 8 && long_at(body, 0) == body.len() - 8 {
        Some(body.skip(8))
    } else {
        None
    }
}

/// The identifier that a body carries, if the body is one that carries
/// an identifier: sixteen bytes.
pub open spec fn id_in(body: Seq<u8>) -> Option<u128> {
    if body.len() == 16 {
        Some((long_at(body, 0) * 0x1_0000_0000_0000_0000 + long_at(body, 8)) as u128)
    } else {
        None
    }
}

/// A blob is found again in the body that carries it.
pub proof fn lemma_opened_blob_body(blob: Seq<u8>)
    requires
        blob.len() <= u64::MAX,
    ensures
        opened(blob_body(blob)) == Some(blob),
{
    lemma_long_at_le8(Seq::empty(), blob.len() as u64, blob);
}

/// An identifier is found again in the body that carries it.
pub proof fn lemma_id_in_id_body(id: u128)
    ensures
        id_in(id_body(id)) == Some(id),
{
    let high = (id / 0x1_0000_0000_0000_0000) as u64;
    let low = (id % 0x1_0000_0000_0000_0000) as u64;
    lemma_long_at_le8(Seq::empty(), high, le8(low));
    lemma_long_at_le8(le8(high), low, Seq::empty());
}

/// The message that tells a client its identifier.
pub open spec fn identity_message(id: u128) -> MessageView {
    MessageView {
        message_type: MessageType::YourId,
        x: 0,
        y: 0,
        z: 0,
        rot: 0,
        info: 0,
        payload: id_body(id),
    }
}

/// The message of kind `kind` that carries `blob`.
pub open spec fn blob_message(kind: MessageType, blob: Seq<u8>) -> MessageView {
    MessageView { message_type: kind, x: 0, y: 0, z: 0, rot: 0, info: 0, payload: blob_body(blob) }
}

/// `bincode::serialize` of a byte vector, in bincode's default
/// configuration: the number of bytes as a 64-bit little-endian number,
/// then the bytes themselves. Serialising into memory, without a size
/// limit, does not fail.
#[verifier::external_body]
pub(crate) fn serialize_blob(blob: &Vec<u8>) -> (body: Vec<u8>)
    ensures
        body@ == blob_body(blob@),
{
    bincode::serialize(blob).unwrap_or_default()
}

/// `bincode::serialize` of a pair of 64-bit numbers, in bincode's default
/// configuration: the first as a little-endian number, then the second,
/// with nothing between or around them. Serialising into memory, without
/// a size limit, does not fail.
#[verifier::external_body]
pub(crate) fn serialize_pair(high: u64, low: u64) -> (body: Vec<u8>)
    ensures
        body@ == le8(high) + le8(low),
{
    bincode::serialize(&(high, low)).unwrap_or_default()
}

impl View for Message {
    type V = MessageView;

    open spec fn view(&self) -> MessageView {
        MessageView {
            message_type: self.message_type,
            x: self.x,
            y: self.y,
            z: self.z,
            rot: self.rot,
            info: self.info,
            payload: self.payload@,
        }
    }
}

impl Message {
    /// A message without a body.
    pub fn new(message_type: MessageType, x: u32, y: u32, z: u32, rot: u32, info: u32) -> (m:
        Message)
        ensures
            m@ == (MessageView { message_type, x, y, z, rot, info, payload: Seq::empty() }),
    {
        Message { message_type, x, y, z, rot, info, payload: Vec::new() }
    }

    /// The message that tells a client its identifier.
    pub fn your_id(id: u128) -> (m: Message)
        ensures
            m@ == identity_message(id),
            m@.encodable(),
    {
        let high: u64 = (id / 0x1_0000_0000_0000_0000) as u64;
        let low: u64 = (id % 0x1_0000_0000_0000_0000) as u64;
        let payload = serialize_pair(high, low);
        Message { message_type: MessageType::YourId, x: 0, y: 0, z: 0, rot: 0, info: 0, payload }
    }

    /// The message of kind `kind` that carries `blob`; `None` where the
    /// kind carries no body or the blob is too long for the length of its
    /// body to fit a word.
    pub fn with_blob(kind: MessageType, blob: &Vec<u8>) -> (m: Option<Message>)
        ensures
            m.is_some() == (kind.carries_body() && blob@.len() + 8 <= u32::MAX),
            m matches Some(msg) ==> msg@ == blob_message(kind, blob@) && msg@.encodable(),
    {
        if !kind.has_body() || blob.len() > 0xffff_fff7 {
            return None;
        }
        let payload = serialize_blob(blob);
        Some(Message { message_type: kind, x: 0, y: 0, z: 0, rot: 0, info: 0, payload })
    }

    /// The blob that the message carries: `None` unless the message is of
    /// a kind that carries a blob and its body is a length followed by
    /// that many bytes.
    pub fn blob(&self) -> (blob: Option<Vec<u8>>)
        ensures
            match blob {
                Some(b) => self.message_type.carries_body() && self.message_type
                    != MessageType::YourId && opened(self.payload@) == Some(b@),
                None => !self.message_type.carries_body() || self.message_type
                    == MessageType::YourId || opened(self.payload@).is_none(),
            },
    {
        match self.message_type {
            MessageType::Udm | MessageType::Seed | MessageType::Pt => {},
            _ => {
                return None;
            },
        }
        if self.payload.len() < 8 {
            return None;
        }
        let announced = get_u64(&self.payload, 0);
        if announced != (self.payload.len() - 8) as u64 {
            return None;
        }
        let mut blob: Vec<u8> = Vec::new();
        let mut i: usize = 8;
        while i < self.payload.len()
            invariant
                8 <= i <= self.payload@.len(),
                blob@ == self.payload@.subrange(8, i as int),
            decreases self.payload@.len() - i,
        {
            blob.push(self.payload[i]);
            i = i + 1;
        }
        Some(blob)
    }

    /// The identifier that the message carries: `None` unless the message
    /// tells a client its identifier and its body is sixteen bytes.
    pub fn id(&self) -> (id: Option<u128>)
        ensures
            id == (if self.message_type == MessageType::YourId {
                id_in(self.payload@)
            } else {
                None
            }),
    {
        match self.message_type {
            MessageType::YourId => {},
            _ => {
                return None;
            },
        }
        if self.payload.len() != 16 {
            return None;
        }
        let high = get_u64(&self.payload, 0);
        let low = get_u64(&self.payload, 8);
        Some(high as u128 * 0x1_0000_0000_0000_0000 + low as u128)
    }

    /// Exec counterpart of [`MessageView::encodable`].
    pub fn is_encodable(&self) -> (b: bool)
        ensures
            b == self@.encodable(),
    {
        self.payload.len() <= 0xffff_ffff && (self.message_type.has_body() || self.payload.len()
            == 0)
    }

    /// The message on the wire; `None` for one that cannot travel.
    pub fn encode(&self) -> (bytes: Option<Vec<u8>>)
        ensures
            bytes.is_some() == self@.encodable(),
            bytes matches Some(b) ==> b@ == self@.encoded(),
    {
        if !self.is_encodable() {
            return None;
        }
        let mut out: Vec<u8> = Vec::new();
        put_u32(&mut out, self.message_type.to_tag());
        put_u32(&mut out, self.x);
        put_u32(&mut out, self.y);
        put_u32(&mut out, self.z);
        put_u32(&mut out, self.rot);
        put_u32(&mut out, self.info);
        put_u32(&mut out, self.payload.len() as u32);
        let mut i: usize = 0;
        while i < self.payload.len()
            invariant
                i <= self.payload@.len(),
                out@ == self@.header() + self.payload@.take(i as int),
            decreases self.payload@.len() - i,
        {
            out.push(self.payload[i]);
            i = i + 1;
        }
        Some(out)
    }

    /// The length of the message that a stream of bytes begins with, if
    /// the whole header has arrived.
    pub fn frame_len(bytes: &Vec<u8>) -> (len: Option<u64>)
        ensures
            match len {
                Some(n) => first_frame_len(bytes@) == Some(n as int),
                None => first_frame_len(bytes@).is_none(),
            },
    {
        if bytes.len() < HEADER_LEN {
            None
        } else {
            Some(HEADER_LEN as u64 + get_u32(bytes, 24) as u64)
        }
    }

    /// Takes the first message off the front of what has arrived of a
    /// stream, as its bytes on the wire, once all of them are there; the
    /// rest stays in `buffer`. While the message is not complete nothing
    /// is taken.
    pub fn take_frame(buffer: &mut Vec<u8>) -> (frame: Option<Vec<u8>>)
        ensures
            match frame {
                Some(f) => {
                    &&& first_frame_len(old(buffer)@) == Some(f@.len() as int)
                    &&& f@.len() <= old(buffer)@.len()
                    &&& f@ == old(buffer)@.take(f@.len() as int)
                    &&& final(buffer)@ == old(buffer)@.skip(f@.len() as int)
                },
                None => {
                    &&& final(buffer)@ == old(buffer)@
                    &&& match first_frame_len(old(buffer)@) {
                        Some(n) => n > old(buffer)@.len(),
                        None => true,
                    }
                },
            },
    {
        let len: usize = match Self::frame_len(buffer) {
            Some(n) => {
                if n > buffer.len() as u64 {
                    return None;
                }
                n as usize
            },
            None => {
                return None;
            },
        };
        let mut frame: Vec<u8> = Vec::new();
        let mut rest: Vec<u8> = Vec::new();
        let mut i: usize = 0;
        while i < buffer.len()
            invariant
                len <= buffer@.len(),
                i <= buffer@.len(),
                buffer@ == old(buffer)@,
                frame@ == buffer@.take(if i < len { i as int } else { len as int }),
                rest@ == buffer@.subrange(len as int, if i < len { len as int } else { i as int }),
            decreases buffer@.len() - i,
        {
            if i < len {
                frame.push(buffer[i]);
            } else {
                rest.push(buffer[i]);
            }
            i = i + 1;
        }
        *buffer = rest;
        Some(frame)
    }

    /// Takes the next thing to read off the front of what has arrived of
    /// a stream: the first message, as [`Message::take_frame`] does; or,
    /// where the header announces a message of more than `longest` bytes,
    /// the header alone, which is read as no message, while the rest of
    /// what has arrived is thrown away. A header always fits: a `longest`
    /// below its length counts as its length.
    pub fn take_frame_within(buffer: &mut Vec<u8>, longest: u64) -> (frame: Option<Vec<u8>>)
        ensures
            match first_frame_len(old(buffer)@) {
                None => frame.is_none() && final(buffer)@ == old(buffer)@,
                Some(n) => if n > longest && n > HEADER_LEN {
                    &&& frame matches Some(f)
                    &&& f@ == old(buffer)@.take(HEADER_LEN as int)
                    &&& final(buffer)@.len() == 0
                    &&& decoded(f@) is Err
                } else if n > old(buffer)@.len() {
                    frame.is_none() && final(buffer)@ == old(buffer)@
                } else {
                    &&& frame matches Some(f)
                    &&& f@ == old(buffer)@.take(n)
                    &&& final(buffer)@ == old(buffer)@.skip(n)
                },
            },
    {
        match Self::frame_len(buffer) {
            Some(n) => {
                if n > longest && n > HEADER_LEN as u64 {
                    let mut header: Vec<u8> = Vec::new();
                    let mut i: usize = 0;
                    while i < HEADER_LEN
                        invariant
                            i <= HEADER_LEN <= buffer@.len(),
                            header@ == buffer@.take(i as int),
                        decreases HEADER_LEN - i,
                    {
                        header.push(buffer[i]);
                        i = i + 1;
                    }
                    buffer.clear();
                    Some(header)
                } else {
                    Self::take_frame(buffer)
                }
            },
            None => None,
        }
    }

    /// The message that bytes hold, or why they hold none.
    pub fn decode(bytes: &Vec<u8>) -> (r: Result<Message, DecodeError>)
        ensures
            match r {
                Ok(m) => decoded(bytes@) == Ok::<MessageView, DecodeError>(m@),
                Err(e) => decoded(bytes@) == Err::<MessageView, DecodeError>(e),
            },
    {
        if bytes.len() < HEADER_LEN {
            return Err(DecodeError::Truncated);
        }
        let kind = match MessageType::from_tag(get_u32(bytes, 0)) {
            Some(k) => k,
            None => {
                return Err(DecodeError::UnknownType);
            },
        };
        let declared = get_u32(bytes, 24);
        let follows: usize = bytes.len() - HEADER_LEN;
        if follows > 0xffff_ffff || declared != follows as u32 {
            return Err(DecodeError::LengthMismatch);
        }
        if !kind.has_body() && follows > 0 {
            return Err(DecodeError::UnexpectedBody);
        }
        let mut payload: Vec<u8> = Vec::new();
        let mut i: usize = HEADER_LEN;
        while i < bytes.len()
            invariant
                HEADER_LEN <= i <= bytes@.len(),
                payload@ == bytes@.subrange(HEADER_LEN as int, i as int),
            decreases bytes@.len() - i,
        {
            payload.push(bytes[i]);
            i = i + 1;
        }
        Ok(
            Message {
                message_type: kind,
                x: get_u32(bytes, 4),
                y: get_u32(bytes, 8),
                z: get_u32(bytes, 12),
                rot: get_u32(bytes, 16),
                info: get_u32(bytes, 20),
                payload,
            },
        )
    }
}

} // verus!
