//! The envelope of a message: the frames that go on the wire.

use crate::comms::peer_manager::node_id::NodeId;
use vstd::prelude::*;

verus! {

/// A single frame of a message.
pub type Frame = Vec<u8>;

/// The frames that together make up a multipart message.
pub type FrameSet = Vec<Frame>;

/// The number of frames of a message: version, header and body.
pub const FRAMES_PER_MESSAGE: usize = 3;

/// Why a message could not be taken apart or put together.
#[derive(Clone, Copy, Debug, PartialEq, Eq, Structural)]
pub enum MessageError {
    /// The multipart message is malformed.
    MalformedMultipart,
    /// The message could not be serialised.
    SerializeFailed,
    /// The message could not be deserialised.
    DeserializeFailed,
    /// An object could not be serialised into binary.
    BinarySerializeError,
    /// Binary data could not be deserialised into an object.
    BinaryDeserializeError,
}

/// What a header says of the message's identity, one bit each.
#[derive(Clone, Copy, Debug, PartialEq, Eq, Structural, PartialOrd, Ord, Hash)]
pub struct IdentityFlags {
    bits: u8,
}

impl IdentityFlags {
    /// The flags as a byte.
    pub closed spec fn spec_bits(&self) -> u8 {
        self.bits
    }

    /// Only the bits that name a flag are ever set.
    #[verifier::type_invariant]
    spec fn known_bits_only(self) -> bool {
        self.bits & !1u8 == 0
    }

    /// No flag set.
    pub fn empty() -> (flags: IdentityFlags)
        ensures
            flags.spec_bits() == 0,
    {
        assert(0u8 & !1u8 == 0) by (bit_vector);
        IdentityFlags { bits: 0 }
    }

    /// The flag of an encrypted message, bit 0.
    pub fn encrypted() -> (flags: IdentityFlags)
        ensures
            flags.spec_bits() == 1,
    {
        assert(1u8 & !1u8 == 0) by (bit_vector);
        IdentityFlags { bits: 1 }
    }

    /// The flags with the given bits, where every bit names a flag.
    pub fn from_bits(bits: u8) -> (flags: Option<IdentityFlags>)
        ensures
            flags is Some <==> bits & !1u8 == 0,
            flags matches Some(f) ==> f.spec_bits() == bits,
    {
        if bits & !1u8 == 0 {
            Some(IdentityFlags { bits })
        } else {
            None
        }
    }

    /// The flags as a byte.
    #[verifier::when_used_as_spec(spec_bits)]
    pub fn bits(&self) -> (bits: u8)
        ensures
            bits == self.spec_bits(),
            bits & !1u8 == 0,
    {
        proof {
            use_type_invariant(self);
        }
        self.bits
    }

    /// Whether every flag of `other` is set in these flags.
    pub fn contains(&self, other: IdentityFlags) -> (contained: bool)
        ensures
            contained == (self.spec_bits() & other.spec_bits() == other.spec_bits()),
    {
        self.bits & other.bits == other.bits
    }
}

/// Whom a message is for.
#[derive(Clone, Debug, PartialEq)]
pub enum NodeDestination<PubKey> {
    /// The destination is not known.
    Unknown,
    /// The node with the given public key.
    PublicKey(PubKey),
    /// The node with the given identifier.
    NodeId(NodeId),
}

/// The header of a message: who sent it, whom it is for, and the sender's
/// signature.
#[derive(Clone, Debug, PartialEq)]
pub struct MessageEnvelopeHeader<PubKey> {
    pub version: u8,
    pub source: PubKey,
    pub dest: NodeDestination<PubKey>,
    pub signature: Vec<u8>,
    pub flags: IdentityFlags,
}

impl<PubKey> MessageEnvelopeHeader<PubKey> {
    /// The header of the given parts.
    pub fn new(
        version: u8,
        source: PubKey,
        dest: NodeDestination<PubKey>,
        signature: Vec<u8>,
        flags: IdentityFlags,
    ) -> (header: MessageEnvelopeHeader<PubKey>)
        ensures
            header.version == version,
            header.source == source,
            header.dest == dest,
            header.signature == signature,
            header.flags == flags,
    {
        MessageEnvelopeHeader { version, source, dest, signature, flags }
    }
}

/// A message that is about to go on the wire or has just come off it: three
/// frames, of which the first holds the version, the second the header and
/// the third the body.
pub struct MessageEnvelope {
    frames: FrameSet,
}

impl View for MessageEnvelope {
    type V = Seq<Seq<u8>>;

    closed spec fn view(&self) -> Seq<Seq<u8>> {
        frames_of(self.frames)
    }
}

/// The frames of a frame set, each as its bytes.
pub open spec fn frames_of(frames: FrameSet) -> Seq<Seq<u8>> {
    frames@.map_values(|f: Frame| f@)
}

impl MessageEnvelope {
    #[verifier::type_invariant]
    spec fn three_frames(self) -> bool {
        self.frames@.len() == FRAMES_PER_MESSAGE
    }

    /// The envelope of the three given frames.
    pub fn new(version: Frame, header: Frame, body: Frame) -> (envelope: MessageEnvelope)
        ensures
            envelope@ == seq![version@, header@, body@],
    {
        let mut frames: FrameSet = Vec::new();
        frames.push(version);
        frames.push(header);
        frames.push(body);
        assert(frames_of(frames) =~= seq![version@, header@, body@]);
        MessageEnvelope { frames }
    }

    /// The frame that holds the version.
    pub fn version(&self) -> (frame: &Frame)
        ensures
            self@.len() == 3,
            frame@ == self@[0],
    {
        proof {
            use_type_invariant(self);
        }
        &self.frames[0]
    }

    /// The frame that holds the header.
    pub fn header(&self) -> (frame: &Frame)
        ensures
            self@.len() == 3,
            frame@ == self@[1],
    {
        proof {
            use_type_invariant(self);
        }
        &self.frames[1]
    }

    /// The frame that holds the body.
    pub fn body(&self) -> (frame: &Frame)
        ensures
            self@.len() == 3,
            frame@ == self@[2],
    {
        proof {
            use_type_invariant(self);
        }
        &self.frames[2]
    }

    /// The frames of the envelope, in their order.
    pub fn to_frame_set(&self) -> (frames: Result<FrameSet, MessageError>)
        ensures
            frames matches Ok(f) && frames_of(f) == self@,
    {
        proof {
            use_type_invariant(self);
        }
        let mut frames: FrameSet = Vec::new();
        let mut i: usize = 0;
        while i < self.frames.len()
            invariant
                i <= self.frames.len(),
                frames@.len() == i,
                forall|j: int| 0 <= j < i ==> frames@[j]@ == self.frames@[j]@,
            decreases self.frames.len() - i,
        {
            frames.push(copy_frame(&self.frames[i]));
            i += 1;
        }
        assert(frames_of(frames) =~= frames_of(self.frames));
        Ok(frames)
    }

    /// The envelope of a frame set, which must have exactly three frames.
    pub fn try_from(frames: FrameSet) -> (envelope: Result<MessageEnvelope, MessageError>)
        ensures
            envelope is Ok <==> frames@.len() == FRAMES_PER_MESSAGE,
            envelope matches Ok(e) ==> e@ == frames_of(frames),
            envelope matches Err(e) ==> e == MessageError::MalformedMultipart,
    {
        if frames.len() != FRAMES_PER_MESSAGE {
            return Err(MessageError::MalformedMultipart);
        }
        Ok(MessageEnvelope { frames })
    }
}

/// A copy of a frame.
fn copy_frame(frame: &Frame) -> (copy: Frame)
    ensures
        copy@ == frame@,
{
    let mut copy: Frame = Vec::new();
    copy.extend_from_slice(frame.as_slice());
    copy
}

} // verus!
