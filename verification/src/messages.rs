//! Inbound and outbound message envelopes and their type tags.
use vstd::prelude::*;

verus! {

use crate::errors::SpokeError;

/// The message-type discriminant carried in the first word of every
/// cross-domain message.
#[derive(Clone, Copy, Debug, PartialEq, Eq, Structural)]
pub enum MessageType {
    Intent,
    Fill,
    Settlement,
    VarUpdate,
}

impl MessageType {
    /// The wire byte of each message type.
    pub open spec fn as_byte_spec(self) -> u8 {
        match self {
            MessageType::Intent => 0,
            MessageType::Fill => 1,
            MessageType::Settlement => 2,
            MessageType::VarUpdate => 3,
        }
    }

    /// Returns the wire byte of this message type.
    pub fn as_byte(self) -> (r: u8)
        ensures
            r == self.as_byte_spec(),
    {
        match self {
            MessageType::Intent => 0,
            MessageType::Fill => 1,
            MessageType::Settlement => 2,
            MessageType::VarUpdate => 3,
        }
    }

    /// The message type a wire byte names, or the byte itself if unknown.
    pub open spec fn from_byte_spec(value: u8) -> Result<MessageType, u8> {
        if value == 0 {
            Ok(MessageType::Intent)
        } else if value == 1 {
            Ok(MessageType::Fill)
        } else if value == 2 {
            Ok(MessageType::Settlement)
        } else if value == 3 {
            Ok(MessageType::VarUpdate)
        } else {
            Err(value)
        }
    }

    /// Decodes a wire byte into a message type; unknown bytes are returned
    /// unchanged as the error.
    pub fn from_byte(value: u8) -> (r: Result<MessageType, u8>)
        ensures
            r == Self::from_byte_spec(value),
    {
        match value {
            0 => Ok(MessageType::Intent),
            1 => Ok(MessageType::Fill),
            2 => Ok(MessageType::Settlement),
            3 => Ok(MessageType::VarUpdate),
            _ => Err(value),
        }
    }
}

/// An inbound message as the relay delivers it: the origin domain it claims,
/// the sender identity on that domain, and the raw message bytes.
#[derive(Clone, Debug)]
pub struct HandleInstruction {
    pub origin: u32,
    pub sender: [u8; 32],
    pub message: Vec<u8>,
}

/// An inbound message split into its type word and the remaining payload.
pub struct HyperlaneMessages {
    pub message_type: MessageType,
    pub rest: Vec<u8>,
}

impl HyperlaneMessages {
    /// Splits a raw message into its leading type word and the payload that
    /// follows.  The type is the low byte of the first 32-byte word; a short
    /// message or an unknown type byte is an invalid message.
    pub fn parse(bytes: &[u8]) -> (r: Result<HyperlaneMessages, SpokeError>)
        ensures
            match r {
                Ok(m) => {
                    &&& bytes@.len() >= 32
                    &&& MessageType::from_byte_spec(bytes@[31]) == Ok::<MessageType, u8>(
                        m.message_type,
                    )
                    &&& m.rest@ == bytes@.skip(32)
                },
                Err(e) => {
                    &&& e == SpokeError::InvalidMessage
                    &&& (bytes@.len() < 32 || MessageType::from_byte_spec(bytes@[31]) is Err)
                },
            },
    {
        if bytes.len() < 32 {
            return Err(SpokeError::InvalidMessage);
        }
        let message_type = match MessageType::from_byte(bytes[31]) {
            Ok(t) => t,
            Err(_) => {
                return Err(SpokeError::InvalidMessage);
            },
        };
        let mut rest: Vec<u8> = Vec::new();
        let n: usize = bytes.len();
        let mut i: usize = 32;
        while i < n
            invariant
                32 <= i <= n,
                n == bytes@.len(),
                rest@ == bytes@.subrange(32, i as int),
            decreases n - i,
        {
            rest.push(bytes[i]);
            proof {
                assert(bytes@.subrange(32, i + 1) == bytes@.subrange(32, i as int).push(
                    bytes@[i as int],
                ));
            }
            i += 1;
        }
        proof {
            assert(rest@ =~= bytes@.skip(32));
        }
        Ok(HyperlaneMessages { message_type, rest })
    }
}

} // verus!
