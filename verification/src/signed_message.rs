//! The envelope of all traffic between client and server: a type, an inner
//! message, a signature over it and, in a license response, the wrapped session
//! key.

use crate::fieldset::{
    group_numbers, group_read, group_typed, group_valid, group_write, int32, opt_bytes_field,
    opt_varint_field, put_opt_bytes, put_opt_varint, raw_int32, spec_int32, spec_raw_int32,
};
use crate::lookup::{
    all_typed, last_bytes, last_varint, lemma_opt_bytes_fit, opt_bytes_view, opt_fits, or_empty,
    spec_bytes_field, spec_typed, spec_varint_field, WIRE_BYTES, WIRE_VARINT,
};
use crate::wire::{
    lemma_fields_roundtrip, parse_fields, spec_encode_fields, spec_parse_fields, SpecField,
};
use vstd::prelude::*;

verus! {

/// Message type of a license request.
pub const MESSAGE_LICENSE_REQUEST: i32 = 1;

/// Message type of a license.
pub const MESSAGE_LICENSE: i32 = 2;

/// Message type of a service certificate.
pub const MESSAGE_SERVICE_CERTIFICATE: i32 = 5;

/// A message with the signature over it: the type of the inner message, its
/// bytes, the signature and, where the sender wraps one, a session key.
#[derive(Clone, Debug, PartialEq, Eq)]
pub struct SignedMessage {
    pub message_type: Option<i32>,
    pub msg: Option<Vec<u8>>,
    pub signature: Option<Vec<u8>>,
    pub session_key: Option<Vec<u8>>,
}

/// What a [`SignedMessage`] holds, as mathematical values.
pub struct SpecSignedMessage {
    pub message_type: Option<i32>,
    pub msg: Option<Seq<u8>>,
    pub signature: Option<Seq<u8>>,
    pub session_key: Option<Seq<u8>>,
}

impl View for SignedMessage {
    type V = SpecSignedMessage;

    open spec fn view(&self) -> SpecSignedMessage {
        SpecSignedMessage {
            message_type: self.message_type,
            msg: opt_bytes_view(self.msg),
            signature: opt_bytes_view(self.signature),
            session_key: opt_bytes_view(self.session_key),
        }
    }
}

impl SpecSignedMessage {
    /// The fields of the message, in the order of their numbers.
    pub open spec fn fields(self) -> Seq<SpecField> {
        opt_varint_field(1, spec_raw_int32(self.message_type)) + opt_bytes_field(2, self.msg)
            + opt_bytes_field(3, self.signature) + opt_bytes_field(4, self.session_key)
    }

    /// The bytes of the message.
    pub open spec fn encode(self) -> Seq<u8> {
        spec_encode_fields(self.fields())
    }

    /// The message that a list of fields stands for. Fields 1 to 4 must have
    /// the wire type of their schema; other fields are passed over.
    pub open spec fn from_fields(fs: Seq<SpecField>) -> Option<SpecSignedMessage> {
        if spec_typed(fs, 1, 0) && spec_typed(fs, 2, 2) && spec_typed(fs, 3, 2) && spec_typed(
            fs,
            4,
            2,
        ) {
            Some(
                SpecSignedMessage {
                    message_type: spec_int32(spec_varint_field(fs, 1)),
                    msg: spec_bytes_field(fs, 2),
                    signature: spec_bytes_field(fs, 3),
                    session_key: spec_bytes_field(fs, 4),
                },
            )
        } else {
            None
        }
    }

    /// The message that `bytes` hold, if they hold one.
    pub open spec fn decode(bytes: Seq<u8>) -> Option<SpecSignedMessage> {
        match spec_parse_fields(bytes) {
            Some(fs) => Self::from_fields(fs),
            None => None,
        }
    }

    /// A message that can be written: no part is longer than a length prefix
    /// can say.
    pub open spec fn wf(self) -> bool {
        opt_fits(self.msg) && opt_fits(self.signature) && opt_fits(self.session_key)
    }

    /// The inner message; empty where there is none.
    pub open spec fn msg_or_empty(self) -> Seq<u8> {
        or_empty(self.msg)
    }

    /// The signature; empty where there is none.
    pub open spec fn signature_or_empty(self) -> Seq<u8> {
        or_empty(self.signature)
    }

    /// The wrapped session key; empty where there is none.
    pub open spec fn session_key_or_empty(self) -> Seq<u8> {
        or_empty(self.session_key)
    }
}

/// The bytes of an envelope that can be written read back as its fields.
proof fn lemma_signed_message_parses(m: SpecSignedMessage)
    requires
        m.wf(),
    ensures
        spec_parse_fields(m.encode()) == Some(m.fields()),
{
    broadcast use group_valid;

    lemma_fields_roundtrip(m.fields());
}

/// Each field of an envelope has the wire type of its schema.
proof fn lemma_signed_message_typed(m: SpecSignedMessage)
    ensures
        spec_typed(m.fields(), 1, 0),
        spec_typed(m.fields(), 2, 2),
        spec_typed(m.fields(), 3, 2),
        spec_typed(m.fields(), 4, 2),
{
    broadcast use group_typed;

}

/// The readers find in the fields of an envelope what was written.
proof fn lemma_signed_message_read(m: SpecSignedMessage)
    ensures
        spec_varint_field(m.fields(), 1) == spec_raw_int32(m.message_type),
        spec_bytes_field(m.fields(), 2) == m.msg,
        spec_bytes_field(m.fields(), 3) == m.signature,
        spec_bytes_field(m.fields(), 4) == m.session_key,
{
    broadcast use group_read;

}

/// Reading back a written envelope gives the envelope.
pub proof fn lemma_signed_message_roundtrip(m: SpecSignedMessage)
    requires
        m.wf(),
    ensures
        SpecSignedMessage::decode(m.encode()) == Some(m),
{
    broadcast use group_numbers;

    lemma_signed_message_parses(m);
    lemma_signed_message_typed(m);
    lemma_signed_message_read(m);
}

impl SignedMessage {
    /// The bytes of the message.
    pub fn encode_to_vec(&self) -> (out: Vec<u8>)
        ensures
            out@ == self@.encode(),
            self@.wf(),
    {
        broadcast use group_write;

        proof {
            lemma_opt_bytes_fit(self.msg);
            lemma_opt_bytes_fit(self.signature);
            lemma_opt_bytes_fit(self.session_key);
        }

        let mut out: Vec<u8> = Vec::new();
        put_opt_varint(&mut out, 1, raw_int32(self.message_type));
        put_opt_bytes(&mut out, 2, &self.msg);
        put_opt_bytes(&mut out, 3, &self.signature);
        put_opt_bytes(&mut out, 4, &self.session_key);
        assert(out@ =~= self@.encode());
        out
    }

    /// Reads a message. `None` where the bytes are no message, or where one of
    /// the fields 1 to 4 has another wire type than its schema gives it.
    pub fn decode(bytes: &[u8]) -> (r: Option<SignedMessage>)
        ensures
            match r {
                Some(m) => SpecSignedMessage::decode(bytes@) == Some(m@),
                None => SpecSignedMessage::decode(bytes@) is None,
            },
    {
        let fields = match parse_fields(bytes) {
            Some(fields) => fields,
            None => { return None; },
        };
        if !(all_typed(&fields, 1, WIRE_VARINT) && all_typed(&fields, 2, WIRE_BYTES) && all_typed(
            &fields,
            3,
            WIRE_BYTES,
        ) && all_typed(&fields, 4, WIRE_BYTES)) {
            return None;
        }
        Some(
            SignedMessage {
                message_type: int32(last_varint(&fields, 1)),
                msg: last_bytes(&fields, 2),
                signature: last_bytes(&fields, 3),
                session_key: last_bytes(&fields, 4),
            },
        )
    }
}

} // verus!
