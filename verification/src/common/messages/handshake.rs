use crate::common::UserName;
use crate::connection::wire::{
    lemma_encoded_at_subrange, lemma_text_at_read, lemma_text_at_written, put_text, take_text,
    text_at, text_bytes,
};
use crate::connection::{ConnectionError, FrameType};
use vstd::prelude::*;

verus! {

/// The first frame of every connection: the name the client asks for.
#[derive(Debug, PartialEq, Eq)]
pub struct Handshake(pub UserName);

impl View for Handshake {
    type V = Seq<char>;

    open spec fn view(&self) -> Seq<char> {
        self.0@
    }
}

impl DeepView for Handshake {
    type V = Seq<char>;

    open spec fn deep_view(&self) -> Seq<char> {
        self@
    }
}

impl Clone for Handshake {
    fn clone(&self) -> (copy: Self)
        ensures
            copy@ == self@,
    {
        Handshake(self.0.clone())
    }
}

impl FrameType for Handshake {
    open spec fn payload(value: Seq<char>) -> Seq<u8> {
        text_bytes(value)
    }

    open spec fn decoded(data: Seq<u8>) -> Option<Seq<char>> {
        match text_at(data, 0) {
            Some((name, end)) => if end == data.len() {
                Some(name)
            } else {
                None
            },
            None => None,
        }
    }

    proof fn lemma_decoded_payload(value: Seq<char>) {
        let data = text_bytes(value);
        lemma_encoded_at_subrange(data, 0, data);
        assert(data.subrange(0, data.len() as int) =~= data);
        lemma_text_at_written(data, 0, value);
    }

    proof fn lemma_payload_decoded(data: Seq<u8>) {
        lemma_text_at_read(data, 0);
        let name = text_at(data, 0).unwrap().0;
        lemma_encoded_at_subrange(data, 0, text_bytes(name));
        assert(data.subrange(0, data.len() as int) =~= data);
    }

    fn encode(&self) -> (bytes: Vec<u8>) {
        let mut bytes: Vec<u8> = Vec::new();
        put_text(&mut bytes, self.0.user_name());
        assert(bytes@ =~= text_bytes(self@));
        bytes
    }

    fn decode(data: &[u8]) -> (value: Result<Self, ConnectionError>) {
        let value: Result<Self, ConnectionError> = {
            match take_text(data, 0) {
                Some((name, end)) => if end == data.len() {
                    Ok(Handshake(UserName::from(name)))
                } else {
                    Err(ConnectionError::DecodingFailure)
                },
                None => Err(ConnectionError::DecodingFailure),
            }
        };
        let len = data.len();
        proof {
            assert(data@.len() == len);
            if value is Ok {
                Self::lemma_payload_decoded(data@);
            } else {
                Self::lemma_undecoded_is_no_payload(data@);
            }
        }
        value
    }
}

} // verus!
