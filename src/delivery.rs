//! One submission to the listens endpoint, and what becomes of its listen
//! when it is not delivered.

use vstd::prelude::*;
use crate::cache::{PendingListen, pending_file_name, pending_name, persisted, reconcile_body};
use crate::wire::{ListenType, byte_views, encode_listens, listen_request};

verus! {

/// A listen ready to be sent.
pub struct Submission {
    pub listen_type: ListenType,
    /// The encoded payload object.
    pub payload: Vec<u8>,
    /// When the listen was made, for a final listen.
    pub listened_at: Option<u64>,
    /// Whether the service was reachable when the listen was made; when it
    /// was not, nothing is sent and a final listen goes to the cache.
    pub send: bool,
}

/// The file a final listen is cached in.
pub open spec fn pending_of(listened_at: u64, payload: Seq<u8>) -> (Seq<u8>, Seq<u8>) {
    (pending_name(listened_at as nat), payload)
}

impl Submission {
    /// The request body: the payload alone in a payload array.
    pub fn request(&self) -> (r: Vec<u8>)
        ensures
            r@ == listen_request(self.listen_type, seq![self.payload@]),
    {
        let mut payloads: Vec<Vec<u8>> = Vec::new();
        let mut copy: Vec<u8> = Vec::new();
        copy.extend_from_slice(self.payload.as_slice());
        assert(copy@ =~= self.payload@);
        let ghost c = copy;
        payloads.push(copy);
        assert(payloads@ =~= seq![c]);
        assert(byte_views(payloads@) =~= seq![self.payload@]);
        encode_listens(self.listen_type, &payloads)
    }

    /// What is written to the cache once the attempt is over: nothing when
    /// the service accepted the request or the listen is not final,
    /// otherwise the payload under the name of its `listened_at`.
    pub fn fallback(&self, accepted: bool) -> (r: Option<PendingListen>)
        ensures
            match r {
                Some(p) => {
                    &&& !(self.send && accepted)
                    &&& self.listened_at is Some
                    &&& (p.name@, p.contents@) == pending_of(
                        self.listened_at.unwrap(),
                        self.payload@,
                    )
                },
                None => (self.send && accepted) || self.listened_at is None,
            },
    {
        if self.send && accepted {
            return None;
        }
        match self.listened_at {
            Some(t) => {
                let mut contents: Vec<u8> = Vec::new();
                contents.extend_from_slice(self.payload.as_slice());
                assert(contents@ =~= self.payload@);
                Some(PendingListen { name: pending_file_name(t), contents })
            },
            None => None,
        }
    }
}

/// A final listen that is cached and later reconciled on its own is sent
/// byte for byte as the request that would have delivered it directly.
pub proof fn lemma_cached_listen_round_trip(listened_at: u64, payload: Seq<u8>)
    ensures
        reconcile_body(
            persisted(
                Seq::empty(),
                pending_of(listened_at, payload).0,
                pending_of(listened_at, payload).1,
            ),
        ) == Some(listen_request(ListenType::Single, seq![payload])),
{
    let files = persisted(Seq::empty(), pending_name(listened_at as nat), payload);
    assert(files =~= seq![(pending_name(listened_at as nat), payload)]);
    assert(files.map_values(|f: (Seq<u8>, Seq<u8>)| f.1) =~= seq![payload]);
}

} // verus!
