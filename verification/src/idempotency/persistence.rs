use crate::idempotency::key::IdempotencyKey;
use crate::keyed::{as_map, distinct_keys, lemma_absent_key, lemma_empty, lemma_entry_in_map, lemma_push, lemma_size};
use vstd::prelude::*;

verus! {

/// The identity of an authenticated caller.
pub type UserId = u128;

/// One header of a captured response: its name and the bytes of its value.
#[derive(Debug, PartialEq, Eq)]
pub struct HeaderPair {
    pub name: String,
    pub value: Vec<u8>,
}

impl View for HeaderPair {
    type V = (Seq<char>, Seq<u8>);

    open spec fn view(&self) -> (Seq<char>, Seq<u8>) {
        (self.name@, self.value@)
    }
}

impl Clone for HeaderPair {
    fn clone(&self) -> (copy: Self)
        ensures
            copy@ == self@,
    {
        HeaderPair { name: self.name.clone(), value: self.value.clone() }
    }
}

/// What a captured response is, as plain values.
pub ghost struct ResponseView {
    pub status_code: u16,
    pub headers: Seq<(Seq<char>, Seq<u8>)>,
    pub body: Seq<u8>,
}

/// The views of a sequence of headers, in order.
pub open spec fn header_views(headers: Seq<HeaderPair>) -> Seq<(Seq<char>, Seq<u8>)> {
    headers.map_values(|h: HeaderPair| h@)
}

/// An HTTP response captured byte for byte: status, headers and body.
#[derive(Debug, PartialEq, Eq)]
pub struct CachedResponse {
    pub status_code: u16,
    pub headers: Vec<HeaderPair>,
    pub body: Vec<u8>,
}

impl View for CachedResponse {
    type V = ResponseView;

    open spec fn view(&self) -> ResponseView {
        ResponseView {
            status_code: self.status_code,
            headers: header_views(self.headers@),
            body: self.body@,
        }
    }
}

impl Clone for CachedResponse {
    fn clone(&self) -> (copy: Self)
        ensures
            copy@ == self@,
    {
        let mut headers: Vec<HeaderPair> = Vec::new();
        let mut i: usize = 0;
        while i < self.headers.len()
            invariant
                i <= self.headers.len(),
                header_views(headers@) == header_views(self.headers@.take(i as int)),
            decreases self.headers.len() - i,
        {
            let header = self.headers[i].clone();
            proof {
                let before = self.headers@.take(i as int);
                assert(self.headers@.take(i + 1) == before.push(self.headers@[i as int]));
                assert(header_views(headers@.push(header)) == header_views(headers@).push(header@));
                assert(header_views(before.push(self.headers@[i as int])) == header_views(
                    before,
                ).push(self.headers@[i as int]@));
            }
            headers.push(header);
            i += 1;
        }
        proof {
            assert(self.headers@.take(i as int) == self.headers@);
        }
        CachedResponse { status_code: self.status_code, headers, body: self.body.clone() }
    }
}

/// The answer of a save that found the caller and key already taken.
#[derive(Debug, Clone, Copy, PartialEq, Eq, Structural)]
pub struct Conflict;

/// One stored response with the caller and key that it belongs to.
struct IdempotencyRecord {
    user_id: UserId,
    key: IdempotencyKey,
    response: CachedResponse,
}

/// The responses captured so far, at most one for each caller and key.
pub struct FingerprintStore {
    records: Vec<IdempotencyRecord>,
}

impl View for FingerprintStore {
    type V = Map<(UserId, Seq<char>), ResponseView>;

    closed spec fn view(&self) -> Map<(UserId, Seq<char>), ResponseView> {
        as_map(self.pairs())
    }
}

impl FingerprintStore {
    spec fn pairs(&self) -> Seq<((UserId, Seq<char>), ResponseView)> {
        self.records@.map_values(|r: IdempotencyRecord| ((r.user_id, r.key@), r.response@))
    }

    #[verifier::type_invariant]
    spec fn one_record_per_key(&self) -> bool {
        distinct_keys(self.pairs())
    }

    /// A store without records.
    pub fn new() -> (store: FingerprintStore)
        ensures
            store@ == Map::<(UserId, Seq<char>), ResponseView>::empty(),
    {
        let store = FingerprintStore { records: Vec::new() };
        proof {
            lemma_empty::<(UserId, Seq<char>), ResponseView>();
            assert(store.pairs() == Seq::<((UserId, Seq<char>), ResponseView)>::empty());
        }
        store
    }

    /// How many responses are stored.
    pub fn len(&self) -> (count: usize)
        ensures
            self@.dom().finite(),
            count == self@.dom().len(),
    {
        proof {
            use_type_invariant(self);
            lemma_size(self.pairs());
        }
        self.records.len()
    }

    /// The response stored for `user_id` and `key`, if there is one. The
    /// store is left as it was.
    pub fn lookup(&self, user_id: UserId, key: &IdempotencyKey) -> (found: Option<CachedResponse>)
        ensures
            found is Some <==> self@.contains_key((user_id, key@)),
            found matches Some(response) ==> response@ == self@[(user_id, key@)],
    {
        proof {
            use_type_invariant(self);
        }
        let mut i: usize = 0;
        while i < self.records.len()
            invariant
                i <= self.records.len(),
                distinct_keys(self.pairs()),
                forall|j: int| 0 <= j < i ==> (#[trigger] self.pairs()[j]).0 != (user_id, key@),
            decreases self.records.len() - i,
        {
            let record = &self.records[i];
            if record.user_id == user_id && record.key.same_as(key) {
                proof {
                    lemma_entry_in_map(self.pairs(), i as int);
                }
                return Some(record.response.clone());
            }
            i += 1;
        }
        proof {
            lemma_absent_key(self.pairs(), (user_id, key@));
        }
        None
    }

    /// Stores `response` for `user_id` and `key`. Where a response is stored
    /// for them already, nothing changes and the save reports the conflict.
    pub fn save(&mut self, user_id: UserId, key: IdempotencyKey, response: CachedResponse) -> (saved:
        Result<(), Conflict>)
        ensures
            saved is Err <==> old(self)@.contains_key((user_id, key@)),
            saved is Err ==> final(self)@ == old(self)@,
            saved is Ok ==> final(self)@ == old(self)@.insert((user_id, key@), response@),
    {
        proof {
            use_type_invariant(&*self);
        }
        let mut i: usize = 0;
        while i < self.records.len()
            invariant
                i <= self.records.len(),
                *self == *old(self),
                distinct_keys(self.pairs()),
                forall|j: int| 0 <= j < i ==> (#[trigger] self.pairs()[j]).0 != (user_id, key@),
            decreases self.records.len() - i,
        {
            if self.records[i].user_id == user_id && self.records[i].key.same_as(&key) {
                proof {
                    lemma_entry_in_map(self.pairs(), i as int);
                }
                return Err(Conflict);
            }
            i += 1;
        }
        proof {
            lemma_absent_key(self.pairs(), (user_id, key@));
            let entry = ((user_id, key@), response@);
            lemma_push(self.pairs(), entry);
            let record = IdempotencyRecord { user_id, key, response };
            assert(self.records@.push(record).map_values(
                |r: IdempotencyRecord| ((r.user_id, r.key@), r.response@),
            ) == self.pairs().push(entry));
        }
        let mut records: Vec<IdempotencyRecord> = Vec::new();
        core::mem::swap(&mut self.records, &mut records);
        records.push(IdempotencyRecord { user_id, key, response });
        self.records = records;
        Ok(())
    }
}

} // verus!
