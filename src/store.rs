use vstd::prelude::*;
use crate::error::StorageError;
use crate::model::VerificationCode;

verus! {

/// The live codes of a store, keyed by code text.
pub type LiveCodes = Map<Seq<char>, VerificationCode>;

/// `str`'s `==` compares the characters.
pub assume_specification[ <str as PartialEq>::eq ](s: &str, other: &str) -> (r: bool)
    ensures
        r == (s@ == other@),
;

/// Some live record has id `id`.
pub open spec fn id_is_live(m: LiveCodes, id: u128) -> bool {
    exists|k: Seq<char>| #[trigger] m.contains_key(k) && m[k].id == id
}

/// Each live code is the code of the record it maps to.
pub open spec fn keyed_by_code(m: LiveCodes) -> bool {
    forall|k: Seq<char>| #[trigger] m.contains_key(k) ==> m[k].code@ == k
}

/// What inserting `rec` does: a code or an id that is already live is a
/// conflict.
pub open spec fn create_spec(m: LiveCodes, rec: VerificationCode) -> (LiveCodes, Result<(), StorageError>) {
    if m.contains_key(rec.code@) || id_is_live(m, rec.id) {
        (m, Err(StorageError::Conflict))
    } else {
        (m.insert(rec.code@, rec), Ok(()))
    }
}

/// What redeeming `code` does: the live record is removed and handed back in
/// one step; a code that is not live is `NotFound` and changes nothing.
pub open spec fn redeem_spec(m: LiveCodes, code: Seq<char>) -> (LiveCodes, Result<VerificationCode, StorageError>) {
    if m.contains_key(code) {
        (m.remove(code), Ok(m[code]))
    } else {
        (m, Err(StorageError::NotFound))
    }
}

/// The results of `n` redemptions of one code, one after another.
pub open spec fn redeem_repeatedly(m: LiveCodes, code: Seq<char>, n: nat) -> Seq<Result<VerificationCode, StorageError>>
    decreases n,
{
    if n == 0 {
        Seq::empty()
    } else {
        let (next, first) = redeem_spec(m, code);
        seq![first] + redeem_repeatedly(next, code, (n - 1) as nat)
    }
}

/// A verification-code store whose redeem is an atomic find-and-delete:
/// it is the only way a code is read, so each code is redeemed at most once.
pub struct CodeStore {
    records: Vec<VerificationCode>,
    live: Ghost<LiveCodes>,
}

impl View for CodeStore {
    type V = LiveCodes;

    closed spec fn view(&self) -> LiveCodes {
        self.live@
    }
}

impl CodeStore {
    /// The records are exactly the live codes, each code held once.
    pub closed spec fn wf(&self) -> bool {
        &&& forall|i: int|
            0 <= i < self.records@.len() ==> {
                &&& self.live@.contains_key(#[trigger] self.records@[i].code@)
                &&& self.live@[self.records@[i].code@] == self.records@[i]
            }
        &&& forall|k: Seq<char>|
            #[trigger] self.live@.contains_key(k) ==> exists|i: int|
                0 <= i < self.records@.len() && #[trigger] self.records@[i].code@ == k
        &&& self.live@.dom().finite()
        &&& forall|i: int, j: int|
            0 <= i < j < self.records@.len() ==> #[trigger] self.records@[i].code@
                != #[trigger] self.records@[j].code@
    }

    /// A well-formed store's live codes are finitely many, each keyed by
    /// its own code.
    pub proof fn lemma_wf_view(&self)
        requires
            self.wf(),
        ensures
            self@.dom().finite(),
            keyed_by_code(self@),
    {
        assert forall|k: Seq<char>| #[trigger] self@.contains_key(k) implies self@[k].code@ == k by {
            let i = choose|i: int| 0 <= i < self.records@.len() && #[trigger] self.records@[i].code@ == k;
        }
    }

    /// Index of the record with id `id`, if any.
    fn position_of_id(&self, id: u128) -> (r: Option<usize>)
        requires
            self.wf(),
        ensures
            r is None <==> !id_is_live(self@, id),
    {
        let mut i: usize = 0;
        while i < self.records.len()
            invariant
                self.wf(),
                i <= self.records@.len(),
                forall|j: int| 0 <= j < i ==> #[trigger] self.records@[j].id != id,
            decreases self.records@.len() - i,
        {
            if self.records[i].id == id {
                proof {
                    let k = self.records@[i as int].code@;
                    assert(self@.contains_key(k) && self@[k].id == id);
                }
                return Some(i);
            }
            i = i + 1;
        }
        proof {
            if id_is_live(self@, id) {
                let k = choose|k: Seq<char>| #[trigger] self@.contains_key(k) && self@[k].id == id;
                let j = choose|j: int| 0 <= j < self.records@.len() && #[trigger] self.records@[j].code@ == k;
                assert(self.records@[j].id == id);
            }
        }
        None
    }

    /// An empty store.
    pub fn new() -> (r: CodeStore)
        ensures
            r.wf(),
            r@.dom().finite(),
            r@ == LiveCodes::empty(),
    {
        let r = CodeStore { records: Vec::new(), live: Ghost(Map::empty()) };
        assert(r@.dom() =~= Set::empty());
        r
    }

    /// Index of the record that holds `code`, if any.
    fn position(&self, code: &str) -> (r: Option<usize>)
        requires
            self.wf(),
        ensures
            r is None <==> !self@.contains_key(code@),
            r matches Some(i) ==> i < self.records@.len() && self.records@[i as int].code@ == code@,
    {
        let mut i: usize = 0;
        while i < self.records.len()
            invariant
                self.wf(),
                i <= self.records@.len(),
                forall|j: int| 0 <= j < i ==> #[trigger] self.records@[j].code@ != code@,
            decreases self.records@.len() - i,
        {
            if <str as PartialEq>::eq(self.records[i].code.as_str(), code) {
                return Some(i);
            }
            i = i + 1;
        }
        proof {
            if self@.contains_key(code@) {
                let j = choose|j: int| 0 <= j < self.records@.len() && #[trigger] self.records@[j].code@ == code@;
                assert(self.records@[j].code@ == code@);
            }
        }
        None
    }

    /// Whether `code` is live.
    pub fn contains(&self, code: &str) -> (r: bool)
        requires
            self.wf(),
        ensures
            r == self@.contains_key(code@),
    {
        self.position(code).is_some()
    }

    /// Inserts `rec` as a live code; fails with `Conflict` if its code or its
    /// id is already live.
    pub fn create(&mut self, rec: VerificationCode) -> (r: Result<(), StorageError>)
        requires
            old(self).wf(),
        ensures
            final(self).wf(),
            final(self)@.dom().finite(),
            keyed_by_code(final(self)@),
            (final(self)@, r) == create_spec(old(self)@, rec),
    {
        if self.position(rec.code.as_str()).is_some() || self.position_of_id(rec.id).is_some() {
            return Err(StorageError::Conflict);
        }
        let ghost old_records = self.records@;
        let ghost k = rec.code@;
        self.records.push(rec);
        self.live = Ghost(self.live@.insert(k, self.records@[old_records.len() as int]));
        proof {
            assert forall|k2: Seq<char>| #[trigger] self.live@.contains_key(k2) implies exists|i: int|
                0 <= i < self.records@.len() && #[trigger] self.records@[i].code@ == k2 by {
                if k2 == k {
                    assert(self.records@[old_records.len() as int].code@ == k2);
                } else {
                    let j = choose|j: int| 0 <= j < old_records.len() && #[trigger] old_records[j].code@ == k2;
                    assert(self.records@[j].code@ == k2);
                }
            }
            self.lemma_wf_view();
        }
        Ok(())
    }

    /// Atomically finds and removes the record holding `code`, and hands it
    /// back; `NotFound` if the code is not live (never issued, or already
    /// redeemed).
    pub fn redeem(&mut self, code: &str) -> (r: Result<VerificationCode, StorageError>)
        requires
            old(self).wf(),
        ensures
            final(self).wf(),
            final(self)@.dom().finite(),
            keyed_by_code(final(self)@),
            (final(self)@, r) == redeem_spec(old(self)@, code@),
            r matches Ok(rec) ==> rec.code@ == code@,
    {
        proof {
            self.lemma_wf_view();
        }
        match self.position(code) {
            None => Err(StorageError::NotFound),
            Some(i) => {
                let ghost old_records = self.records@;
                let ghost old_live = self.live@;
                let rec = self.records.remove(i);
                self.live = Ghost(old_live.remove(code@));
                proof {
                    assert forall|a: int|
                        0 <= a < self.records@.len() implies {
                            &&& self.live@.contains_key(#[trigger] self.records@[a].code@)
                            &&& self.live@[self.records@[a].code@] == self.records@[a]
                        } by {
                        if a < i {
                            assert(self.records@[a] == old_records[a]);
                        } else {
                            assert(self.records@[a] == old_records[a + 1]);
                        }
                    }
                    assert forall|k2: Seq<char>| #[trigger] self.live@.contains_key(k2) implies exists|a: int|
                        0 <= a < self.records@.len() && #[trigger] self.records@[a].code@ == k2 by {
                        let j = choose|j: int| 0 <= j < old_records.len() && #[trigger] old_records[j].code@ == k2;
                        if j < i {
                            assert(self.records@[j].code@ == k2);
                        } else {
                            assert(j != i);
                            assert(self.records@[j - 1].code@ == k2);
                        }
                    }
                    assert forall|a: int, b: int|
                        0 <= a < b < self.records@.len() implies #[trigger] self.records@[a].code@
                            != #[trigger] self.records@[b].code@ by {
                        let oa = if a < i { a } else { a + 1 };
                        let ob = if b < i { b } else { b + 1 };
                        assert(old_records[oa].code@ != old_records[ob].code@);
                    }
                    self.lemma_wf_view();
                }
                Ok(rec)
            }
        }
    }
}

/// A record just inserted under a code and an id that were not live is what
/// the next redemption of that code hands back, and that redemption leaves
/// the live codes as they were before the insert.
pub proof fn lemma_create_then_redeem(m: LiveCodes, rec: VerificationCode)
    requires
        !m.contains_key(rec.code@),
        !id_is_live(m, rec.id),
    ensures
        create_spec(m, rec).1 is Ok,
        redeem_spec(create_spec(m, rec).0, rec.code@).1 == Ok::<VerificationCode, StorageError>(rec),
        redeem_spec(create_spec(m, rec).0, rec.code@).0 == m,
{
    assert(m.insert(rec.code@, rec).remove(rec.code@) =~= m);
}

/// A successful insert adds exactly one live record, whose code and id are
/// new to the store, and keeps every record that was live before.
pub proof fn lemma_create_adds_one(m: LiveCodes, rec: VerificationCode)
    requires
        m.dom().finite(),
        create_spec(m, rec).1 is Ok,
    ensures
        create_spec(m, rec).0.dom().len() == m.dom().len() + 1,
        create_spec(m, rec).0[rec.code@] == rec,
        forall|k: Seq<char>| #[trigger] m.contains_key(k) ==> k != rec.code@ && m[k].id != rec.id
            && create_spec(m, rec).0.contains_key(k) && create_spec(m, rec).0[k] == m[k],
{
}

/// Redeeming a code a second time always fails with `NotFound`, whatever the
/// first redemption returned.
pub proof fn lemma_redeem_twice(m: LiveCodes, code: Seq<char>)
    ensures
        redeem_spec(redeem_spec(m, code).0, code).1 == Err::<VerificationCode, StorageError>(StorageError::NotFound),
        redeem_spec(m, code).1 is Ok <==> m.contains_key(code),
{
}

/// Once a code is not live, every further redemption of it fails with
/// `NotFound`.
pub proof fn lemma_redeem_dead_code(m: LiveCodes, code: Seq<char>, n: nat)
    requires
        !m.contains_key(code),
    ensures
        redeem_repeatedly(m, code, n).len() == n,
        forall|i: int| 0 <= i < n ==> #[trigger] redeem_repeatedly(m, code, n)[i]
            == Err::<VerificationCode, StorageError>(StorageError::NotFound),
    decreases n,
{
    if n > 0 {
        lemma_redeem_dead_code(m, code, (n - 1) as nat);
        let s = redeem_repeatedly(m, code, n);
        let rest = redeem_repeatedly(m, code, (n - 1) as nat);
        assert forall|i: int| 0 <= i < n implies #[trigger] s[i]
            == Err::<VerificationCode, StorageError>(StorageError::NotFound) by {
            if i > 0 {
                assert(s[i] == rest[i - 1]);
            }
        }
    }
}

/// Of `n` redemptions of one live code, racing through the atomic redeem in
/// whatever order, exactly one succeeds (the first to arrive, with the
/// record) and the other `n - 1` fail with `NotFound`.
pub proof fn lemma_single_success(m: LiveCodes, code: Seq<char>, n: nat)
    requires
        m.contains_key(code),
        n >= 1,
    ensures
        redeem_repeatedly(m, code, n).len() == n,
        redeem_repeatedly(m, code, n)[0] == Ok::<VerificationCode, StorageError>(m[code]),
        forall|i: int| 1 <= i < n ==> #[trigger] redeem_repeatedly(m, code, n)[i]
            == Err::<VerificationCode, StorageError>(StorageError::NotFound),
{
    let rest_m = m.remove(code);
    lemma_redeem_dead_code(rest_m, code, (n - 1) as nat);
    let s = redeem_repeatedly(m, code, n);
    let rest = redeem_repeatedly(rest_m, code, (n - 1) as nat);
    assert forall|i: int| 1 <= i < n implies #[trigger] s[i]
        == Err::<VerificationCode, StorageError>(StorageError::NotFound) by {
        assert(s[i] == rest[i - 1]);
    }
}

} // verus!
