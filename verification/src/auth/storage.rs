//! The credential store: every credential ever saved, of which at most one is
//! valid, and the signatures captured per endpoint.

use crate::auth::credentials::{ApiSignature, ApiSignatureView, CredentialsView, UserCredentials};
use crate::error::StorageError;
use vstd::prelude::*;

verus! {

// ---------------------------------------------------------------------------
// The model: a store is a sequence of credential records
// ---------------------------------------------------------------------------
/// At most one record is valid.
pub open spec fn at_most_one_valid(records: Seq<CredentialsView>) -> bool {
    forall|i: int, j: int|
        0 <= i < records.len() && 0 <= j < records.len() && records[i].is_valid
            && records[j].is_valid ==> i == j
}

/// The record `c`, no longer valid.
pub open spec fn revoked(c: CredentialsView) -> CredentialsView {
    CredentialsView { is_valid: false, ..c }
}

/// The records after every one of them has been invalidated.
pub open spec fn invalidated_all(records: Seq<CredentialsView>) -> Seq<CredentialsView> {
    records.map_values(|c: CredentialsView| revoked(c))
}

/// The records after those of user `user_id` have been invalidated.
pub open spec fn invalidated_user(records: Seq<CredentialsView>, user_id: Seq<char>) -> Seq<
    CredentialsView,
> {
    records.map_values(
        |c: CredentialsView|
            if c.user_id == user_id {
                revoked(c)
            } else {
                c
            },
    )
}

/// The records after `c` has been saved: all earlier ones invalidated, `c` added.
pub open spec fn saved(records: Seq<CredentialsView>, c: CredentialsView) -> Seq<CredentialsView> {
    invalidated_all(records).push(c)
}

/// Index of the first valid record, or `records.len()` when none is valid.
pub open spec fn active_index(records: Seq<CredentialsView>) -> nat
    decreases records.len(),
{
    if records.len() == 0 {
        0
    } else if records[0].is_valid {
        0
    } else {
        1 + active_index(records.drop_first())
    }
}

/// The valid record, if there is one.
pub open spec fn active(records: Seq<CredentialsView>) -> Option<CredentialsView> {
    let k = active_index(records) as int;
    if k < records.len() {
        Some(records[k])
    } else {
        None
    }
}

/// Index of the first valid signature captured for `endpoint`, or `signatures.len()`.
pub open spec fn captured_index(signatures: Seq<ApiSignatureView>, endpoint: Seq<char>) -> nat
    decreases signatures.len(),
{
    if signatures.len() == 0 {
        0
    } else if signatures[0].is_valid && signatures[0].endpoint == endpoint {
        0
    } else {
        1 + captured_index(signatures.drop_first(), endpoint)
    }
}

/// The valid signature captured for `endpoint`, if there is one.
pub open spec fn captured(signatures: Seq<ApiSignatureView>, endpoint: Seq<char>) -> Option<
    ApiSignatureView,
> {
    let k = captured_index(signatures, endpoint) as int;
    if k < signatures.len() {
        Some(signatures[k])
    } else {
        None
    }
}

/// One operation on the store.
pub enum StoreOp {
    Save(CredentialsView),
    InvalidateAll,
    InvalidateUser(Seq<char>),
}

/// The records after one operation.
pub open spec fn applied(records: Seq<CredentialsView>, op: StoreOp) -> Seq<CredentialsView> {
    match op {
        StoreOp::Save(c) => saved(records, c),
        StoreOp::InvalidateAll => invalidated_all(records),
        StoreOp::InvalidateUser(id) => invalidated_user(records, id),
    }
}

/// The records after a sequence of operations.
pub open spec fn applied_all(records: Seq<CredentialsView>, ops: Seq<StoreOp>) -> Seq<
    CredentialsView,
>
    decreases ops.len(),
{
    if ops.len() == 0 {
        records
    } else {
        applied(applied_all(records, ops.drop_last()), ops.last())
    }
}

// ---------------------------------------------------------------------------
// Laws of the model
// ---------------------------------------------------------------------------
/// The active index is within bounds, names a valid record if it names any,
/// and no record before it is valid.
pub proof fn lemma_active_index(records: Seq<CredentialsView>)
    ensures
        active_index(records) <= records.len(),
        active_index(records) < records.len() ==> records[active_index(records) as int].is_valid,
        forall|i: int| 0 <= i < active_index(records) ==> !records[i].is_valid,
    decreases records.len(),
{
    if records.len() > 0 && !records[0].is_valid {
        let t = records.drop_first();
        lemma_active_index(t);
        assert forall|i: int| 0 <= i < active_index(records) implies !records[i].is_valid by {
            if i > 0 {
                assert(records[i] == t[i - 1]);
            }
        }
    }
}

/// An index below which no record is valid and at which one is, or which is
/// the length, is the active index.
pub proof fn lemma_active_index_is(records: Seq<CredentialsView>, k: int)
    requires
        0 <= k <= records.len(),
        forall|i: int| 0 <= i < k ==> !records[i].is_valid,
        k < records.len() ==> records[k].is_valid,
    ensures
        active_index(records) == k,
    decreases records.len(),
{
    if records.len() > 0 && !records[0].is_valid {
        let t = records.drop_first();
        assert forall|i: int| 0 <= i < k - 1 implies !t[i].is_valid by {
            assert(t[i] == records[i + 1]);
        }
        if k - 1 < t.len() {
            assert(t[k - 1] == records[k]);
        }
        lemma_active_index_is(t, k - 1);
    }
}

/// An index below which no valid signature is for `endpoint` and at which one
/// is, or which is the length, is the captured index.
pub proof fn lemma_captured_index_is(
    signatures: Seq<ApiSignatureView>,
    endpoint: Seq<char>,
    k: int,
)
    requires
        0 <= k <= signatures.len(),
        forall|i: int|
            0 <= i < k ==> !(signatures[i].is_valid && signatures[i].endpoint == endpoint),
        k < signatures.len() ==> signatures[k].is_valid && signatures[k].endpoint == endpoint,
    ensures
        captured_index(signatures, endpoint) == k,
    decreases signatures.len(),
{
    if signatures.len() > 0 && !(signatures[0].is_valid && signatures[0].endpoint == endpoint) {
        let t = signatures.drop_first();
        assert forall|i: int| 0 <= i < k - 1 implies !(t[i].is_valid && t[i].endpoint
            == endpoint) by {
            assert(t[i] == signatures[i + 1]);
        }
        if k - 1 < t.len() {
            assert(t[k - 1] == signatures[k]);
        }
        lemma_captured_index_is(t, endpoint, k - 1);
    }
}

/// The signature found for an endpoint is valid and was captured for it.
pub proof fn lemma_captured(signatures: Seq<ApiSignatureView>, endpoint: Seq<char>)
    ensures
        captured_index(signatures, endpoint) <= signatures.len(),
        captured(signatures, endpoint) matches Some(s) ==> s.is_valid && s.endpoint == endpoint,
        captured(signatures, endpoint) is None ==> forall|i: int|
            0 <= i < signatures.len() ==> !(signatures[i].is_valid && signatures[i].endpoint
                == endpoint),
    decreases signatures.len(),
{
    if signatures.len() > 0 && !(signatures[0].is_valid && signatures[0].endpoint == endpoint) {
        let t = signatures.drop_first();
        lemma_captured(t, endpoint);
        if captured(signatures, endpoint) is None {
            assert forall|i: int| 0 <= i < signatures.len() implies !(signatures[i].is_valid
                && signatures[i].endpoint == endpoint) by {
                if i > 0 {
                    assert(signatures[i] == t[i - 1]);
                }
            }
        }
    }
}

/// Each operation keeps at most one record valid.
pub proof fn lemma_applied_keeps_invariant(records: Seq<CredentialsView>, op: StoreOp)
    requires
        at_most_one_valid(records),
    ensures
        at_most_one_valid(applied(records, op)),
{
    let after = applied(records, op);
    assert forall|i: int, j: int|
        0 <= i < after.len() && 0 <= j < after.len() && after[i].is_valid
            && after[j].is_valid implies i == j by {
        match op {
            StoreOp::Save(c) => {
                if i < records.len() {
                    assert(!after[i].is_valid);
                }
                if j < records.len() {
                    assert(!after[j].is_valid);
                }
            },
            StoreOp::InvalidateAll => {
                assert(!after[i].is_valid);
            },
            StoreOp::InvalidateUser(id) => {
                assert(records[i].is_valid && records[j].is_valid);
            },
        }
    }
}

/// Whatever sequence of saves and invalidations is applied to a store in which
/// at most one record is valid, at most one record is valid after each of them.
pub proof fn lemma_at_most_one_valid_always(records: Seq<CredentialsView>, ops: Seq<StoreOp>)
    requires
        at_most_one_valid(records),
    ensures
        forall|n: int| 0 <= n <= ops.len() ==> at_most_one_valid(#[trigger] applied_all(records, ops.take(n))),
    decreases ops.len(),
{
    assert forall|n: int| 0 <= n <= ops.len() implies at_most_one_valid(
        #[trigger] applied_all(records, ops.take(n)),
    ) by {
        if n == ops.len() {
            assert(ops.take(n) =~= ops);
            if ops.len() > 0 {
                let front = ops.drop_last();
                lemma_at_most_one_valid_always(records, front);
                assert(front.take(front.len() as int) =~= front);
                lemma_applied_keeps_invariant(applied_all(records, front), ops.last());
            }
        } else {
            let front = ops.drop_last();
            lemma_at_most_one_valid_always(records, front);
            assert(front.take(n) =~= ops.take(n));
        }
    }
}

/// Invalidating everything twice leaves the store as invalidating it once does.
pub proof fn lemma_invalidate_all_idempotent(records: Seq<CredentialsView>)
    ensures
        invalidated_all(invalidated_all(records)) == invalidated_all(records),
        active(invalidated_all(records)) is None,
{
    assert(invalidated_all(invalidated_all(records)) =~= invalidated_all(records));
    lemma_active_index_is(invalidated_all(records), records.len() as int);
}

/// After a valid credential is saved it is the active one, and every record
/// that was there before is invalid.
pub proof fn lemma_saved_wins(records: Seq<CredentialsView>, c: CredentialsView)
    requires
        c.is_valid,
    ensures
        active(saved(records, c)) == Some(c),
        saved(records, c).len() == records.len() + 1,
        forall|i: int| 0 <= i < records.len() ==> saved(records, c)[i] == revoked(records[i]),
        at_most_one_valid(saved(records, c)),
{
    let after = saved(records, c);
    lemma_active_index_is(after, records.len() as int);
    assert forall|i: int, j: int|
        0 <= i < after.len() && 0 <= j < after.len() && after[i].is_valid
            && after[j].is_valid implies i == j by {
        if i < records.len() {
            assert(!after[i].is_valid);
        }
        if j < records.len() {
            assert(!after[j].is_valid);
        }
    }
}

// ---------------------------------------------------------------------------
// The store
// ---------------------------------------------------------------------------
/// The views of a list of credentials.
pub open spec fn credential_views(records: Seq<UserCredentials>) -> Seq<CredentialsView> {
    records.map_values(|c: UserCredentials| c@)
}

/// The views of a list of captured signatures.
pub open spec fn signature_views(signatures: Seq<ApiSignature>) -> Seq<ApiSignatureView> {
    signatures.map_values(|s: ApiSignature| s@)
}

/// Storage for credentials and captured signatures. Records are never removed:
/// a credential that is replaced or revoked stays, marked invalid.
#[derive(Debug)]
pub struct CredentialStorage {
    records: Vec<UserCredentials>,
    signatures: Vec<ApiSignature>,
}

impl CredentialStorage {
    /// The credential records, oldest first.
    pub closed spec fn records(&self) -> Seq<CredentialsView> {
        credential_views(self.records@)
    }

    /// The captured signatures.
    pub closed spec fn signatures(&self) -> Seq<ApiSignatureView> {
        signature_views(self.signatures@)
    }

    #[verifier::type_invariant]
    spec fn single_active(&self) -> bool {
        at_most_one_valid(self.records())
    }

    /// Validity of a store: at most one record is valid. Every store that
    /// executable code can hold is valid.
    pub open spec fn wf(&self) -> bool {
        at_most_one_valid(self.records())
    }

    /// An empty store.
    pub fn new() -> (r: Self)
        ensures
            r.records() == Seq::<CredentialsView>::empty(),
            r.signatures() == Seq::<ApiSignatureView>::empty(),
            r.wf(),
    {
        let r = CredentialStorage { records: Vec::new(), signatures: Vec::new() };
        assert(r.records() =~= Seq::<CredentialsView>::empty());
        assert(r.signatures() =~= Seq::<ApiSignatureView>::empty());
        r
    }

    /// The store that holds the given persisted records, or
    /// `StorageError::Inconsistent` when more than one of the credentials is valid.
    pub fn from_records(records: Vec<UserCredentials>, signatures: Vec<ApiSignature>) -> (r:
        Result<Self, StorageError>)
        ensures
            match r {
                Ok(store) => at_most_one_valid(credential_views(records@)) && store.records()
                    == credential_views(records@) && store.signatures() == signature_views(
                    signatures@,
                ) && store.wf(),
                Err(e) => !at_most_one_valid(credential_views(records@)) && e
                    is Inconsistent,
            },
    {
        let ghost views = credential_views(records@);
        let mut seen: Option<usize> = None;
        let mut i: usize = 0;
        while i < records.len()
            invariant
                i <= records.len(),
                views == credential_views(records@),
                match seen {
                    Some(k) => k < i && views[k as int].is_valid && forall|j: int|
                        0 <= j < i && views[j].is_valid ==> j == k,
                    None => forall|j: int| 0 <= j < i ==> !views[j].is_valid,
                },
            decreases records.len() - i,
        {
            if records[i].is_valid {
                match seen {
                    Some(k) => {
                        assert(views[k as int].is_valid && views[i as int].is_valid);
                        return Err(StorageError::Inconsistent);
                    },
                    None => {
                        seen = Some(i);
                    },
                }
            }
            i += 1;
        }
        Ok(CredentialStorage { records, signatures })
    }

    /// The valid credential, if there is one.
    pub fn get_active_credentials(&self) -> (r: Option<UserCredentials>)
        ensures
            match r {
                Some(c) => active(self.records()) == Some(c@),
                None => active(self.records()) is None,
            },
            self.wf(),
    {
        proof {
            use_type_invariant(self);
        }
        let mut i: usize = 0;
        while i < self.records.len() && !self.records[i].is_valid
            invariant
                i <= self.records.len(),
                forall|j: int| 0 <= j < i ==> !self.records()[j].is_valid,
            decreases self.records.len() - i,
        {
            i += 1;
        }
        proof {
            lemma_active_index_is(self.records(), i as int);
        }
        if i < self.records.len() {
            Some(self.records[i].clone())
        } else {
            None
        }
    }

    /// Invalidates every valid credential. Doing so again changes nothing.
    pub fn invalidate_all(&mut self)
        ensures
            final(self).records() == invalidated_all(old(self).records()),
            final(self).signatures() == old(self).signatures(),
            active(final(self).records()) is None,
            final(self).wf(),
    {
        let ghost before = self.records();
        let mut next: Vec<UserCredentials> = Vec::new();
        let mut i: usize = 0;
        while i < self.records.len()
            invariant
                i <= self.records.len(),
                self.records() == before,
                credential_views(next@) == invalidated_all(before.take(i as int)),
            decreases self.records.len() - i,
        {
            let ghost done = next@;
            let mut c = self.records[i].clone();
            c.is_valid = false;
            next.push(c);
            proof {
                assert(credential_views(next@) =~= credential_views(done).push(revoked(before[i as int])));
                assert(invalidated_all(before.take(i as int + 1)) =~= invalidated_all(
                    before.take(i as int),
                ).push(revoked(before[i as int])));
            }
            i += 1;
        }
        proof {
            assert(before.take(self.records.len() as int) =~= before);
            lemma_invalidate_all_idempotent(before);
            assert(at_most_one_valid(invalidated_all(before))) by {
                assert forall|a: int, b: int|
                    0 <= a < before.len() && 0 <= b < before.len() && invalidated_all(
                        before,
                    )[a].is_valid && invalidated_all(before)[b].is_valid implies a == b by {}
            }
        }
        self.records = next;
    }

    /// Invalidates the credentials of user `user_id`.
    pub fn invalidate_user(&mut self, user_id: &str)
        ensures
            final(self).records() == invalidated_user(old(self).records(), user_id@),
            final(self).signatures() == old(self).signatures(),
            final(self).wf(),
    {
        proof {
            use_type_invariant(&*self);
        }
        let ghost before = self.records();
        let id = user_id.to_owned();
        let mut next: Vec<UserCredentials> = Vec::new();
        let mut i: usize = 0;
        while i < self.records.len()
            invariant
                i <= self.records.len(),
                id@ == user_id@,
                self.records() == before,
                credential_views(next@) == invalidated_user(before.take(i as int), user_id@),
            decreases self.records.len() - i,
        {
            let ghost done = next@;
            let mut c = self.records[i].clone();
            if c.user_id == id {
                c.is_valid = false;
            }
            next.push(c);
            proof {
                let item = if before[i as int].user_id == user_id@ {
                    revoked(before[i as int])
                } else {
                    before[i as int]
                };
                assert(credential_views(next@) =~= credential_views(done).push(item));
                assert(invalidated_user(before.take(i as int + 1), user_id@) =~= invalidated_user(
                    before.take(i as int),
                    user_id@,
                ).push(item));
            }
            i += 1;
        }
        proof {
            assert(before.take(self.records.len() as int) =~= before);
            lemma_applied_keeps_invariant(before, StoreOp::InvalidateUser(user_id@));
        }
        self.records = next;
    }

    /// Saves `creds` as the store's newest record, after invalidating every
    /// credential that was valid before.
    pub fn save_credentials(&mut self, creds: &UserCredentials)
        ensures
            final(self).records() == saved(old(self).records(), creds@),
            final(self).signatures() == old(self).signatures(),
            creds@.is_valid ==> active(final(self).records()) == Some(creds@),
            final(self).wf(),
    {
        proof {
            use_type_invariant(&*self);
        }
        let ghost before = self.records();
        self.invalidate_all();
        let mut next: Vec<UserCredentials> = Vec::new();
        let mut i: usize = 0;
        while i < self.records.len()
            invariant
                i <= self.records.len(),
                self.records() == invalidated_all(before),
                credential_views(next@) == self.records().take(i as int),
            decreases self.records.len() - i,
        {
            let ghost done = next@;
            next.push(self.records[i].clone());
            proof {
                assert(credential_views(next@) =~= credential_views(done).push(
                    self.records()[i as int],
                ));
                assert(self.records().take(i as int + 1) =~= self.records().take(i as int).push(
                    self.records()[i as int],
                ));
            }
            i += 1;
        }
        let ghost copied = next@;
        next.push(creds.clone());
        proof {
            assert(self.records().take(self.records.len() as int) =~= self.records());
            assert(credential_views(next@) =~= credential_views(copied).push(creds@));
            lemma_applied_keeps_invariant(before, StoreOp::Save(creds@));
            if creds@.is_valid {
                lemma_saved_wins(before, creds@);
            }
        }
        self.records = next;
    }

    /// The valid signature captured for `endpoint`, if there is one.
    pub fn get_api_signature(&self, endpoint: &str) -> (r: Option<ApiSignature>)
        ensures
            match r {
                Some(s) => captured(self.signatures(), endpoint@) == Some(s@),
                None => captured(self.signatures(), endpoint@) is None,
            },
    {
        let key = endpoint.to_owned();
        let mut i: usize = 0;
        while i < self.signatures.len() && !(self.signatures[i].is_valid
            && self.signatures[i].endpoint == key)
            invariant
                i <= self.signatures.len(),
                key@ == endpoint@,
                forall|j: int|
                    0 <= j < i ==> !(self.signatures()[j].is_valid
                        && self.signatures()[j].endpoint == endpoint@),
            decreases self.signatures.len() - i,
        {
            i += 1;
        }
        proof {
            lemma_captured_index_is(self.signatures(), endpoint@, i as int);
        }
        if i < self.signatures.len() {
            Some(self.signatures[i].clone())
        } else {
            None
        }
    }

    /// A copy of every credential record, oldest first.
    pub fn all_credentials(&self) -> (r: Vec<UserCredentials>)
        ensures
            credential_views(r@) == self.records(),
    {
        let mut out: Vec<UserCredentials> = Vec::new();
        let mut i: usize = 0;
        while i < self.records.len()
            invariant
                i <= self.records.len(),
                credential_views(out@) == self.records().take(i as int),
            decreases self.records.len() - i,
        {
            let ghost done = out@;
            out.push(self.records[i].clone());
            proof {
                assert(credential_views(out@) =~= credential_views(done).push(
                    self.records()[i as int],
                ));
                assert(self.records().take(i as int + 1) =~= self.records().take(i as int).push(
                    self.records()[i as int],
                ));
            }
            i += 1;
        }
        assert(self.records().take(self.records.len() as int) =~= self.records());
        out
    }
}

} // verus!
