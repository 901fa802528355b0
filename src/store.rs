use vstd::prelude::*;
use crate::address::{Address, is_valid_address};
use crate::model::{Explaination, ExplainationView, record_view};
use crate::object_id::{
    is_object_id_text, lemma_lower_id_is_key, new_object_id, object_id_key, parse_object_id,
};
use crate::text::text_eq;

verus! {

/// Why a store operation was refused. A refused operation changes nothing.
#[derive(Debug, Clone, Copy, PartialEq, Eq, Structural)]
pub enum StoreError {
    /// The identifier is not 24 hexadecimal digits.
    MalformedId,
    /// The package identifier is not a valid address.
    InvalidPackageId,
    /// The owner is not a valid address.
    InvalidOwner,
    /// A record is already stored under the identifier.
    DuplicateId,
}

/// How many records an update matched, and how many it changed.
#[derive(Debug, Clone, Copy, PartialEq, Eq, Structural)]
pub struct UpdateResult {
    pub matched_count: u64,
    pub modified_count: u64,
}

/// How many records a delete removed.
#[derive(Debug, Clone, Copy, PartialEq, Eq, Structural)]
pub struct DeleteResult {
    pub deleted_count: u64,
}

/// The first rule that the fields of an update break, if any.
pub open spec fn update_verdict(id: Seq<char>, package_id: Seq<char>, owner: Seq<char>) -> Result<
    (),
    StoreError,
> {
    if !is_object_id_text(id) {
        Err(StoreError::MalformedId)
    } else if !is_valid_address(package_id) {
        Err(StoreError::InvalidPackageId)
    } else if !is_valid_address(owner) {
        Err(StoreError::InvalidOwner)
    } else {
        Ok(())
    }
}

/// The first rule that creating a record under `id` in `m` breaks, if any.
pub open spec fn create_verdict(
    m: Map<Seq<char>, ExplainationView>,
    id: Seq<char>,
    package_id: Seq<char>,
    owner: Seq<char>,
) -> Result<(), StoreError> {
    if update_verdict(id, package_id, owner) is Err {
        update_verdict(id, package_id, owner)
    } else if m.contains_key(object_id_key(id)) {
        Err(StoreError::DuplicateId)
    } else {
        Ok(())
    }
}

/// The record that a lookup of the identifier text `id` finds in `m`.
pub open spec fn stored_record(m: Map<Seq<char>, ExplainationView>, id: Seq<char>) -> Option<
    ExplainationView,
> {
    if is_object_id_text(id) && m.contains_key(object_id_key(id)) {
        Some(m[object_id_key(id)])
    } else {
        None
    }
}

/// `rs` is exactly the records of `m` whose owner is `owner`: each once, none
/// other, in any order.
pub open spec fn is_owner_listing(
    m: Map<Seq<char>, ExplainationView>,
    owner: Seq<char>,
    rs: Seq<ExplainationView>,
) -> bool {
    &&& forall|i: int|
        0 <= i < rs.len() ==> {
            &&& (#[trigger] rs[i]).id is Some
            &&& m.contains_key(rs[i].id->Some_0)
            &&& m[rs[i].id->Some_0] == rs[i]
            &&& rs[i].owner == owner
        }
    &&& forall|k: Seq<char>|
        #[trigger] m.contains_key(k) && m[k].owner == owner ==> exists|i: int|
            0 <= i < rs.len() && (#[trigger] rs[i]).id == Some(k)
    &&& forall|i: int, j: int|
        0 <= i < rs.len() && 0 <= j < rs.len() && i != j ==> (#[trigger] rs[i]).id != (
        #[trigger] rs[j]).id
}

pub open spec fn views_of(v: Seq<Explaination>) -> Seq<ExplainationView> {
    v.map_values(|e: Explaination| e@)
}

/// A collection of explanations keyed by identifier. Its value is a map from
/// storage key to record; each record carries its own key as its `id`.
pub struct Database {
    records: Vec<Explaination>,
    model: Ghost<Map<Seq<char>, ExplainationView>>,
}

impl View for Database {
    type V = Map<Seq<char>, ExplainationView>;

    closed spec fn view(&self) -> Map<Seq<char>, ExplainationView> {
        self.model@
    }
}

impl Database {
    /// The records vector and the map agree, and no two records share a key.
    pub closed spec fn wf(&self) -> bool {
        &&& forall|i: int|
            0 <= i < self.records@.len() ==> {
                &&& (#[trigger] self.records@[i])@.id is Some
                &&& self.model@.contains_key(self.records@[i]@.id->Some_0)
                &&& self.model@[self.records@[i]@.id->Some_0] == self.records@[i]@
            }
        &&& forall|k: Seq<char>|
            #[trigger] self.model@.contains_key(k) ==> exists|i: int|
                0 <= i < self.records@.len() && (#[trigger] self.records@[i])@.id == Some(k)
        &&& forall|i: int, j: int|
            0 <= i < self.records@.len() && 0 <= j < self.records@.len() && i != j ==> (
            #[trigger] self.records@[i])@.id != (#[trigger] self.records@[j])@.id
    }

    /// Each stored record carries the key it is stored under as its `id`.
    pub proof fn lemma_keys_are_ids(&self)
        requires
            self.wf(),
        ensures
            forall|k: Seq<char>| #[trigger] self@.contains_key(k) ==> self@[k].id == Some(k),
    {
        assert forall|k: Seq<char>| #[trigger] self@.contains_key(k) implies self@[k].id == Some(
            k,
        ) by {
            let i = choose|i: int|
                0 <= i < self.records@.len() && (#[trigger] self.records@[i])@.id == Some(k);
        }
    }

    /// An empty store.
    pub fn new() -> (r: Database)
        ensures
            r.wf(),
            r@ == Map::<Seq<char>, ExplainationView>::empty(),
    {
        Database { records: Vec::new(), model: Ghost(Map::empty()) }
    }

    /// The position of the record stored under `key`.
    fn find_index(&self, key: &str) -> (r: Option<usize>)
        requires
            self.wf(),
        ensures
            r matches Some(i) ==> i < self.records@.len() && self.records@[i as int]@.id == Some(
                key@,
            ),
            r is None ==> !self@.contains_key(key@),
    {
        let n = self.records.len();
        let mut i: usize = 0;
        while i < n
            invariant
                n == self.records@.len(),
                i <= n,
                forall|j: int| 0 <= j < i ==> (#[trigger] self.records@[j])@.id != Some(key@),
            decreases n - i,
        {
            match &self.records[i].id {
                Some(s) => {
                    if text_eq(s.as_str(), key) {
                        return Some(i);
                    }
                },
                None => {},
            }
            i = i + 1;
        }
        None
    }

    /// Stores a record under the identifier `id`, after checking the
    /// identifier and both addresses. Returns the storage key.
    pub fn create_explaination_with_id(
        &mut self,
        id: &str,
        package_id: &str,
        module_name: &str,
        function_name: &str,
        owner: &str,
        content: &str,
    ) -> (r: Result<String, StoreError>)
        requires
            old(self).wf(),
        ensures
            final(self).wf(),
            r is Ok <==> create_verdict(old(self)@, id@, package_id@, owner@) is Ok,
            r matches Err(e) ==> create_verdict(old(self)@, id@, package_id@, owner@) == Err::<
                (),
                StoreError,
            >(e),
            r is Err ==> final(self)@ == old(self)@,
            r matches Ok(k) ==> k@ == object_id_key(id@) && final(self)@ == old(self)@.insert(
                k@,
                record_view(k@, package_id@, module_name@, function_name@, owner@, content@),
            ),
    {
        let key = match parse_object_id(id) {
            Some(k) => k,
            None => return Err(StoreError::MalformedId),
        };
        let pkg = match Address::new(package_id) {
            Ok(a) => a,
            Err(_) => return Err(StoreError::InvalidPackageId),
        };
        let own = match Address::new(owner) {
            Ok(a) => a,
            Err(_) => return Err(StoreError::InvalidOwner),
        };
        if self.find_index(key.as_str()).is_some() {
            return Err(StoreError::DuplicateId);
        }
        let rec = Explaination {
            id: Some(key.clone()),
            package_id: pkg,
            module_name: module_name.to_string(),
            function_name: function_name.to_string(),
            owner: own,
            content: content.to_string(),
        };
        let ghost old_records = self.records@;
        let ghost rv = rec@;
        self.records.push(rec);
        self.model = Ghost(self.model@.insert(key@, rv));
        proof {
            assert(self.records@ == old_records.push(rec));
            assert forall|k: Seq<char>| #[trigger] self.model@.contains_key(k) implies exists|i: int|
                0 <= i < self.records@.len() && (#[trigger] self.records@[i])@.id == Some(k) by {
                if k == key@ {
                    assert(self.records@[old_records.len() as int]@.id == Some(k));
                } else {
                    assert(old(self).model@.contains_key(k));
                    let j = choose|j: int|
                        0 <= j < old_records.len() && (#[trigger] old_records[j])@.id == Some(k);
                    assert(self.records@[j] == old_records[j]);
                }
            }
        }
        Ok(key)
    }

    /// Stores a record under a newly generated identifier, after checking
    /// both addresses. Returns the identifier, which is 24 lowercase
    /// hexadecimal digits and its own storage key. A generated identifier that
    /// is already taken is refused as a duplicate.
    pub fn create_explaination(
        &mut self,
        package_id: &str,
        module_name: &str,
        function_name: &str,
        owner: &str,
        content: &str,
    ) -> (r: Result<String, StoreError>)
        requires
            old(self).wf(),
        ensures
            final(self).wf(),
            !is_valid_address(package_id@) ==> r == Err::<String, StoreError>(
                StoreError::InvalidPackageId,
            ),
            is_valid_address(package_id@) && !is_valid_address(owner@) ==> r == Err::<
                String,
                StoreError,
            >(StoreError::InvalidOwner),
            is_valid_address(package_id@) && is_valid_address(owner@) ==> (r is Ok || r == Err::<
                String,
                StoreError,
            >(StoreError::DuplicateId)),
            r is Err ==> final(self)@ == old(self)@,
            r matches Ok(k) ==> {
                &&& is_object_id_text(k@)
                &&& object_id_key(k@) == k@
                &&& !old(self)@.contains_key(k@)
                &&& final(self)@ == old(self)@.insert(
                    k@,
                    record_view(k@, package_id@, module_name@, function_name@, owner@, content@),
                )
            },
    {
        let id = new_object_id();
        proof {
            lemma_lower_id_is_key(id@);
        }
        self.create_explaination_with_id(
            id.as_str(),
            package_id,
            module_name,
            function_name,
            owner,
            content,
        )
    }

    /// Replaces every field of the record stored under `id`. An identifier
    /// that matches no record is no error: the result then counts no match.
    pub fn update_explaination(
        &mut self,
        id: &str,
        package_id: &str,
        module_name: &str,
        function_name: &str,
        owner: &str,
        content: &str,
    ) -> (r: Result<UpdateResult, StoreError>)
        requires
            old(self).wf(),
        ensures
            final(self).wf(),
            r is Ok <==> update_verdict(id@, package_id@, owner@) is Ok,
            r matches Err(e) ==> update_verdict(id@, package_id@, owner@) == Err::<(), StoreError>(
                e,
            ),
            r is Err ==> final(self)@ == old(self)@,
            r matches Ok(u) ==> {
                let key = object_id_key(id@);
                let rec = record_view(
                    key,
                    package_id@,
                    module_name@,
                    function_name@,
                    owner@,
                    content@,
                );
                if old(self)@.contains_key(key) {
                    &&& u.matched_count == 1
                    &&& u.modified_count == (if old(self)@[key] == rec {
                        0u64
                    } else {
                        1u64
                    })
                    &&& final(self)@ == old(self)@.insert(key, rec)
                } else {
                    &&& u == UpdateResult { matched_count: 0, modified_count: 0 }
                    &&& final(self)@ == old(self)@
                }
            },
    {
        let key = match parse_object_id(id) {
            Some(k) => k,
            None => return Err(StoreError::MalformedId),
        };
        let pkg = match Address::new(package_id) {
            Ok(a) => a,
            Err(_) => return Err(StoreError::InvalidPackageId),
        };
        let own = match Address::new(owner) {
            Ok(a) => a,
            Err(_) => return Err(StoreError::InvalidOwner),
        };
        let i = match self.find_index(key.as_str()) {
            Some(i) => i,
            None => return Ok(UpdateResult { matched_count: 0, modified_count: 0 }),
        };
        let unchanged = {
            let cur = &self.records[i];
            text_eq(cur.package_id.as_str(), package_id) && text_eq(
                cur.module_name.as_str(),
                module_name,
            ) && text_eq(cur.function_name.as_str(), function_name) && text_eq(
                cur.owner.as_str(),
                owner,
            ) && text_eq(cur.content.as_str(), content)
        };
        let rec = Explaination {
            id: Some(key.clone()),
            package_id: pkg,
            module_name: module_name.to_string(),
            function_name: function_name.to_string(),
            owner: own,
            content: content.to_string(),
        };
        let ghost old_records = self.records@;
        let ghost rv = rec@;
        proof {
            assert(old_records[i as int]@ == self.model@[key@]);
        }
        self.records.set(i, rec);
        self.model = Ghost(self.model@.insert(key@, rv));
        proof {
            assert forall|k: Seq<char>| #[trigger] self.model@.contains_key(k) implies exists|j: int|
                0 <= j < self.records@.len() && (#[trigger] self.records@[j])@.id == Some(k) by {
                let j = choose|j: int|
                    0 <= j < old_records.len() && (#[trigger] old_records[j])@.id == Some(k);
                assert(self.records@[j]@.id == old_records[j]@.id);
            }
        }
        Ok(UpdateResult { matched_count: 1, modified_count: if unchanged { 0 } else { 1 } })
    }

    /// Removes the record stored under `id`. An identifier that matches no
    /// record is no error: the result then counts no deletion.
    pub fn delete_explaination(&mut self, id: &str) -> (r: Result<DeleteResult, StoreError>)
        requires
            old(self).wf(),
        ensures
            final(self).wf(),
            r is Ok <==> is_object_id_text(id@),
            r is Err ==> r == Err::<DeleteResult, StoreError>(StoreError::MalformedId)
                && final(self)@ == old(self)@,
            r matches Ok(d) ==> {
                &&& d.deleted_count == (if old(self)@.contains_key(object_id_key(id@)) {
                    1u64
                } else {
                    0u64
                })
                &&& final(self)@ == old(self)@.remove(object_id_key(id@))
            },
    {
        let key = match parse_object_id(id) {
            Some(k) => k,
            None => return Err(StoreError::MalformedId),
        };
        let i = match self.find_index(key.as_str()) {
            Some(i) => i,
            None => {
                assert(self.model@.remove(key@) =~= self.model@);
                return Ok(DeleteResult { deleted_count: 0 });
            },
        };
        let ghost old_records = self.records@;
        let _removed = self.records.remove(i);
        self.model = Ghost(self.model@.remove(key@));
        proof {
            assert(self.records@ == old_records.remove(i as int));
            assert forall|j: int| 0 <= j < self.records@.len() implies {
                &&& (#[trigger] self.records@[j])@.id is Some
                &&& self.model@.contains_key(self.records@[j]@.id->Some_0)
                &&& self.model@[self.records@[j]@.id->Some_0] == self.records@[j]@
            } by {
                let oj = if j < i { j } else { j + 1 };
                assert(self.records@[j] == old_records[oj]);
                assert(oj != i);
            }
            assert forall|k: Seq<char>| #[trigger] self.model@.contains_key(k) implies exists|j: int|
                0 <= j < self.records@.len() && (#[trigger] self.records@[j])@.id == Some(k) by {
                let oj = choose|j: int|
                    0 <= j < old_records.len() && (#[trigger] old_records[j])@.id == Some(k);
                assert(oj != i);
                if oj < i {
                    assert(self.records@[oj] == old_records[oj]);
                } else {
                    assert(self.records@[oj - 1] == old_records[oj]);
                }
            }
            assert forall|a: int, b: int|
                0 <= a < self.records@.len() && 0 <= b < self.records@.len() && a != b implies (
            #[trigger] self.records@[a])@.id != (#[trigger] self.records@[b])@.id by {
                let oa = if a < i { a } else { a + 1 };
                let ob = if b < i { b } else { b + 1 };
                assert(self.records@[a] == old_records[oa]);
                assert(self.records@[b] == old_records[ob]);
            }
        }
        Ok(DeleteResult { deleted_count: 1 })
    }

    /// Every record whose owner text equals `owner` exactly.
    pub fn get_explanation_by_owner(&self, owner: &str) -> (r: Vec<Explaination>)
        requires
            self.wf(),
        ensures
            is_owner_listing(self@, owner@, views_of(r@)),
    {
        let n = self.records.len();
        let mut out: Vec<Explaination> = Vec::new();
        let ghost mut picked: Seq<int> = Seq::empty();
        let mut i: usize = 0;
        while i < n
            invariant
                self.wf(),
                n == self.records@.len(),
                i <= n,
                out@.len() == picked.len(),
                forall|t: int|
                    0 <= t < picked.len() ==> 0 <= #[trigger] picked[t] < i && out@[t]@
                        == self.records@[picked[t]]@ && out@[t]@.owner == owner@,
                forall|s: int, t: int| 0 <= s < t < picked.len() ==> picked[s] < picked[t],
                forall|j: int|
                    0 <= j < i && (#[trigger] self.records@[j])@.owner == owner@ ==> exists|t: int|
                        0 <= t < picked.len() && picked[t] == j,
            decreases n - i,
        {
            let ghost before = picked;
            if text_eq(self.records[i].owner.as_str(), owner) {
                let e = self.records[i].duplicate();
                out.push(e);
                proof {
                    picked = picked.push(i as int);
                }
            }
            proof {
                assert forall|j: int|
                    0 <= j < i + 1 && (#[trigger] self.records@[j])@.owner == owner@ implies exists|
                    t: int,
                | 0 <= t < picked.len() && picked[t] == j by {
                    if j == i {
                        assert(picked[picked.len() - 1] == j);
                    } else {
                        let t = choose|t: int| 0 <= t < before.len() && before[t] == j;
                        assert(picked[t] == before[t]);
                    }
                }
            }
            i = i + 1;
        }
        proof {
            let rs = views_of(out@);
            assert forall|t: int| 0 <= t < rs.len() implies {
                &&& (#[trigger] rs[t]).id is Some
                &&& self@.contains_key(rs[t].id->Some_0)
                &&& self@[rs[t].id->Some_0] == rs[t]
                &&& rs[t].owner == owner@
            } by {
                assert(rs[t] == self.records@[picked[t]]@);
            }
            assert forall|k: Seq<char>| #[trigger]
                self@.contains_key(k) && self@[k].owner == owner@ implies exists|t: int|
                0 <= t < rs.len() && (#[trigger] rs[t]).id == Some(k) by {
                let j = choose|j: int|
                    0 <= j < self.records@.len() && (#[trigger] self.records@[j])@.id == Some(k);
                assert(self.records@[j]@.owner == owner@);
                let t = choose|t: int| 0 <= t < picked.len() && picked[t] == j;
                assert(rs[t].id == Some(k));
            }
            assert forall|a: int, b: int|
                0 <= a < rs.len() && 0 <= b < rs.len() && a != b implies (#[trigger] rs[a]).id != (
            #[trigger] rs[b]).id by {
                assert(rs[a] == self.records@[picked[a]]@);
                assert(rs[b] == self.records@[picked[b]]@);
                assert(picked[a] != picked[b]);
            }
        }
        out
    }

    /// The record stored under the identifier `id`, if any.
    pub fn get_explanation_by_id(&self, id: &str) -> (r: Result<Option<Explaination>, StoreError>)
        requires
            self.wf(),
        ensures
            r is Ok <==> is_object_id_text(id@),
            r is Err ==> r == Err::<Option<Explaination>, StoreError>(StoreError::MalformedId),
            r matches Ok(o) ==> (o is Some <==> stored_record(self@, id@) is Some),
            r matches Ok(Some(e)) ==> stored_record(self@, id@) == Some(e@),
    {
        let key = match parse_object_id(id) {
            Some(k) => k,
            None => return Err(StoreError::MalformedId),
        };
        match self.find_index(key.as_str()) {
            Some(i) => Ok(Some(self.records[i].duplicate())),
            None => Ok(None),
        }
    }
}

} // verus!
