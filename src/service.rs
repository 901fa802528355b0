use vstd::prelude::*;
use crate::model::{
    CreateExplainationDto, Explaination, ExplainationView, FieldError, record_view,
    request_verdict, with_content,
};
use crate::object_id::{is_object_id_text, object_id_key};
use crate::store::{
    Database, DeleteResult, StoreError, UpdateResult, is_owner_listing, stored_record, views_of,
};
use crate::text::text_is_empty;

verus! {

/// Why a service operation failed. A failed operation changes nothing.
#[derive(Debug, Clone, Copy, PartialEq, Eq, Structural)]
pub enum ServiceError {
    /// A required text field was empty.
    Field(FieldError),
    /// No record is stored under the identifier.
    NotFound,
    /// The store refused the operation.
    Store(StoreError),
}

/// What fetching the identifier `id` from `m` yields.
pub open spec fn lookup_outcome(m: Map<Seq<char>, ExplainationView>, id: Seq<char>) -> Result<
    ExplainationView,
    ServiceError,
> {
    if !is_object_id_text(id) {
        Err(ServiceError::Store(StoreError::MalformedId))
    } else if !m.contains_key(object_id_key(id)) {
        Err(ServiceError::NotFound)
    } else {
        Ok(m[object_id_key(id)])
    }
}

/// Explanations with existence checks in front of every change.
pub struct ExplainationService {
    repository: Database,
}

impl View for ExplainationService {
    type V = Map<Seq<char>, ExplainationView>;

    closed spec fn view(&self) -> Map<Seq<char>, ExplainationView> {
        self.repository@
    }
}

impl ExplainationService {
    pub closed spec fn wf(&self) -> bool {
        self.repository.wf()
    }

    /// A service over the given store.
    pub fn new(repository: Database) -> (r: ExplainationService)
        requires
            repository.wf(),
        ensures
            r.wf(),
            r@ == repository@,
    {
        ExplainationService { repository }
    }

    /// Validates the request's text fields and stores it under a fresh
    /// identifier, which is returned.
    pub fn create_explaination(&mut self, request: CreateExplainationDto) -> (r: Result<
        String,
        ServiceError,
    >)
        requires
            old(self).wf(),
        ensures
            final(self).wf(),
            request_verdict(request.module_name@, request.function_name@, request.content@) matches Err(e)
                ==> r == Err::<String, ServiceError>(ServiceError::Field(e)),
            request_verdict(request.module_name@, request.function_name@, request.content@) is Ok
                ==> (r is Ok || r == Err::<String, ServiceError>(
                ServiceError::Store(StoreError::DuplicateId),
            )),
            r is Err ==> final(self)@ == old(self)@,
            r matches Ok(k) ==> {
                &&& is_object_id_text(k@)
                &&& object_id_key(k@) == k@
                &&& !old(self)@.contains_key(k@)
                &&& final(self)@ == old(self)@.insert(
                    k@,
                    record_view(
                        k@,
                        request.package_id@,
                        request.module_name@,
                        request.function_name@,
                        request.owner@,
                        request.content@,
                    ),
                )
            },
    {
        match request.validate() {
            Ok(()) => {},
            Err(e) => return Err(ServiceError::Field(e)),
        }
        let res = self.repository.create_explaination(
            request.package_id.as_str(),
            request.module_name.as_str(),
            request.function_name.as_str(),
            request.owner.as_str(),
            request.content.as_str(),
        );
        match res {
            Ok(k) => Ok(k),
            Err(e) => Err(ServiceError::Store(e)),
        }
    }

    /// The record stored under `id`; an absent record is an error here.
    pub fn get_explanation_by_id(&self, id: &str) -> (r: Result<Explaination, ServiceError>)
        requires
            self.wf(),
        ensures
            r is Ok <==> lookup_outcome(self@, id@) is Ok,
            r matches Ok(e) ==> lookup_outcome(self@, id@) == Ok::<ExplainationView, ServiceError>(
                e@,
            ),
            r matches Err(e) ==> lookup_outcome(self@, id@) == Err::<ExplainationView, ServiceError>(
                e,
            ),
    {
        match self.repository.get_explanation_by_id(id) {
            Ok(Some(e)) => Ok(e),
            Ok(None) => Err(ServiceError::NotFound),
            Err(e) => Err(ServiceError::Store(e)),
        }
    }

    /// Every record whose owner text equals `owner` exactly.
    pub fn get_explanation_by_owner(&self, owner: &str) -> (r: Vec<Explaination>)
        requires
            self.wf(),
        ensures
            is_owner_listing(self@, owner@, views_of(r@)),
    {
        self.repository.get_explanation_by_owner(owner)
    }

    /// Replaces the content of the record stored under `id`, keeping its
    /// package, module, function and owner as they were.
    pub fn update_explaination_content(&mut self, id: &str, new_content: &str) -> (r: Result<
        UpdateResult,
        ServiceError,
    >)
        requires
            old(self).wf(),
        ensures
            final(self).wf(),
            new_content@.len() == 0 ==> r == Err::<UpdateResult, ServiceError>(
                ServiceError::Field(FieldError::EmptyContent),
            ),
            new_content@.len() > 0 ==> (lookup_outcome(old(self)@, id@) matches Err(e) ==> r
                == Err::<UpdateResult, ServiceError>(e)),
            r is Err ==> final(self)@ == old(self)@,
            new_content@.len() > 0 ==> (lookup_outcome(old(self)@, id@) matches Ok(rec) ==> {
                let key = object_id_key(id@);
                &&& r == Ok::<UpdateResult, ServiceError>(
                    UpdateResult {
                        matched_count: 1,
                        modified_count: if rec.content == new_content@ {
                            0
                        } else {
                            1
                        },
                    },
                )
                &&& final(self)@ == old(self)@.insert(key, with_content(rec, new_content@))
            }),
    {
        if text_is_empty(new_content) {
            return Err(ServiceError::Field(FieldError::EmptyContent));
        }
        let existing = self.get_explanation_by_id(id);
        let e = match existing {
            Ok(e) => e,
            Err(err) => return Err(err),
        };
        proof {
            self.repository.lemma_keys_are_ids();
        }
        let res = self.repository.update_explaination(
            id,
            e.package_id.as_str(),
            e.module_name.as_str(),
            e.function_name.as_str(),
            e.owner.as_str(),
            new_content,
        );
        proof {
            let key = object_id_key(id@);
            let rec = old(self)@[key];
            assert(record_view(
                key,
                e.package_id@,
                e.module_name@,
                e.function_name@,
                e.owner@,
                new_content@,
            ) == with_content(rec, new_content@));
        }
        match res {
            Ok(u) => Ok(u),
            Err(err) => Err(ServiceError::Store(err)),
        }
    }

    /// Removes the record stored under `id`, which must exist.
    pub fn delete_explaination(&mut self, id: &str) -> (r: Result<DeleteResult, ServiceError>)
        requires
            old(self).wf(),
        ensures
            final(self).wf(),
            lookup_outcome(old(self)@, id@) matches Err(e) ==> r == Err::<
                DeleteResult,
                ServiceError,
            >(e),
            r is Err ==> final(self)@ == old(self)@,
            lookup_outcome(old(self)@, id@) is Ok ==> {
                &&& r == Ok::<DeleteResult, ServiceError>(DeleteResult { deleted_count: 1 })
                &&& final(self)@ == old(self)@.remove(object_id_key(id@))
            },
    {
        match self.get_explanation_by_id(id) {
            Ok(_) => {},
            Err(err) => return Err(err),
        }
        match self.repository.delete_explaination(id) {
            Ok(d) => Ok(d),
            Err(err) => Err(ServiceError::Store(err)),
        }
    }
}

/// Fetching a record by the identifier its creation returned yields a record
/// with the very fields it was created with.
pub proof fn lemma_create_then_get(
    m: Map<Seq<char>, ExplainationView>,
    k: Seq<char>,
    package_id: Seq<char>,
    module_name: Seq<char>,
    function_name: Seq<char>,
    owner: Seq<char>,
    content: Seq<char>,
)
    requires
        is_object_id_text(k),
        object_id_key(k) == k,
    ensures
        lookup_outcome(
            m.insert(k, record_view(k, package_id, module_name, function_name, owner, content)),
            k,
        ) == Ok::<ExplainationView, ServiceError>(
            record_view(k, package_id, module_name, function_name, owner, content),
        ),
        stored_record(
            m.insert(k, record_view(k, package_id, module_name, function_name, owner, content)),
            k,
        ) == Some(record_view(k, package_id, module_name, function_name, owner, content)),
{
}

/// Replacing a record's content leaves its identifier, package, module,
/// function and owner as they were, and the record is still found.
pub proof fn lemma_update_keeps_identity(
    m: Map<Seq<char>, ExplainationView>,
    id: Seq<char>,
    new_content: Seq<char>,
)
    requires
        lookup_outcome(m, id) is Ok,
    ensures
        ({
            let before = m[object_id_key(id)];
            let after_map = m.insert(object_id_key(id), with_content(before, new_content));
            let after = after_map[object_id_key(id)];
            &&& lookup_outcome(after_map, id) == Ok::<ExplainationView, ServiceError>(after)
            &&& after.id == before.id
            &&& after.package_id == before.package_id
            &&& after.module_name == before.module_name
            &&& after.function_name == before.function_name
            &&& after.owner == before.owner
            &&& after.content == new_content
        }),
{
}

/// An identifier under which nothing was ever stored is not found.
pub proof fn lemma_absent_not_found(m: Map<Seq<char>, ExplainationView>, id: Seq<char>)
    requires
        is_object_id_text(id),
        !m.contains_key(object_id_key(id)),
    ensures
        lookup_outcome(m, id) == Err::<ExplainationView, ServiceError>(ServiceError::NotFound),
{
}

/// After the record under an identifier is deleted, fetching that identifier
/// fails with `NotFound`.
pub proof fn lemma_delete_then_get(m: Map<Seq<char>, ExplainationView>, id: Seq<char>)
    requires
        is_object_id_text(id),
    ensures
        lookup_outcome(m.remove(object_id_key(id)), id) == Err::<ExplainationView, ServiceError>(
            ServiceError::NotFound,
        ),
{
}

} // verus!
