//! The steps of recording a login against a user store: look the email up,
//! then refresh the record found or insert a new one; an insert that meets a
//! record holding the same email (another login won the race) is retried once
//! as a refresh.
//!
//! The flow decides; whoever drives it runs each store operation it asks for
//! and hands the outcome back.
use vstd::prelude::*;
use crate::directory::{
    identity_insert_spec, identity_update_spec, insert_data_view, insert_for_identity, next_stamp, rows_outcome,
    stamp_after, update_data_view, update_for_identity, DirectoryError, UpdateUserData, User, UserData,
};
use crate::provider::GoogleUserResult;
use crate::token::string_result_view;

verus! {

pub enum UpsertStage {
    LookingUp,
    Updating,
    Inserting,
    /// Looking the email up again after an insert met it.
    Retrying,
    Done,
}

/// What the flow asks of its store next.
pub enum UpsertAction {
    /// Find the record stored under the lower-cased form of `email`.
    Lookup { email: String },
    /// Write these values over the record with their id.
    Update(UpdateUserData),
    /// Insert this record under a new id.
    Insert(UserData),
    /// The outcome: the id of the record, or why there is none.
    Finish(Result<String, DirectoryError>),
}

pub open spec fn is_lookup(a: UpsertAction, email: Seq<char>) -> bool {
    a matches UpsertAction::Lookup { email: e } && e@ == email
}

pub open spec fn is_update(a: UpsertAction, id: Seq<char>, ident: GoogleUserResult, stamp: u64) -> bool {
    a matches UpsertAction::Update(d) && update_data_view(d) == identity_update_spec(id, ident) && d.updated_at == Some(stamp)
}

pub open spec fn is_insert(a: UpsertAction, ident: GoogleUserResult) -> bool {
    a matches UpsertAction::Insert(d) && insert_data_view(d) == identity_insert_spec(ident) && d.id is None
}

pub open spec fn is_finish(a: UpsertAction, r: Result<Seq<char>, DirectoryError>) -> bool {
    a matches UpsertAction::Finish(x) && string_result_view(x) == r
}

/// One login being recorded.
pub struct UpsertFlow {
    pub stage: UpsertStage,
    pub identity: GoogleUserResult,
    /// The id of the record being refreshed, once found.
    pub user_id: Option<String>,
    /// The time of the login.
    pub now: u64,
}

impl UpsertFlow {
    /// Starts, for a login at time `now`, with a lookup of the identity's email.
    pub fn start(identity: GoogleUserResult, now: u64) -> (r: (UpsertFlow, UpsertAction))
        ensures
            r.0.stage == UpsertStage::LookingUp,
            r.0.now == now,
            r.0.identity == identity,
            r.0.user_id is None,
            is_lookup(r.1, identity.email@),
    {
        let email = identity.email.clone();
        (UpsertFlow { stage: UpsertStage::LookingUp, identity, user_id: None, now }, UpsertAction::Lookup { email })
    }

    /// Takes the outcome of a lookup: a record found is to be refreshed, stamped
    /// with `next_stamp` of its last update time so that it strictly increases; none
    /// found is to be inserted, or, on the retry, is a failure; a failed lookup
    /// ends the flow with its error.
    pub fn on_lookup(&mut self, found: Result<User, DirectoryError>) -> (r: UpsertAction)
        requires
            old(self).stage == UpsertStage::LookingUp || old(self).stage == UpsertStage::Retrying,
        ensures
            final(self).identity == old(self).identity,
            final(self).now == old(self).now,
            found matches Ok(u) ==> final(self).stage == UpsertStage::Updating
                && final(self).user_id == Some(u.id) && is_update(r, u.id@, old(self).identity, next_stamp(u.updated_at, old(self).now)),
            found == Err::<User, DirectoryError>(DirectoryError::NotFound) && old(self).stage == UpsertStage::LookingUp
                ==> final(self).stage == UpsertStage::Inserting && is_insert(r, old(self).identity),
            found == Err::<User, DirectoryError>(DirectoryError::NotFound) && old(self).stage == UpsertStage::Retrying
                ==> final(self).stage == UpsertStage::Done && is_finish(r, Err(DirectoryError::StoreFailed)),
            found matches Err(e) ==> (e != DirectoryError::NotFound ==> final(self).stage == UpsertStage::Done
                && is_finish(r, Err(e))),
    {
        match found {
            Ok(u) => {
                let data = update_for_identity(&u.id, &self.identity, stamp_after(u.updated_at, self.now));
                self.stage = UpsertStage::Updating;
                self.user_id = Some(u.id);
                UpsertAction::Update(data)
            },
            Err(DirectoryError::NotFound) => {
                if matches!(self.stage, UpsertStage::LookingUp) {
                    self.stage = UpsertStage::Inserting;
                    UpsertAction::Insert(insert_for_identity(&self.identity))
                } else {
                    self.stage = UpsertStage::Done;
                    UpsertAction::Finish(Err(DirectoryError::StoreFailed))
                }
            },
            Err(e) => {
                self.stage = UpsertStage::Done;
                UpsertAction::Finish(Err(e))
            },
        }
    }

    /// Takes the row count of the refresh: one or more rows give the record's
    /// id; none is an `UpdateFailed`.
    pub fn on_updated(&mut self, rows: Result<usize, DirectoryError>) -> (r: UpsertAction)
        requires
            old(self).stage == UpsertStage::Updating,
            old(self).user_id is Some,
        ensures
            final(self).stage == UpsertStage::Done,
            final(self).identity == old(self).identity,
            rows matches Ok(n) ==> (n > 0 ==> is_finish(r, Ok(old(self).user_id->Some_0@))),
            rows == Ok::<usize, DirectoryError>(0) ==> is_finish(r, Err(DirectoryError::UpdateFailed)),
            rows matches Err(e) ==> is_finish(r, Err(e)),
    {
        self.stage = UpsertStage::Done;
        let id = match &self.user_id {
            Some(id) => id.clone(),
            None => String::new(),
        };
        match rows_outcome(rows) {
            Ok(_) => UpsertAction::Finish(Ok(id)),
            Err(e) => UpsertAction::Finish(Err(e)),
        }
    }

    /// Takes the outcome of the insert: the new id ends the flow; an email
    /// already held sends the flow back to look it up once more.
    pub fn on_inserted(&mut self, inserted: Result<String, DirectoryError>) -> (r: UpsertAction)
        requires
            old(self).stage == UpsertStage::Inserting,
        ensures
            final(self).identity == old(self).identity,
            inserted matches Ok(id) ==> final(self).stage == UpsertStage::Done && is_finish(r, Ok(id@)),
            inserted == Err::<String, DirectoryError>(DirectoryError::DuplicateEmail)
                ==> final(self).stage == UpsertStage::Retrying && is_lookup(r, old(self).identity.email@),
            inserted matches Err(e) ==> (e != DirectoryError::DuplicateEmail ==> final(self).stage == UpsertStage::Done
                && is_finish(r, Err(e))),
    {
        match inserted {
            Ok(id) => {
                self.stage = UpsertStage::Done;
                UpsertAction::Finish(Ok(id))
            },
            Err(DirectoryError::DuplicateEmail) => {
                self.stage = UpsertStage::Retrying;
                UpsertAction::Lookup { email: self.identity.email.clone() }
            },
            Err(e) => {
                self.stage = UpsertStage::Done;
                UpsertAction::Finish(Err(e))
            },
        }
    }
}

} // verus!
