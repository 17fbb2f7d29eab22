use vstd::prelude::*;
use crate::date::Date;
use crate::text::{clone_opt, opt_view};

verus! {

/// A capability or flag granted by a license. Immutable.
#[derive(Clone, Debug)]
pub struct Entitlement {
    id: String,
    name: Option<String>,
    code: String,
    created: Date,
    updated: Date,
}

/// What a `Entitlement` holds, as plain values.
pub struct EntitlementView {
    pub id: Seq<char>,
    pub name: Option<Seq<char>>,
    pub code: Seq<char>,
    pub created: Date,
    pub updated: Date,
}

impl View for Entitlement {
    type V = EntitlementView;

    closed spec fn view(&self) -> EntitlementView {
        EntitlementView {
            id: self.id@,
            name: opt_view(self.name),
            code: self.code@,
            created: self.created,
            updated: self.updated,
        }
    }
}

impl Entitlement {
    pub fn id(&self) -> (r: String)
        ensures
            r@ == self@.id,
    {
        self.id.clone()
    }

    pub fn name(&self) -> (r: Option<String>)
        ensures
            opt_view(r) == self@.name,
    {
        clone_opt(&self.name)
    }

    /// The code by which the entitlement is required.
    pub fn code(&self) -> (r: String)
        ensures
            r@ == self@.code,
    {
        self.code.clone()
    }

    pub fn created(&self) -> (r: Date)
        ensures
            r == self@.created,
    {
        self.created
    }

    pub fn updated(&self) -> (r: Date)
        ensures
            r == self@.updated,
    {
        self.updated
    }
}

impl Entitlement {
    /// Builds the record from its values.
    pub fn build(id: String, name: Option<String>, code: String, created: Date, updated: Date) -> (r: Entitlement)
        ensures
            r@.id == id@,
            r@.name == opt_view(name),
            r@.code == code@,
            r@.created == created,
            r@.updated == updated,
    {
        Entitlement { id, name, code, created, updated }
    }
}

} // verus!
