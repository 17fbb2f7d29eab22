use vstd::prelude::*;
use keygen_rs::component::Component as OutsideComponent;

verus! {

/// A part of a machine, such as a hardware unit, that can be attached when the
/// machine is activated. Immutable.
#[derive(Clone, Debug)]
pub struct Component {
    id: String,
    fingerprint: String,
    name: String,
}

/// What a `Component` holds, as plain values.
pub struct ComponentView {
    pub id: Seq<char>,
    pub fingerprint: Seq<char>,
    pub name: Seq<char>,
}

impl View for Component {
    type V = ComponentView;

    closed spec fn view(&self) -> ComponentView {
        ComponentView {
            id: self.id@,
            fingerprint: self.fingerprint@,
            name: self.name@,
        }
    }
}

impl Component {
    pub fn id(&self) -> (r: String)
        ensures
            r@ == self@.id,
    {
        self.id.clone()
    }

    /// The caller's stable identifier of the part.
    pub fn fingerprint(&self) -> (r: String)
        ensures
            r@ == self@.fingerprint,
    {
        self.fingerprint.clone()
    }

    pub fn name(&self) -> (r: String)
        ensures
            r@ == self@.name,
    {
        self.name.clone()
    }
}

impl Component {
    /// Builds the record from its values.
    pub fn new(id: String, fingerprint: String, name: String) -> (r: Component)
        ensures
            r@.id == id@,
            r@.fingerprint == fingerprint@,
            r@.name == name@,
    {
        Component { id, fingerprint, name }
    }
}

/// Relies on keygen_rs's Component::create_object: the JSON:API object that
/// attaches the component `{id, fingerprint, name}` to an activation.
#[verifier::external_body]
fn component_object(id: &String, fingerprint: &String, name: &String) -> (r: serde_json::Value)
{
    let c = OutsideComponent { id: id.clone(), fingerprint: fingerprint.clone(), name: name.clone() };
    OutsideComponent::create_object(&c)
}

impl Component {
    /// The JSON:API object that attaches this component to an activation.
    pub fn create_object(&self) -> serde_json::Value {
        component_object(&self.id, &self.fingerprint, &self.name)
    }
}

} // verus!
