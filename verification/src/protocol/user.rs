//! The user of an event and where they are.

use crate::annotated::Annotated;
use crate::attrs::{FieldAttrs, Pii};
use crate::meta::Meta;
use crate::processor::action::{settled, Descent, ProcessingResult};
use crate::processor::impls::{for_field, process_value};
use crate::processor::model::{self, Bag, ChildList, Hook, Tree};
use crate::processor::state::ProcessingState;
use crate::processor::traits::{self, Node, ProcessValue, Processor};
use crate::value::{Object, Value};
use crate::value_type::{ValueType, ValueTypeSet};
use crate::protocol::types::{IpAddr, LenientString};
use vstd::prelude::*;

verus! {

/// The geographical location of the end user or of the device.
#[derive(Debug)]
pub struct Geo {
    /// The two-letter country code.
    pub country_code: Annotated<String>,
    /// The name of the city.
    pub city: Annotated<String>,
    /// The name of the subdivision.
    pub subdivision: Annotated<String>,
    /// The name or code of the region.
    pub region: Annotated<String>,
    /// Additional fields that the schema does not declare.
    pub other: Object<Value>,
}

impl Default for Geo {
    /// The value in which every field is absent.
    fn default() -> (r: Geo)
        ensures
            r.country_code.blank(),
            r.city.blank(),
            r.subdivision.blank(),
            r.region.blank(),
            r.other@.len() == 0,
    {
        Geo {
            country_code: Annotated::empty(),
            city: Annotated::empty(),
            subdivision: Annotated::empty(),
            region: Annotated::empty(),
            other: Object::new(),
        }
    }
}

impl Geo {
    /// The declared fields as children, in the order of their declaration.
    pub open spec fn fields(&self) -> ChildList {
        let country_code = model::field(
            "country_code"@,
            FieldAttrs::new().pii(Pii::True).max_chars(102).max_chars_allowance(1004),
            traits::slot_of(self.country_code),
        );
        let city = model::field(
            "city"@,
            FieldAttrs::new().pii(Pii::True).max_chars(1024).max_chars_allowance(100),
            traits::slot_of(self.city),
        );
        let subdivision = model::field(
            "subdivision"@,
            FieldAttrs::new().pii(Pii::True).max_chars(1024).max_chars_allowance(100),
            traits::slot_of(self.subdivision),
        );
        let region = model::field(
            "region"@,
            FieldAttrs::new().pii(Pii::True).max_chars(1024).max_chars_allowance(100),
            traits::slot_of(self.region),
        );
        model::cons(country_code, model::cons(city, model::cons(subdivision,
            model::cons(region, ChildList::Nil))))
    }
}

impl Node for Geo {
    open spec fn tree(&self) -> Tree {
        Tree::Branch {
            hook: Some(Hook::Geo),
            kind: Set::empty(),
            children: self.fields().seq(),
            bag: Some(
                Bag {
                    attrs: FieldAttrs::new().additional_properties(),
                    entries: crate::processor::impls::entries_of(self.other@),
                },
            ),
        }
    }
}

impl ProcessValue for Geo {
    fn value_type(&self) -> (r: ValueTypeSet) {
        ValueTypeSet::empty()
    }

    fn process_value<P: Processor>(
        &mut self,
        meta: &mut Meta,
        processor: &mut P,
        state: &ProcessingState<'_>,
    ) -> (r: ProcessingResult) {
        match processor.process_geo(&*self, meta, state) {
            Ok(Descent::Recurse) => self.process_child_values(processor, state),
            answer => settled(answer),
        }
    }

    fn process_child_values<P: Processor>(
        &mut self,
        processor: &mut P,
        state: &ProcessingState<'_>,
    ) -> (r: ProcessingResult) {
        let ghost mut rest = self.fields();
        proof {
            crate::processor::walk::lemma_visit_list(*processor, rest, state@);
        }
        let ghost bag = self.other;
        let child = state.enter_static(
            "country_code",
            Some(FieldAttrs::new().pii(Pii::True).max_chars(102).max_chars_allowance(1004)),
            for_field(&self.country_code),
        );
        proof {
            crate::processor::walk::lemma_list_step(*processor, rest, state@);
            rest = rest.rest();
        }
        process_value(&mut self.country_code, processor, &child)?;
        let child = state.enter_static(
            "city",
            Some(FieldAttrs::new().pii(Pii::True).max_chars(1024).max_chars_allowance(100)),
            for_field(&self.city),
        );
        proof {
            crate::processor::walk::lemma_list_step(*processor, rest, state@);
            rest = rest.rest();
        }
        process_value(&mut self.city, processor, &child)?;
        let child = state.enter_static(
            "subdivision",
            Some(FieldAttrs::new().pii(Pii::True).max_chars(1024).max_chars_allowance(100)),
            for_field(&self.subdivision),
        );
        proof {
            crate::processor::walk::lemma_list_step(*processor, rest, state@);
            rest = rest.rest();
        }
        process_value(&mut self.subdivision, processor, &child)?;
        let child = state.enter_static(
            "region",
            Some(FieldAttrs::new().pii(Pii::True).max_chars(1024).max_chars_allowance(100)),
            for_field(&self.region),
        );
        proof {
            crate::processor::walk::lemma_list_step(*processor, rest, state@);
            rest = rest.rest();
        }
        process_value(&mut self.region, processor, &child)?;
        proof {
            crate::processor::walk::lemma_list_step(*processor, rest, state@);
        }
        let bag_state = state.enter_nothing(Some(FieldAttrs::new().additional_properties()));
        match processor.process_other(&self.other, &bag_state) {
            Ok(Descent::Recurse) => {
                let ghost asked = *processor;
                let r = self.other.process_child_values(processor, &bag_state);
                proof {
                    let below = crate::processor::walk::visit_children(
                        asked,
                        crate::processor::traits::Node::tree(&bag),
                        bag_state@,
                    );
                    assert(below.tree == crate::processor::traits::Node::tree(&self.other));
                }
                r
            },
            answer => settled(answer),
        }
    }
}

/// The user who triggered an event.
#[derive(Debug)]
pub struct User {
    /// The identifier of the user.
    pub id: Annotated<LenientString>,
    /// The email address of the user.
    pub email: Annotated<String>,
    /// The IP address of the user.
    pub ip_address: Annotated<IpAddr>,
    /// The username of the user.
    pub username: Annotated<LenientString>,
    /// The name of the user.
    pub name: Annotated<String>,
    /// The user as one string: the name of a field, a colon and the value of the field.
    pub sentry_user: Annotated<String>,
    /// The approximate location of the user or of the device.
    pub geo: Annotated<Geo>,
    /// The segment of users that the user belongs to.
    pub segment: Annotated<String>,
    /// Additional data of the user, as it is stored.
    pub data: Annotated<Object<Value>>,
    /// Additional fields that the schema does not declare.
    pub other: Object<Value>,
}

impl Default for User {
    /// The value in which every field is absent.
    fn default() -> (r: User)
        ensures
            r.id.blank(),
            r.email.blank(),
            r.ip_address.blank(),
            r.username.blank(),
            r.name.blank(),
            r.sentry_user.blank(),
            r.geo.blank(),
            r.segment.blank(),
            r.data.blank(),
            r.other@.len() == 0,
    {
        User {
            id: Annotated::empty(),
            email: Annotated::empty(),
            ip_address: Annotated::empty(),
            username: Annotated::empty(),
            name: Annotated::empty(),
            sentry_user: Annotated::empty(),
            geo: Annotated::empty(),
            segment: Annotated::empty(),
            data: Annotated::empty(),
            other: Object::new(),
        }
    }
}

impl User {
    /// The declared fields as children, in the order of their declaration.
    pub open spec fn fields(&self) -> ChildList {
        let id = model::field(
            "id"@,
            FieldAttrs::new().pii(Pii::True).max_chars(128),
            traits::slot_of(self.id),
        );
        let email = model::field(
            "email"@,
            FieldAttrs::new().pii(Pii::True).max_chars(75),
            traits::slot_of(self.email),
        );
        let ip_address = model::field(
            "ip_address"@,
            FieldAttrs::new().pii(Pii::True),
            traits::slot_of(self.ip_address),
        );
        let username = model::field(
            "username"@,
            FieldAttrs::new().pii(Pii::True).max_chars(128),
            traits::slot_of(self.username),
        );
        let name = model::field(
            "name"@,
            FieldAttrs::new().pii(Pii::True).max_chars(128),
            traits::slot_of(self.name),
        );
        let sentry_user = model::field(
            "sentry_user"@,
            FieldAttrs::new().pii(Pii::True),
            traits::slot_of(self.sentry_user),
        );
        let geo = model::field(
            "geo"@,
            FieldAttrs::new(),
            traits::slot_of(self.geo),
        );
        let segment = model::field(
            "segment"@,
            FieldAttrs::new(),
            traits::slot_of(self.segment),
        );
        let data = model::field(
            "data"@,
            FieldAttrs::new().pii(Pii::True),
            traits::slot_of(self.data),
        );
        model::cons(id, model::cons(email, model::cons(ip_address, model::cons(username,
            model::cons(name, model::cons(sentry_user, model::cons(geo, model::cons(segment,
            model::cons(data, ChildList::Nil)))))))))
    }
}

impl Node for User {
    open spec fn tree(&self) -> Tree {
        Tree::Branch {
            hook: Some(Hook::User),
            kind: set![ValueType::User],
            children: self.fields().seq(),
            bag: Some(
                Bag {
                    attrs: FieldAttrs::new().additional_properties().pii(Pii::True),
                    entries: crate::processor::impls::entries_of(self.other@),
                },
            ),
        }
    }
}

impl ProcessValue for User {
    fn value_type(&self) -> (r: ValueTypeSet) {
        ValueTypeSet::only(ValueType::User)
    }

    fn process_value<P: Processor>(
        &mut self,
        meta: &mut Meta,
        processor: &mut P,
        state: &ProcessingState<'_>,
    ) -> (r: ProcessingResult) {
        match processor.process_user(&*self, meta, state) {
            Ok(Descent::Recurse) => self.process_child_values(processor, state),
            answer => settled(answer),
        }
    }

    fn process_child_values<P: Processor>(
        &mut self,
        processor: &mut P,
        state: &ProcessingState<'_>,
    ) -> (r: ProcessingResult) {
        let ghost mut rest = self.fields();
        proof {
            crate::processor::walk::lemma_visit_list(*processor, rest, state@);
        }
        let ghost bag = self.other;
        let child = state.enter_static(
            "id",
            Some(FieldAttrs::new().pii(Pii::True).max_chars(128)),
            for_field(&self.id),
        );
        proof {
            crate::processor::walk::lemma_list_step(*processor, rest, state@);
            rest = rest.rest();
        }
        process_value(&mut self.id, processor, &child)?;
        let child = state.enter_static(
            "email",
            Some(FieldAttrs::new().pii(Pii::True).max_chars(75)),
            for_field(&self.email),
        );
        proof {
            crate::processor::walk::lemma_list_step(*processor, rest, state@);
            rest = rest.rest();
        }
        process_value(&mut self.email, processor, &child)?;
        let child = state.enter_static(
            "ip_address",
            Some(FieldAttrs::new().pii(Pii::True)),
            for_field(&self.ip_address),
        );
        proof {
            crate::processor::walk::lemma_list_step(*processor, rest, state@);
            rest = rest.rest();
        }
        process_value(&mut self.ip_address, processor, &child)?;
        let child = state.enter_static(
            "username",
            Some(FieldAttrs::new().pii(Pii::True).max_chars(128)),
            for_field(&self.username),
        );
        proof {
            crate::processor::walk::lemma_list_step(*processor, rest, state@);
            rest = rest.rest();
        }
        process_value(&mut self.username, processor, &child)?;
        let child = state.enter_static(
            "name",
            Some(FieldAttrs::new().pii(Pii::True).max_chars(128)),
            for_field(&self.name),
        );
        proof {
            crate::processor::walk::lemma_list_step(*processor, rest, state@);
            rest = rest.rest();
        }
        process_value(&mut self.name, processor, &child)?;
        let child = state.enter_static(
            "sentry_user",
            Some(FieldAttrs::new().pii(Pii::True)),
            for_field(&self.sentry_user),
        );
        proof {
            crate::processor::walk::lemma_list_step(*processor, rest, state@);
            rest = rest.rest();
        }
        process_value(&mut self.sentry_user, processor, &child)?;
        let child = state.enter_static(
            "geo",
            Some(FieldAttrs::new()),
            for_field(&self.geo),
        );
        proof {
            crate::processor::walk::lemma_list_step(*processor, rest, state@);
            rest = rest.rest();
        }
        process_value(&mut self.geo, processor, &child)?;
        let child = state.enter_static(
            "segment",
            Some(FieldAttrs::new()),
            for_field(&self.segment),
        );
        proof {
            crate::processor::walk::lemma_list_step(*processor, rest, state@);
            rest = rest.rest();
        }
        process_value(&mut self.segment, processor, &child)?;
        let child = state.enter_static(
            "data",
            Some(FieldAttrs::new().pii(Pii::True)),
            for_field(&self.data),
        );
        proof {
            crate::processor::walk::lemma_list_step(*processor, rest, state@);
            rest = rest.rest();
        }
        process_value(&mut self.data, processor, &child)?;
        proof {
            crate::processor::walk::lemma_list_step(*processor, rest, state@);
        }
        let bag_state = state.enter_nothing(
            Some(FieldAttrs::new().additional_properties().pii(Pii::True)),
        );
        match processor.process_other(&self.other, &bag_state) {
            Ok(Descent::Recurse) => {
                let ghost asked = *processor;
                let r = self.other.process_child_values(processor, &bag_state);
                proof {
                    let below = crate::processor::walk::visit_children(
                        asked,
                        crate::processor::traits::Node::tree(&bag),
                        bag_state@,
                    );
                    assert(below.tree == crate::processor::traits::Node::tree(&self.other));
                }
                r
            },
            answer => settled(answer),
        }
    }
}

} // verus!
