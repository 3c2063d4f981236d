//! The contexts of an event: what is known of the device, the system and the application.

use crate::annotated::Annotated;
use crate::attrs::{FieldAttrs, Pii};
use crate::meta::Meta;
use crate::processor::action::{settled, Descent, ProcessingResult};
use crate::processor::impls::{for_field, process_value};
use crate::processor::model::{self, Bag, ChildList, Hook, Tree};
use crate::processor::state::ProcessingState;
use crate::processor::traits::{self, Node, ProcessValue, Processor};
use crate::value::{Object, Value};
use crate::value_type::ValueTypeSet;
use crate::number::FiniteF64;
use crate::protocol::event_id::EventId;
use crate::protocol::types::{HexId, LenientString, SpanStatus};
use vstd::prelude::*;

verus! {

/// A runtime that the application runs on.
#[derive(Debug)]
pub struct RuntimeContext {
    /// The name and the version as one string.
    pub runtime: Annotated<String>,
    /// The name of the runtime.
    pub name: Annotated<String>,
    /// The version of the runtime.
    pub version: Annotated<String>,
    /// The build of the runtime, where it is apart from the version.
    pub build: Annotated<LenientString>,
    /// The description of the runtime as the runtime gives it.
    pub raw_description: Annotated<String>,
    /// Additional fields that the schema does not declare.
    pub other: Object<Value>,
}

impl Default for RuntimeContext {
    /// The value in which every field is absent.
    fn default() -> (r: RuntimeContext)
        ensures
            r.runtime.blank(),
            r.name.blank(),
            r.version.blank(),
            r.build.blank(),
            r.raw_description.blank(),
            r.other@.len() == 0,
    {
        RuntimeContext {
            runtime: Annotated::empty(),
            name: Annotated::empty(),
            version: Annotated::empty(),
            build: Annotated::empty(),
            raw_description: Annotated::empty(),
            other: Object::new(),
        }
    }
}

impl RuntimeContext {
    /// The declared fields as children, in the order of their declaration.
    pub open spec fn fields(&self) -> ChildList {
        let runtime = model::field(
            "runtime"@,
            FieldAttrs::new(),
            traits::slot_of(self.runtime),
        );
        let name = model::field(
            "name"@,
            FieldAttrs::new(),
            traits::slot_of(self.name),
        );
        let version = model::field(
            "version"@,
            FieldAttrs::new(),
            traits::slot_of(self.version),
        );
        let build = model::field(
            "build"@,
            FieldAttrs::new().pii(Pii::Maybe),
            traits::slot_of(self.build),
        );
        let raw_description = model::field(
            "raw_description"@,
            FieldAttrs::new().pii(Pii::Maybe),
            traits::slot_of(self.raw_description),
        );
        model::cons(runtime, model::cons(name, model::cons(version, model::cons(build,
            model::cons(raw_description, ChildList::Nil)))))
    }
}

impl Node for RuntimeContext {
    open spec fn tree(&self) -> Tree {
        Tree::Branch {
            hook: None,
            kind: Set::empty(),
            children: self.fields().seq(),
            bag: Some(
                Bag {
                    attrs: FieldAttrs::new().additional_properties().retain(true).pii(Pii::Maybe),
                    entries: crate::processor::impls::entries_of(self.other@),
                },
            ),
        }
    }
}

impl ProcessValue for RuntimeContext {
    fn value_type(&self) -> (r: ValueTypeSet) {
        ValueTypeSet::empty()
    }

    fn process_value<P: Processor>(
        &mut self,
        meta: &mut Meta,
        processor: &mut P,
        state: &ProcessingState<'_>,
    ) -> (r: ProcessingResult) {
        self.process_child_values(processor, state)
    }

    fn process_child_values<P: Processor>(
        &mut self,
        processor: &mut P,
        state: &ProcessingState<'_>,
    ) -> (r: ProcessingResult) {
        let ghost mut rest = self.fields();
        proof {
            crate::processor::walk::lemma_visit_list(*processor, rest, state@);
        }
        let ghost bag = self.other;
        let child = state.enter_static(
            "runtime",
            Some(FieldAttrs::new()),
            for_field(&self.runtime),
        );
        proof {
            crate::processor::walk::lemma_list_step(*processor, rest, state@);
            rest = rest.rest();
        }
        process_value(&mut self.runtime, processor, &child)?;
        let child = state.enter_static(
            "name",
            Some(FieldAttrs::new()),
            for_field(&self.name),
        );
        proof {
            crate::processor::walk::lemma_list_step(*processor, rest, state@);
            rest = rest.rest();
        }
        process_value(&mut self.name, processor, &child)?;
        let child = state.enter_static(
            "version",
            Some(FieldAttrs::new()),
            for_field(&self.version),
        );
        proof {
            crate::processor::walk::lemma_list_step(*processor, rest, state@);
            rest = rest.rest();
        }
        process_value(&mut self.version, processor, &child)?;
        let child = state.enter_static(
            "build",
            Some(FieldAttrs::new().pii(Pii::Maybe)),
            for_field(&self.build),
        );
        proof {
            crate::processor::walk::lemma_list_step(*processor, rest, state@);
            rest = rest.rest();
        }
        process_value(&mut self.build, processor, &child)?;
        let child = state.enter_static(
            "raw_description",
            Some(FieldAttrs::new().pii(Pii::Maybe)),
            for_field(&self.raw_description),
        );
        proof {
            crate::processor::walk::lemma_list_step(*processor, rest, state@);
            rest = rest.rest();
        }
        process_value(&mut self.raw_description, processor, &child)?;
        proof {
            crate::processor::walk::lemma_list_step(*processor, rest, state@);
        }
        let bag_state = state.enter_nothing(
            Some(FieldAttrs::new().additional_properties().retain(true).pii(Pii::Maybe)),
        );
        match processor.process_other(&self.other, &bag_state) {
            Ok(Descent::Recurse) => {
                let ghost asked = *processor;
                let r = self.other.process_child_values(processor, &bag_state);
                proof {
                    let below = crate::processor::walk::visit_children(
                        asked,
                        crate::processor::traits::Node::tree(&bag),
                        bag_state@,
                    );
                    assert(below.tree == crate::processor::traits::Node::tree(&self.other));
                }
                r
            },
            answer => settled(answer),
        }
    }
}

/// The device that the application runs on.
#[derive(Debug)]
pub struct DeviceContext {
    /// The name of the device.
    pub name: Annotated<String>,
    /// The family of the device.
    pub family: Annotated<String>,
    /// The model of the device.
    pub model: Annotated<String>,
    /// The architecture of the processor.
    pub arch: Annotated<String>,
    /// The charge of the battery in percent.
    pub battery_level: Annotated<FiniteF64>,
    /// How the device is held.
    pub orientation: Annotated<String>,
    /// The brand of the device.
    pub brand: Annotated<String>,
    /// The height of the screen in pixels.
    pub screen_height_pixels: Annotated<u64>,
    /// The width of the screen in pixels.
    pub screen_width_pixels: Annotated<u64>,
    /// The density of the screen.
    pub screen_density: Annotated<FiniteF64>,
    /// The dots per inch of the screen.
    pub screen_dpi: Annotated<u64>,
    /// Whether the device is online.
    pub online: Annotated<bool>,
    /// Whether the device is charging.
    pub charging: Annotated<bool>,
    /// Whether the device is simulated.
    pub simulator: Annotated<bool>,
    /// The locale of the device.
    pub locale: Annotated<String>,
    /// The identifier of the device.
    pub uuid: Annotated<HexId>,
    /// Additional fields that the schema does not declare.
    pub other: Object<Value>,
}

impl Default for DeviceContext {
    /// The value in which every field is absent.
    fn default() -> (r: DeviceContext)
        ensures
            r.name.blank(),
            r.family.blank(),
            r.model.blank(),
            r.arch.blank(),
            r.battery_level.blank(),
            r.orientation.blank(),
            r.brand.blank(),
            r.screen_height_pixels.blank(),
            r.screen_width_pixels.blank(),
            r.screen_density.blank(),
            r.screen_dpi.blank(),
            r.online.blank(),
            r.charging.blank(),
            r.simulator.blank(),
            r.locale.blank(),
            r.uuid.blank(),
            r.other@.len() == 0,
    {
        DeviceContext {
            name: Annotated::empty(),
            family: Annotated::empty(),
            model: Annotated::empty(),
            arch: Annotated::empty(),
            battery_level: Annotated::empty(),
            orientation: Annotated::empty(),
            brand: Annotated::empty(),
            screen_height_pixels: Annotated::empty(),
            screen_width_pixels: Annotated::empty(),
            screen_density: Annotated::empty(),
            screen_dpi: Annotated::empty(),
            online: Annotated::empty(),
            charging: Annotated::empty(),
            simulator: Annotated::empty(),
            locale: Annotated::empty(),
            uuid: Annotated::empty(),
            other: Object::new(),
        }
    }
}

impl DeviceContext {
    /// The declared fields as children, in the order of their declaration.
    pub open spec fn fields(&self) -> ChildList {
        let name = model::field(
            "name"@,
            FieldAttrs::new().pii(Pii::Maybe),
            traits::slot_of(self.name),
        );
        let family = model::field(
            "family"@,
            FieldAttrs::new(),
            traits::slot_of(self.family),
        );
        let model = model::field(
            "model"@,
            FieldAttrs::new(),
            traits::slot_of(self.model),
        );
        let arch = model::field(
            "arch"@,
            FieldAttrs::new(),
            traits::slot_of(self.arch),
        );
        let battery_level = model::field(
            "battery_level"@,
            FieldAttrs::new(),
            traits::slot_of(self.battery_level),
        );
        let orientation = model::field(
            "orientation"@,
            FieldAttrs::new(),
            traits::slot_of(self.orientation),
        );
        let brand = model::field(
            "brand"@,
            FieldAttrs::new(),
            traits::slot_of(self.brand),
        );
        let screen_height_pixels = model::field(
            "screen_height_pixels"@,
            FieldAttrs::new(),
            traits::slot_of(self.screen_height_pixels),
        );
        let screen_width_pixels = model::field(
            "screen_width_pixels"@,
            FieldAttrs::new(),
            traits::slot_of(self.screen_width_pixels),
        );
        let screen_density = model::field(
            "screen_density"@,
            FieldAttrs::new(),
            traits::slot_of(self.screen_density),
        );
        let screen_dpi = model::field(
            "screen_dpi"@,
            FieldAttrs::new(),
            traits::slot_of(self.screen_dpi),
        );
        let online = model::field(
            "online"@,
            FieldAttrs::new(),
            traits::slot_of(self.online),
        );
        let charging = model::field(
            "charging"@,
            FieldAttrs::new(),
            traits::slot_of(self.charging),
        );
        let simulator = model::field(
            "simulator"@,
            FieldAttrs::new(),
            traits::slot_of(self.simulator),
        );
        let locale = model::field(
            "locale"@,
            FieldAttrs::new().pii(Pii::Maybe),
            traits::slot_of(self.locale),
        );
        let uuid = model::field(
            "uuid"@,
            FieldAttrs::new().pii(Pii::Maybe),
            traits::slot_of(self.uuid),
        );
        model::cons(name, model::cons(family, model::cons(model, model::cons(arch,
            model::cons(battery_level, model::cons(orientation, model::cons(brand,
            model::cons(screen_height_pixels, model::cons(screen_width_pixels,
            model::cons(screen_density, model::cons(screen_dpi, model::cons(online,
            model::cons(charging, model::cons(simulator, model::cons(locale, model::cons(uuid,
            ChildList::Nil))))))))))))))))
    }
}

impl Node for DeviceContext {
    open spec fn tree(&self) -> Tree {
        Tree::Branch {
            hook: None,
            kind: Set::empty(),
            children: self.fields().seq(),
            bag: Some(
                Bag {
                    attrs: FieldAttrs::new().additional_properties().retain(true).pii(Pii::Maybe),
                    entries: crate::processor::impls::entries_of(self.other@),
                },
            ),
        }
    }
}

impl ProcessValue for DeviceContext {
    fn value_type(&self) -> (r: ValueTypeSet) {
        ValueTypeSet::empty()
    }

    fn process_value<P: Processor>(
        &mut self,
        meta: &mut Meta,
        processor: &mut P,
        state: &ProcessingState<'_>,
    ) -> (r: ProcessingResult) {
        self.process_child_values(processor, state)
    }

    fn process_child_values<P: Processor>(
        &mut self,
        processor: &mut P,
        state: &ProcessingState<'_>,
    ) -> (r: ProcessingResult) {
        let ghost mut rest = self.fields();
        proof {
            crate::processor::walk::lemma_visit_list(*processor, rest, state@);
        }
        let ghost bag = self.other;
        let child = state.enter_static(
            "name",
            Some(FieldAttrs::new().pii(Pii::Maybe)),
            for_field(&self.name),
        );
        proof {
            crate::processor::walk::lemma_list_step(*processor, rest, state@);
            rest = rest.rest();
        }
        process_value(&mut self.name, processor, &child)?;
        let child = state.enter_static(
            "family",
            Some(FieldAttrs::new()),
            for_field(&self.family),
        );
        proof {
            crate::processor::walk::lemma_list_step(*processor, rest, state@);
            rest = rest.rest();
        }
        process_value(&mut self.family, processor, &child)?;
        let child = state.enter_static(
            "model",
            Some(FieldAttrs::new()),
            for_field(&self.model),
        );
        proof {
            crate::processor::walk::lemma_list_step(*processor, rest, state@);
            rest = rest.rest();
        }
        process_value(&mut self.model, processor, &child)?;
        let child = state.enter_static(
            "arch",
            Some(FieldAttrs::new()),
            for_field(&self.arch),
        );
        proof {
            crate::processor::walk::lemma_list_step(*processor, rest, state@);
            rest = rest.rest();
        }
        process_value(&mut self.arch, processor, &child)?;
        let child = state.enter_static(
            "battery_level",
            Some(FieldAttrs::new()),
            for_field(&self.battery_level),
        );
        proof {
            crate::processor::walk::lemma_list_step(*processor, rest, state@);
            rest = rest.rest();
        }
        process_value(&mut self.battery_level, processor, &child)?;
        let child = state.enter_static(
            "orientation",
            Some(FieldAttrs::new()),
            for_field(&self.orientation),
        );
        proof {
            crate::processor::walk::lemma_list_step(*processor, rest, state@);
            rest = rest.rest();
        }
        process_value(&mut self.orientation, processor, &child)?;
        let child = state.enter_static(
            "brand",
            Some(FieldAttrs::new()),
            for_field(&self.brand),
        );
        proof {
            crate::processor::walk::lemma_list_step(*processor, rest, state@);
            rest = rest.rest();
        }
        process_value(&mut self.brand, processor, &child)?;
        let child = state.enter_static(
            "screen_height_pixels",
            Some(FieldAttrs::new()),
            for_field(&self.screen_height_pixels),
        );
        proof {
            crate::processor::walk::lemma_list_step(*processor, rest, state@);
            rest = rest.rest();
        }
        process_value(&mut self.screen_height_pixels, processor, &child)?;
        let child = state.enter_static(
            "screen_width_pixels",
            Some(FieldAttrs::new()),
            for_field(&self.screen_width_pixels),
        );
        proof {
            crate::processor::walk::lemma_list_step(*processor, rest, state@);
            rest = rest.rest();
        }
        process_value(&mut self.screen_width_pixels, processor, &child)?;
        let child = state.enter_static(
            "screen_density",
            Some(FieldAttrs::new()),
            for_field(&self.screen_density),
        );
        proof {
            crate::processor::walk::lemma_list_step(*processor, rest, state@);
            rest = rest.rest();
        }
        process_value(&mut self.screen_density, processor, &child)?;
        let child = state.enter_static(
            "screen_dpi",
            Some(FieldAttrs::new()),
            for_field(&self.screen_dpi),
        );
        proof {
            crate::processor::walk::lemma_list_step(*processor, rest, state@);
            rest = rest.rest();
        }
        process_value(&mut self.screen_dpi, processor, &child)?;
        let child = state.enter_static(
            "online",
            Some(FieldAttrs::new()),
            for_field(&self.online),
        );
        proof {
            crate::processor::walk::lemma_list_step(*processor, rest, state@);
            rest = rest.rest();
        }
        process_value(&mut self.online, processor, &child)?;
        let child = state.enter_static(
            "charging",
            Some(FieldAttrs::new()),
            for_field(&self.charging),
        );
        proof {
            crate::processor::walk::lemma_list_step(*processor, rest, state@);
            rest = rest.rest();
        }
        process_value(&mut self.charging, processor, &child)?;
        let child = state.enter_static(
            "simulator",
            Some(FieldAttrs::new()),
            for_field(&self.simulator),
        );
        proof {
            crate::processor::walk::lemma_list_step(*processor, rest, state@);
            rest = rest.rest();
        }
        process_value(&mut self.simulator, processor, &child)?;
        let child = state.enter_static(
            "locale",
            Some(FieldAttrs::new().pii(Pii::Maybe)),
            for_field(&self.locale),
        );
        proof {
            crate::processor::walk::lemma_list_step(*processor, rest, state@);
            rest = rest.rest();
        }
        process_value(&mut self.locale, processor, &child)?;
        let child = state.enter_static(
            "uuid",
            Some(FieldAttrs::new().pii(Pii::Maybe)),
            for_field(&self.uuid),
        );
        proof {
            crate::processor::walk::lemma_list_step(*processor, rest, state@);
            rest = rest.rest();
        }
        process_value(&mut self.uuid, processor, &child)?;
        proof {
            crate::processor::walk::lemma_list_step(*processor, rest, state@);
        }
        let bag_state = state.enter_nothing(
            Some(FieldAttrs::new().additional_properties().retain(true).pii(Pii::Maybe)),
        );
        match processor.process_other(&self.other, &bag_state) {
            Ok(Descent::Recurse) => {
                let ghost asked = *processor;
                let r = self.other.process_child_values(processor, &bag_state);
                proof {
                    let below = crate::processor::walk::visit_children(
                        asked,
                        crate::processor::traits::Node::tree(&bag),
                        bag_state@,
                    );
                    assert(below.tree == crate::processor::traits::Node::tree(&self.other));
                }
                r
            },
            answer => settled(answer),
        }
    }
}

/// The operating system that the application runs on.
#[derive(Debug)]
pub struct OsContext {
    /// The name and the version as one string.
    pub os: Annotated<String>,
    /// The name of the operating system.
    pub name: Annotated<String>,
    /// The version of the operating system.
    pub version: Annotated<String>,
    /// The build of the operating system.
    pub build: Annotated<LenientString>,
    /// The version of the kernel.
    pub kernel_version: Annotated<String>,
    /// Whether the operating system was rooted.
    pub rooted: Annotated<bool>,
    /// The description of the operating system as it gives it.
    pub raw_description: Annotated<String>,
    /// Additional fields that the schema does not declare.
    pub other: Object<Value>,
}

impl Default for OsContext {
    /// The value in which every field is absent.
    fn default() -> (r: OsContext)
        ensures
            r.os.blank(),
            r.name.blank(),
            r.version.blank(),
            r.build.blank(),
            r.kernel_version.blank(),
            r.rooted.blank(),
            r.raw_description.blank(),
            r.other@.len() == 0,
    {
        OsContext {
            os: Annotated::empty(),
            name: Annotated::empty(),
            version: Annotated::empty(),
            build: Annotated::empty(),
            kernel_version: Annotated::empty(),
            rooted: Annotated::empty(),
            raw_description: Annotated::empty(),
            other: Object::new(),
        }
    }
}

impl OsContext {
    /// The declared fields as children, in the order of their declaration.
    pub open spec fn fields(&self) -> ChildList {
        let os = model::field(
            "os"@,
            FieldAttrs::new(),
            traits::slot_of(self.os),
        );
        let name = model::field(
            "name"@,
            FieldAttrs::new(),
            traits::slot_of(self.name),
        );
        let version = model::field(
            "version"@,
            FieldAttrs::new(),
            traits::slot_of(self.version),
        );
        let build = model::field(
            "build"@,
            FieldAttrs::new(),
            traits::slot_of(self.build),
        );
        let kernel_version = model::field(
            "kernel_version"@,
            FieldAttrs::new(),
            traits::slot_of(self.kernel_version),
        );
        let rooted = model::field(
            "rooted"@,
            FieldAttrs::new(),
            traits::slot_of(self.rooted),
        );
        let raw_description = model::field(
            "raw_description"@,
            FieldAttrs::new(),
            traits::slot_of(self.raw_description),
        );
        model::cons(os, model::cons(name, model::cons(version, model::cons(build,
            model::cons(kernel_version, model::cons(rooted, model::cons(raw_description,
            ChildList::Nil)))))))
    }
}

impl Node for OsContext {
    open spec fn tree(&self) -> Tree {
        Tree::Branch {
            hook: None,
            kind: Set::empty(),
            children: self.fields().seq(),
            bag: Some(
                Bag {
                    attrs: FieldAttrs::new().additional_properties().retain(true).pii(Pii::Maybe),
                    entries: crate::processor::impls::entries_of(self.other@),
                },
            ),
        }
    }
}

impl ProcessValue for OsContext {
    fn value_type(&self) -> (r: ValueTypeSet) {
        ValueTypeSet::empty()
    }

    fn process_value<P: Processor>(
        &mut self,
        meta: &mut Meta,
        processor: &mut P,
        state: &ProcessingState<'_>,
    ) -> (r: ProcessingResult) {
        self.process_child_values(processor, state)
    }

    fn process_child_values<P: Processor>(
        &mut self,
        processor: &mut P,
        state: &ProcessingState<'_>,
    ) -> (r: ProcessingResult) {
        let ghost mut rest = self.fields();
        proof {
            crate::processor::walk::lemma_visit_list(*processor, rest, state@);
        }
        let ghost bag = self.other;
        let child = state.enter_static(
            "os",
            Some(FieldAttrs::new()),
            for_field(&self.os),
        );
        proof {
            crate::processor::walk::lemma_list_step(*processor, rest, state@);
            rest = rest.rest();
        }
        process_value(&mut self.os, processor, &child)?;
        let child = state.enter_static(
            "name",
            Some(FieldAttrs::new()),
            for_field(&self.name),
        );
        proof {
            crate::processor::walk::lemma_list_step(*processor, rest, state@);
            rest = rest.rest();
        }
        process_value(&mut self.name, processor, &child)?;
        let child = state.enter_static(
            "version",
            Some(FieldAttrs::new()),
            for_field(&self.version),
        );
        proof {
            crate::processor::walk::lemma_list_step(*processor, rest, state@);
            rest = rest.rest();
        }
        process_value(&mut self.version, processor, &child)?;
        let child = state.enter_static(
            "build",
            Some(FieldAttrs::new()),
            for_field(&self.build),
        );
        proof {
            crate::processor::walk::lemma_list_step(*processor, rest, state@);
            rest = rest.rest();
        }
        process_value(&mut self.build, processor, &child)?;
        let child = state.enter_static(
            "kernel_version",
            Some(FieldAttrs::new()),
            for_field(&self.kernel_version),
        );
        proof {
            crate::processor::walk::lemma_list_step(*processor, rest, state@);
            rest = rest.rest();
        }
        process_value(&mut self.kernel_version, processor, &child)?;
        let child = state.enter_static(
            "rooted",
            Some(FieldAttrs::new()),
            for_field(&self.rooted),
        );
        proof {
            crate::processor::walk::lemma_list_step(*processor, rest, state@);
            rest = rest.rest();
        }
        process_value(&mut self.rooted, processor, &child)?;
        let child = state.enter_static(
            "raw_description",
            Some(FieldAttrs::new()),
            for_field(&self.raw_description),
        );
        proof {
            crate::processor::walk::lemma_list_step(*processor, rest, state@);
            rest = rest.rest();
        }
        process_value(&mut self.raw_description, processor, &child)?;
        proof {
            crate::processor::walk::lemma_list_step(*processor, rest, state@);
        }
        let bag_state = state.enter_nothing(
            Some(FieldAttrs::new().additional_properties().retain(true).pii(Pii::Maybe)),
        );
        match processor.process_other(&self.other, &bag_state) {
            Ok(Descent::Recurse) => {
                let ghost asked = *processor;
                let r = self.other.process_child_values(processor, &bag_state);
                proof {
                    let below = crate::processor::walk::visit_children(
                        asked,
                        crate::processor::traits::Node::tree(&bag),
                        bag_state@,
                    );
                    assert(below.tree == crate::processor::traits::Node::tree(&self.other));
                }
                r
            },
            answer => settled(answer),
        }
    }
}

/// The application that sent the event.
#[derive(Debug)]
pub struct AppContext {
    /// The hash that identifies the application on the device.
    pub device_app_hash: Annotated<String>,
    /// The identifier of the application.
    pub app_identifier: Annotated<String>,
    /// The name of the application.
    pub app_name: Annotated<String>,
    /// The version of the application.
    pub app_version: Annotated<String>,
    /// Whether the application was in the foreground.
    pub in_foreground: Annotated<bool>,
    /// Additional fields that the schema does not declare.
    pub other: Object<Value>,
}

impl Default for AppContext {
    /// The value in which every field is absent.
    fn default() -> (r: AppContext)
        ensures
            r.device_app_hash.blank(),
            r.app_identifier.blank(),
            r.app_name.blank(),
            r.app_version.blank(),
            r.in_foreground.blank(),
            r.other@.len() == 0,
    {
        AppContext {
            device_app_hash: Annotated::empty(),
            app_identifier: Annotated::empty(),
            app_name: Annotated::empty(),
            app_version: Annotated::empty(),
            in_foreground: Annotated::empty(),
            other: Object::new(),
        }
    }
}

impl AppContext {
    /// The declared fields as children, in the order of their declaration.
    pub open spec fn fields(&self) -> ChildList {
        let device_app_hash = model::field(
            "device_app_hash"@,
            FieldAttrs::new().pii(Pii::Maybe),
            traits::slot_of(self.device_app_hash),
        );
        let app_identifier = model::field(
            "app_identifier"@,
            FieldAttrs::new(),
            traits::slot_of(self.app_identifier),
        );
        let app_name = model::field(
            "app_name"@,
            FieldAttrs::new(),
            traits::slot_of(self.app_name),
        );
        let app_version = model::field(
            "app_version"@,
            FieldAttrs::new(),
            traits::slot_of(self.app_version),
        );
        let in_foreground = model::field(
            "in_foreground"@,
            FieldAttrs::new(),
            traits::slot_of(self.in_foreground),
        );
        model::cons(device_app_hash, model::cons(app_identifier, model::cons(app_name,
            model::cons(app_version, model::cons(in_foreground, ChildList::Nil)))))
    }
}

impl Node for AppContext {
    open spec fn tree(&self) -> Tree {
        Tree::Branch {
            hook: None,
            kind: Set::empty(),
            children: self.fields().seq(),
            bag: Some(
                Bag {
                    attrs: FieldAttrs::new().additional_properties().retain(true).pii(Pii::Maybe),
                    entries: crate::processor::impls::entries_of(self.other@),
                },
            ),
        }
    }
}

impl ProcessValue for AppContext {
    fn value_type(&self) -> (r: ValueTypeSet) {
        ValueTypeSet::empty()
    }

    fn process_value<P: Processor>(
        &mut self,
        meta: &mut Meta,
        processor: &mut P,
        state: &ProcessingState<'_>,
    ) -> (r: ProcessingResult) {
        self.process_child_values(processor, state)
    }

    fn process_child_values<P: Processor>(
        &mut self,
        processor: &mut P,
        state: &ProcessingState<'_>,
    ) -> (r: ProcessingResult) {
        let ghost mut rest = self.fields();
        proof {
            crate::processor::walk::lemma_visit_list(*processor, rest, state@);
        }
        let ghost bag = self.other;
        let child = state.enter_static(
            "device_app_hash",
            Some(FieldAttrs::new().pii(Pii::Maybe)),
            for_field(&self.device_app_hash),
        );
        proof {
            crate::processor::walk::lemma_list_step(*processor, rest, state@);
            rest = rest.rest();
        }
        process_value(&mut self.device_app_hash, processor, &child)?;
        let child = state.enter_static(
            "app_identifier",
            Some(FieldAttrs::new()),
            for_field(&self.app_identifier),
        );
        proof {
            crate::processor::walk::lemma_list_step(*processor, rest, state@);
            rest = rest.rest();
        }
        process_value(&mut self.app_identifier, processor, &child)?;
        let child = state.enter_static(
            "app_name",
            Some(FieldAttrs::new()),
            for_field(&self.app_name),
        );
        proof {
            crate::processor::walk::lemma_list_step(*processor, rest, state@);
            rest = rest.rest();
        }
        process_value(&mut self.app_name, processor, &child)?;
        let child = state.enter_static(
            "app_version",
            Some(FieldAttrs::new()),
            for_field(&self.app_version),
        );
        proof {
            crate::processor::walk::lemma_list_step(*processor, rest, state@);
            rest = rest.rest();
        }
        process_value(&mut self.app_version, processor, &child)?;
        let child = state.enter_static(
            "in_foreground",
            Some(FieldAttrs::new()),
            for_field(&self.in_foreground),
        );
        proof {
            crate::processor::walk::lemma_list_step(*processor, rest, state@);
            rest = rest.rest();
        }
        process_value(&mut self.in_foreground, processor, &child)?;
        proof {
            crate::processor::walk::lemma_list_step(*processor, rest, state@);
        }
        let bag_state = state.enter_nothing(
            Some(FieldAttrs::new().additional_properties().retain(true).pii(Pii::Maybe)),
        );
        match processor.process_other(&self.other, &bag_state) {
            Ok(Descent::Recurse) => {
                let ghost asked = *processor;
                let r = self.other.process_child_values(processor, &bag_state);
                proof {
                    let below = crate::processor::walk::visit_children(
                        asked,
                        crate::processor::traits::Node::tree(&bag),
                        bag_state@,
                    );
                    assert(below.tree == crate::processor::traits::Node::tree(&self.other));
                }
                r
            },
            answer => settled(answer),
        }
    }
}

/// The browser that the application runs in.
#[derive(Debug)]
pub struct BrowserContext {
    /// The name and the version as one string.
    pub browser: Annotated<String>,
    /// The name of the browser.
    pub name: Annotated<String>,
    /// The version of the browser.
    pub version: Annotated<String>,
    /// Additional fields that the schema does not declare.
    pub other: Object<Value>,
}

impl Default for BrowserContext {
    /// The value in which every field is absent.
    fn default() -> (r: BrowserContext)
        ensures
            r.browser.blank(),
            r.name.blank(),
            r.version.blank(),
            r.other@.len() == 0,
    {
        BrowserContext {
            browser: Annotated::empty(),
            name: Annotated::empty(),
            version: Annotated::empty(),
            other: Object::new(),
        }
    }
}

impl BrowserContext {
    /// The declared fields as children, in the order of their declaration.
    pub open spec fn fields(&self) -> ChildList {
        let browser = model::field(
            "browser"@,
            FieldAttrs::new(),
            traits::slot_of(self.browser),
        );
        let name = model::field(
            "name"@,
            FieldAttrs::new(),
            traits::slot_of(self.name),
        );
        let version = model::field(
            "version"@,
            FieldAttrs::new(),
            traits::slot_of(self.version),
        );
        model::cons(browser, model::cons(name, model::cons(version, ChildList::Nil)))
    }
}

impl Node for BrowserContext {
    open spec fn tree(&self) -> Tree {
        Tree::Branch {
            hook: None,
            kind: Set::empty(),
            children: self.fields().seq(),
            bag: Some(
                Bag {
                    attrs: FieldAttrs::new().additional_properties().retain(true).pii(Pii::Maybe),
                    entries: crate::processor::impls::entries_of(self.other@),
                },
            ),
        }
    }
}

impl ProcessValue for BrowserContext {
    fn value_type(&self) -> (r: ValueTypeSet) {
        ValueTypeSet::empty()
    }

    fn process_value<P: Processor>(
        &mut self,
        meta: &mut Meta,
        processor: &mut P,
        state: &ProcessingState<'_>,
    ) -> (r: ProcessingResult) {
        self.process_child_values(processor, state)
    }

    fn process_child_values<P: Processor>(
        &mut self,
        processor: &mut P,
        state: &ProcessingState<'_>,
    ) -> (r: ProcessingResult) {
        let ghost mut rest = self.fields();
        proof {
            crate::processor::walk::lemma_visit_list(*processor, rest, state@);
        }
        let ghost bag = self.other;
        let child = state.enter_static(
            "browser",
            Some(FieldAttrs::new()),
            for_field(&self.browser),
        );
        proof {
            crate::processor::walk::lemma_list_step(*processor, rest, state@);
            rest = rest.rest();
        }
        process_value(&mut self.browser, processor, &child)?;
        let child = state.enter_static(
            "name",
            Some(FieldAttrs::new()),
            for_field(&self.name),
        );
        proof {
            crate::processor::walk::lemma_list_step(*processor, rest, state@);
            rest = rest.rest();
        }
        process_value(&mut self.name, processor, &child)?;
        let child = state.enter_static(
            "version",
            Some(FieldAttrs::new()),
            for_field(&self.version),
        );
        proof {
            crate::processor::walk::lemma_list_step(*processor, rest, state@);
            rest = rest.rest();
        }
        process_value(&mut self.version, processor, &child)?;
        proof {
            crate::processor::walk::lemma_list_step(*processor, rest, state@);
        }
        let bag_state = state.enter_nothing(
            Some(FieldAttrs::new().additional_properties().retain(true).pii(Pii::Maybe)),
        );
        match processor.process_other(&self.other, &bag_state) {
            Ok(Descent::Recurse) => {
                let ghost asked = *processor;
                let r = self.other.process_child_values(processor, &bag_state);
                proof {
                    let below = crate::processor::walk::visit_children(
                        asked,
                        crate::processor::traits::Node::tree(&bag),
                        bag_state@,
                    );
                    assert(below.tree == crate::processor::traits::Node::tree(&self.other));
                }
                r
            },
            answer => settled(answer),
        }
    }
}

/// The graphics processor of the device.
#[derive(Debug)]
pub struct GpuContext {
    /// The name of the graphics processor.
    pub name: Annotated<String>,
    /// The name of the vendor.
    pub vendor_name: Annotated<String>,
    /// Additional fields that the schema does not declare.
    pub other: Object<Value>,
}

impl Default for GpuContext {
    /// The value in which every field is absent.
    fn default() -> (r: GpuContext)
        ensures
            r.name.blank(),
            r.vendor_name.blank(),
            r.other@.len() == 0,
    {
        GpuContext {
            name: Annotated::empty(),
            vendor_name: Annotated::empty(),
            other: Object::new(),
        }
    }
}

impl GpuContext {
    /// The declared fields as children, in the order of their declaration.
    pub open spec fn fields(&self) -> ChildList {
        let name = model::field(
            "name"@,
            FieldAttrs::new().pii(Pii::Maybe),
            traits::slot_of(self.name),
        );
        let vendor_name = model::field(
            "vendor_name"@,
            FieldAttrs::new().pii(Pii::Maybe),
            traits::slot_of(self.vendor_name),
        );
        model::cons(name, model::cons(vendor_name, ChildList::Nil))
    }
}

impl Node for GpuContext {
    open spec fn tree(&self) -> Tree {
        Tree::Branch {
            hook: None,
            kind: Set::empty(),
            children: self.fields().seq(),
            bag: Some(
                Bag {
                    attrs: FieldAttrs::new().additional_properties().retain(true).pii(Pii::Maybe),
                    entries: crate::processor::impls::entries_of(self.other@),
                },
            ),
        }
    }
}

impl ProcessValue for GpuContext {
    fn value_type(&self) -> (r: ValueTypeSet) {
        ValueTypeSet::empty()
    }

    fn process_value<P: Processor>(
        &mut self,
        meta: &mut Meta,
        processor: &mut P,
        state: &ProcessingState<'_>,
    ) -> (r: ProcessingResult) {
        self.process_child_values(processor, state)
    }

    fn process_child_values<P: Processor>(
        &mut self,
        processor: &mut P,
        state: &ProcessingState<'_>,
    ) -> (r: ProcessingResult) {
        let ghost mut rest = self.fields();
        proof {
            crate::processor::walk::lemma_visit_list(*processor, rest, state@);
        }
        let ghost bag = self.other;
        let child = state.enter_static(
            "name",
            Some(FieldAttrs::new().pii(Pii::Maybe)),
            for_field(&self.name),
        );
        proof {
            crate::processor::walk::lemma_list_step(*processor, rest, state@);
            rest = rest.rest();
        }
        process_value(&mut self.name, processor, &child)?;
        let child = state.enter_static(
            "vendor_name",
            Some(FieldAttrs::new().pii(Pii::Maybe)),
            for_field(&self.vendor_name),
        );
        proof {
            crate::processor::walk::lemma_list_step(*processor, rest, state@);
            rest = rest.rest();
        }
        process_value(&mut self.vendor_name, processor, &child)?;
        proof {
            crate::processor::walk::lemma_list_step(*processor, rest, state@);
        }
        let bag_state = state.enter_nothing(
            Some(FieldAttrs::new().additional_properties().retain(true).pii(Pii::Maybe)),
        );
        match processor.process_other(&self.other, &bag_state) {
            Ok(Descent::Recurse) => {
                let ghost asked = *processor;
                let r = self.other.process_child_values(processor, &bag_state);
                proof {
                    let below = crate::processor::walk::visit_children(
                        asked,
                        crate::processor::traits::Node::tree(&bag),
                        bag_state@,
                    );
                    assert(below.tree == crate::processor::traits::Node::tree(&self.other));
                }
                r
            },
            answer => settled(answer),
        }
    }
}

/// The profile that belongs to the event.
#[derive(Debug)]
pub struct ProfileContext {
    /// The identifier of the profile.
    pub profile_id: Annotated<EventId>,
}

impl Default for ProfileContext {
    /// The value in which every field is absent.
    fn default() -> (r: ProfileContext)
        ensures
            r.profile_id.blank(),
    {
        ProfileContext {
            profile_id: Annotated::empty(),
        }
    }
}

impl ProfileContext {
    /// The declared fields as children, in the order of their declaration.
    pub open spec fn fields(&self) -> ChildList {
        let profile_id = model::field(
            "profile_id"@,
            FieldAttrs::new(),
            traits::slot_of(self.profile_id),
        );
        model::cons(profile_id, ChildList::Nil)
    }
}

impl Node for ProfileContext {
    open spec fn tree(&self) -> Tree {
        Tree::Branch { hook: None, kind: Set::empty(), children: self.fields().seq(), bag: None }
    }
}

impl ProcessValue for ProfileContext {
    fn value_type(&self) -> (r: ValueTypeSet) {
        ValueTypeSet::empty()
    }

    fn process_value<P: Processor>(
        &mut self,
        meta: &mut Meta,
        processor: &mut P,
        state: &ProcessingState<'_>,
    ) -> (r: ProcessingResult) {
        self.process_child_values(processor, state)
    }

    fn process_child_values<P: Processor>(
        &mut self,
        processor: &mut P,
        state: &ProcessingState<'_>,
    ) -> (r: ProcessingResult) {
        let ghost mut rest = self.fields();
        proof {
            crate::processor::walk::lemma_visit_list(*processor, rest, state@);
        }
        let child = state.enter_static(
            "profile_id",
            Some(FieldAttrs::new()),
            for_field(&self.profile_id),
        );
        proof {
            crate::processor::walk::lemma_list_step(*processor, rest, state@);
            rest = rest.rest();
        }
        process_value(&mut self.profile_id, processor, &child)?;
        proof {
            crate::processor::walk::lemma_list_step(*processor, rest, state@);
        }
        Ok(())
    }
}

/// The trace that the event belongs to.
#[derive(Debug)]
pub struct TraceContext {
    /// The operation of the span.
    pub op: Annotated<String>,
    /// How the span ended.
    pub status: Annotated<SpanStatus>,
    /// Additional fields that the schema does not declare.
    pub other: Object<Value>,
}

impl Default for TraceContext {
    /// The value in which every field is absent.
    fn default() -> (r: TraceContext)
        ensures
            r.op.blank(),
            r.status.blank(),
            r.other@.len() == 0,
    {
        TraceContext {
            op: Annotated::empty(),
            status: Annotated::empty(),
            other: Object::new(),
        }
    }
}

impl TraceContext {
    /// The declared fields as children, in the order of their declaration.
    pub open spec fn fields(&self) -> ChildList {
        let op = model::field(
            "op"@,
            FieldAttrs::new().max_chars(128),
            traits::slot_of(self.op),
        );
        let status = model::field(
            "status"@,
            FieldAttrs::new(),
            traits::slot_of(self.status),
        );
        model::cons(op, model::cons(status, ChildList::Nil))
    }
}

impl Node for TraceContext {
    open spec fn tree(&self) -> Tree {
        Tree::Branch {
            hook: Some(Hook::TraceContext),
            kind: Set::empty(),
            children: self.fields().seq(),
            bag: Some(
                Bag {
                    attrs: FieldAttrs::new().additional_properties().retain(true).pii(Pii::Maybe),
                    entries: crate::processor::impls::entries_of(self.other@),
                },
            ),
        }
    }
}

impl ProcessValue for TraceContext {
    fn value_type(&self) -> (r: ValueTypeSet) {
        ValueTypeSet::empty()
    }

    fn process_value<P: Processor>(
        &mut self,
        meta: &mut Meta,
        processor: &mut P,
        state: &ProcessingState<'_>,
    ) -> (r: ProcessingResult) {
        match processor.process_trace_context(&*self, meta, state) {
            Ok(Descent::Recurse) => self.process_child_values(processor, state),
            answer => settled(answer),
        }
    }

    fn process_child_values<P: Processor>(
        &mut self,
        processor: &mut P,
        state: &ProcessingState<'_>,
    ) -> (r: ProcessingResult) {
        let ghost mut rest = self.fields();
        proof {
            crate::processor::walk::lemma_visit_list(*processor, rest, state@);
        }
        let ghost bag = self.other;
        let child = state.enter_static(
            "op",
            Some(FieldAttrs::new().max_chars(128)),
            for_field(&self.op),
        );
        proof {
            crate::processor::walk::lemma_list_step(*processor, rest, state@);
            rest = rest.rest();
        }
        process_value(&mut self.op, processor, &child)?;
        let child = state.enter_static(
            "status",
            Some(FieldAttrs::new()),
            for_field(&self.status),
        );
        proof {
            crate::processor::walk::lemma_list_step(*processor, rest, state@);
            rest = rest.rest();
        }
        process_value(&mut self.status, processor, &child)?;
        proof {
            crate::processor::walk::lemma_list_step(*processor, rest, state@);
        }
        let bag_state = state.enter_nothing(
            Some(FieldAttrs::new().additional_properties().retain(true).pii(Pii::Maybe)),
        );
        match processor.process_other(&self.other, &bag_state) {
            Ok(Descent::Recurse) => {
                let ghost asked = *processor;
                let r = self.other.process_child_values(processor, &bag_state);
                proof {
                    let below = crate::processor::walk::visit_children(
                        asked,
                        crate::processor::traits::Node::tree(&bag),
                        bag_state@,
                    );
                    assert(below.tree == crate::processor::traits::Node::tree(&self.other));
                }
                r
            },
            answer => settled(answer),
        }
    }
}

/// The HTTP response that was sent.
#[derive(Debug)]
pub struct ResponseContext {
    /// The status code of the response.
    pub status_code: Annotated<u64>,
    /// Additional fields that the schema does not declare.
    pub other: Object<Value>,
}

impl Default for ResponseContext {
    /// The value in which every field is absent.
    fn default() -> (r: ResponseContext)
        ensures
            r.status_code.blank(),
            r.other@.len() == 0,
    {
        ResponseContext {
            status_code: Annotated::empty(),
            other: Object::new(),
        }
    }
}

impl ResponseContext {
    /// The declared fields as children, in the order of their declaration.
    pub open spec fn fields(&self) -> ChildList {
        let status_code = model::field(
            "status_code"@,
            FieldAttrs::new(),
            traits::slot_of(self.status_code),
        );
        model::cons(status_code, ChildList::Nil)
    }
}

impl Node for ResponseContext {
    open spec fn tree(&self) -> Tree {
        Tree::Branch {
            hook: None,
            kind: Set::empty(),
            children: self.fields().seq(),
            bag: Some(
                Bag {
                    attrs: FieldAttrs::new().additional_properties().retain(true).pii(Pii::True),
                    entries: crate::processor::impls::entries_of(self.other@),
                },
            ),
        }
    }
}

impl ProcessValue for ResponseContext {
    fn value_type(&self) -> (r: ValueTypeSet) {
        ValueTypeSet::empty()
    }

    fn process_value<P: Processor>(
        &mut self,
        meta: &mut Meta,
        processor: &mut P,
        state: &ProcessingState<'_>,
    ) -> (r: ProcessingResult) {
        self.process_child_values(processor, state)
    }

    fn process_child_values<P: Processor>(
        &mut self,
        processor: &mut P,
        state: &ProcessingState<'_>,
    ) -> (r: ProcessingResult) {
        let ghost mut rest = self.fields();
        proof {
            crate::processor::walk::lemma_visit_list(*processor, rest, state@);
        }
        let ghost bag = self.other;
        let child = state.enter_static(
            "status_code",
            Some(FieldAttrs::new()),
            for_field(&self.status_code),
        );
        proof {
            crate::processor::walk::lemma_list_step(*processor, rest, state@);
            rest = rest.rest();
        }
        process_value(&mut self.status_code, processor, &child)?;
        proof {
            crate::processor::walk::lemma_list_step(*processor, rest, state@);
        }
        let bag_state = state.enter_nothing(
            Some(FieldAttrs::new().additional_properties().retain(true).pii(Pii::True)),
        );
        match processor.process_other(&self.other, &bag_state) {
            Ok(Descent::Recurse) => {
                let ghost asked = *processor;
                let r = self.other.process_child_values(processor, &bag_state);
                proof {
                    let below = crate::processor::walk::visit_children(
                        asked,
                        crate::processor::traits::Node::tree(&bag),
                        bag_state@,
                    );
                    assert(below.tree == crate::processor::traits::Node::tree(&self.other));
                }
                r
            },
            answer => settled(answer),
        }
    }
}

/// The monitor that the event belongs to.
#[derive(Debug)]
pub struct MonitorContext(pub Object<Value>);

impl Node for MonitorContext {
    open spec fn tree(&self) -> Tree {
        Tree::Newtype { hook: None, attrs: None, inner: Box::new(self.0.tree()) }
    }
}

impl ProcessValue for MonitorContext {
    fn value_type(&self) -> (r: ValueTypeSet) {
        proof {
            reveal_with_fuel(Tree::kind, 2);
        }
        self.0.value_type()
    }

    fn process_value<P: Processor>(
        &mut self,
        meta: &mut Meta,
        processor: &mut P,
        state: &ProcessingState<'_>,
    ) -> (r: ProcessingResult) {
        let inner = state.enter_nothing(None);
        self.0.process_value(meta, processor, &inner)
    }

    fn process_child_values<P: Processor>(
        &mut self,
        processor: &mut P,
        state: &ProcessingState<'_>,
    ) -> (r: ProcessingResult) {
        Ok(())
    }
}

} // verus!
