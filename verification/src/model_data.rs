//! The persistent form of a mapping model.
//!
//! Reading and writing go through this mirror of the mapping model so that
//! the storage layer never touches the session's models directly; every
//! optional field has an explicit default.

use vstd::prelude::*;

use crate::session::{MappingModel, ModeModel, SourceModel};
use crate::target_api::Target;

verus! {

/// The persistent form of one mapping.
pub struct MappingModelData {
    pub name: String,
    pub source: SourceModel,
    pub mode: ModeModel,
    pub target: Target,
    pub control_is_enabled: bool,
    pub feedback_is_enabled: bool,
    pub prevent_echo_feedback: bool,
}

impl Default for MappingModelData {
    fn default() -> (r: Self)
        ensures
            r.name@.len() == 0,
            r.source.category is Midi,
            r.source.midi_source_type is ControlChangeValue,
            r.mode.source_min_raw == 0,
            r.mode.source_max_raw == crate::units::UNIT_DENOM,
            r.mode.target_min_raw == 0,
            r.mode.target_max_raw == crate::units::UNIT_DENOM,
            !r.mode.reverse,
            r.control_is_enabled,
            r.feedback_is_enabled,
            !r.prevent_echo_feedback,
    {
        MappingModelData {
            name: String::new(),
            source: SourceModel::default(),
            mode: ModeModel::default(),
            target: Target::default(),
            control_is_enabled: true,
            feedback_is_enabled: true,
            prevent_echo_feedback: false,
        }
    }
}

impl MappingModelData {
    /// Writes a mapping model into its persistent form; every field is
    /// carried over as it is.
    pub fn from_model(model: &MappingModel) -> (r: MappingModelData)
        ensures
            r.name@ == model.name@,
            r.source == model.source_model,
            r.mode == model.mode_model,
            r.control_is_enabled == model.control_is_enabled,
            r.feedback_is_enabled == model.feedback_is_enabled,
            r.prevent_echo_feedback == model.prevent_echo_feedback,
    {
        MappingModelData {
            name: model.name.clone(),
            source: model.source_model,
            mode: model.mode_model,
            target: model.target_model.clone(),
            control_is_enabled: model.control_is_enabled,
            feedback_is_enabled: model.feedback_is_enabled,
            prevent_echo_feedback: model.prevent_echo_feedback,
        }
    }

    /// Builds a fresh mapping model from this persistent form, under the
    /// given identity. The form is consumed so that every field, the
    /// target included, carries over exactly.
    pub fn to_model(
        self,
        compartment: crate::mapping::Compartment,
        group_id: crate::session::GroupId,
        id: crate::mapping::MappingId,
    ) -> (r: MappingModel)
        ensures
            r.id == id,
            r.compartment == compartment,
            r.group_id == group_id,
            r.name@ == self.name@,
            r.source_model == self.source,
            r.mode_model == self.mode,
            r.target_model == self.target,
            r.control_is_enabled == self.control_is_enabled,
            r.feedback_is_enabled == self.feedback_is_enabled,
            r.prevent_echo_feedback == self.prevent_echo_feedback,
    {
        let mut model = MappingModel::new(compartment, group_id, id);
        self.apply_to_model(&mut model);
        model
    }

    /// Applies this persistent form to an existing mapping model; identity
    /// and group stay as they are. The form is consumed so that every
    /// field, the target included, carries over exactly.
    pub fn apply_to_model(self, model: &mut MappingModel)
        ensures
            final (model).id == old(model).id,
            final (model).compartment == old(model).compartment,
            final (model).group_id == old(model).group_id,
            final (model).activation_condition == old(model).activation_condition,
            final (model).name@ == self.name@,
            final (model).source_model == self.source,
            final (model).mode_model == self.mode,
            final (model).target_model == self.target,
            final (model).control_is_enabled == self.control_is_enabled,
            final (model).feedback_is_enabled == self.feedback_is_enabled,
            final (model).prevent_echo_feedback == self.prevent_echo_feedback,
    {
        model.name = self.name;
        model.source_model = self.source;
        model.mode_model = self.mode;
        model.target_model = self.target;
        model.control_is_enabled = self.control_is_enabled;
        model.feedback_is_enabled = self.feedback_is_enabled;
        model.prevent_echo_feedback = self.prevent_echo_feedback;
    }
}

} // verus!
