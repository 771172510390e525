//! Composition of light sources into one fragment-shader lighting function.
//!
//! A scene's lights are held as an ordered list of [`Light`] values. The
//! composer numbers them by position, joins their shader fragments behind a
//! shared preamble and closes with a dispatch function that sums the
//! contribution of every light. The same numbering is used when the lights
//! bind their uniforms to the [`Program`] built from that source.

pub mod binding;
pub mod composer;
pub mod decimal;
pub mod error;
pub mod light;
pub mod light_id;
pub mod lighting_model;
pub mod program;
pub mod source;

pub use binding::light_ids;
pub use binding::use_lights_uniforms;
pub use composer::compose_shader_source;
pub use composer::dispatch_function_source;
pub use composer::lights_shader_source;
pub use error::LightingError;
pub use light::Light;
pub use light_id::LightId;
pub use lighting_model::lighting_model_from_id;
pub use lighting_model::lighting_model_to_id;
pub use lighting_model::GeometryFunction;
pub use lighting_model::LightingModel;
pub use lighting_model::NormalDistributionFunction;
pub use program::Program;
pub use program::Uniform;
