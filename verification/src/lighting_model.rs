//! The lighting models and the ids under which shader sources name them.

use crate::error::LightingError;
use vstd::prelude::*;

verus! {

/// How the microfacets of a surface are distributed over directions.
#[derive(Clone, Copy, Debug, PartialEq, Eq, Structural)]
pub enum NormalDistributionFunction {
    Blinn,
    Beckmann,
    TrowbridgeReitzGGX,
}

/// How much of a surface its own microfacets shadow.
#[derive(Clone, Copy, Debug, PartialEq, Eq, Structural)]
pub enum GeometryFunction {
    SmithSchlickGGX,
}

/// The reflectance formula by which a surface is shaded.
#[derive(Clone, Copy, Debug, PartialEq, Eq, Structural)]
pub enum LightingModel {
    /// Phong specular reflection.
    Phong,
    /// Blinn-Phong specular reflection.
    Blinn,
    /// Cook-Torrance reflection with the given distribution and geometry
    /// functions.
    Cook(NormalDistributionFunction, GeometryFunction),
}

/// The id of a lighting model in shader sources and cache keys.
pub open spec fn lighting_model_id(model: LightingModel) -> u32 {
    match model {
        LightingModel::Phong => 1,
        LightingModel::Blinn => 2,
        LightingModel::Cook(
            NormalDistributionFunction::Blinn,
            GeometryFunction::SmithSchlickGGX,
        ) => 3,
        LightingModel::Cook(
            NormalDistributionFunction::Beckmann,
            GeometryFunction::SmithSchlickGGX,
        ) => 4,
        LightingModel::Cook(
            NormalDistributionFunction::TrowbridgeReitzGGX,
            GeometryFunction::SmithSchlickGGX,
        ) => 5,
    }
}

/// The lighting model with the given id, if the table holds one.
pub open spec fn lighting_model_with_id(id: u32) -> Option<LightingModel> {
    if id == 1 {
        Some(LightingModel::Phong)
    } else if id == 2 {
        Some(LightingModel::Blinn)
    } else if id == 3 {
        Some(
            LightingModel::Cook(
                NormalDistributionFunction::Blinn,
                GeometryFunction::SmithSchlickGGX,
            ),
        )
    } else if id == 4 {
        Some(
            LightingModel::Cook(
                NormalDistributionFunction::Beckmann,
                GeometryFunction::SmithSchlickGGX,
            ),
        )
    } else if id == 5 {
        Some(
            LightingModel::Cook(
                NormalDistributionFunction::TrowbridgeReitzGGX,
                GeometryFunction::SmithSchlickGGX,
            ),
        )
    } else {
        None
    }
}

/// The id of the lighting model, a number from 1 to 5.
pub fn lighting_model_to_id(model: LightingModel) -> (id: u32)
    ensures
        id == lighting_model_id(model),
        1 <= id <= 5,
{
    match model {
        LightingModel::Phong => 1,
        LightingModel::Blinn => 2,
        LightingModel::Cook(
            NormalDistributionFunction::Blinn,
            GeometryFunction::SmithSchlickGGX,
        ) => 3,
        LightingModel::Cook(
            NormalDistributionFunction::Beckmann,
            GeometryFunction::SmithSchlickGGX,
        ) => 4,
        LightingModel::Cook(
            NormalDistributionFunction::TrowbridgeReitzGGX,
            GeometryFunction::SmithSchlickGGX,
        ) => 5,
    }
}

/// Selects the lighting model with the given id. An id outside the table is
/// rejected, with the id in the error.
pub fn lighting_model_from_id(id: u32) -> (model: Result<LightingModel, LightingError>)
    ensures
        model == (match lighting_model_with_id(id) {
            Some(m) => Ok::<LightingModel, LightingError>(m),
            None => Err(LightingError::UnknownLightingModel { id }),
        }),
        model is Ok <==> 1 <= id <= 5,
{
    if id == 1 {
        Ok(LightingModel::Phong)
    } else if id == 2 {
        Ok(LightingModel::Blinn)
    } else if id == 3 {
        Ok(
            LightingModel::Cook(
                NormalDistributionFunction::Blinn,
                GeometryFunction::SmithSchlickGGX,
            ),
        )
    } else if id == 4 {
        Ok(
            LightingModel::Cook(
                NormalDistributionFunction::Beckmann,
                GeometryFunction::SmithSchlickGGX,
            ),
        )
    } else if id == 5 {
        Ok(
            LightingModel::Cook(
                NormalDistributionFunction::TrowbridgeReitzGGX,
                GeometryFunction::SmithSchlickGGX,
            ),
        )
    } else {
        Err(LightingError::UnknownLightingModel { id })
    }
}

/// Every lighting model has an id from 1 to 5, and different models have
/// different ids.
pub proof fn lighting_model_ids_are_unique(a: LightingModel, b: LightingModel)
    ensures
        1 <= lighting_model_id(a) <= 5,
        lighting_model_id(a) == lighting_model_id(b) <==> a == b,
{
}

/// The table is closed: an id selects a model exactly when it lies between 1
/// and 5, the selected model has that id, and the id of a model selects it.
pub proof fn lighting_model_table_is_closed(id: u32, model: LightingModel)
    ensures
        lighting_model_with_id(id) is Some <==> 1 <= id <= 5,
        lighting_model_with_id(id) matches Some(m) ==> lighting_model_id(m) == id,
        lighting_model_with_id(lighting_model_id(model)) == Some(model),
{
}

} // verus!
