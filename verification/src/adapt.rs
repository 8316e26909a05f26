//! Metric adaptation: derive the pair of gauge values that a region's
//! current observation publishes.  The exposition sink itself is outside the
//! library; it receives the update as plain values.

use vstd::prelude::*;
use crate::errors::FetchError;
use crate::types::{index_ordinal, Region};

verus! {

/// Name of the forecast gauge.
pub open spec fn forecast_metric_name() -> Seq<char> {
    "carbon_regional_intensity_forecast_gco2e"@
}

/// Name of the ordinal index gauge.
pub open spec fn index_metric_name() -> Seq<char> {
    "carbon_regional_intensity_index"@
}

/// Exec form of [`forecast_metric_name`].
pub fn forecast_metric() -> (r: &'static str)
    ensures
        r@ == forecast_metric_name(),
{
    "carbon_regional_intensity_forecast_gco2e"
}

/// Exec form of [`index_metric_name`].
pub fn index_metric() -> (r: &'static str)
    ensures
        r@ == index_metric_name(),
{
    "carbon_regional_intensity_index"
}

/// One cycle's fresh gauge values for one region: the forecast (exact
/// numeric wire token) and the ordinal severity of the categorical index,
/// labelled by the region's postcode.
#[derive(Debug, Clone, PartialEq, Eq)]
pub struct MetricUpdate {
    pub postcode: String,
    pub forecast: String,
    pub index_ordinal: u8,
}

/// Derive the gauge values from the *first* observation of the region's
/// data sequence (the "current" window — a deliberate, documented
/// simplification).  A region without observations is a data-contract
/// violation: [`FetchError::NoRegionData`], and no metric is emitted.
pub fn adapt(region: &Region) -> (r: Result<MetricUpdate, FetchError>)
    ensures
        r is Err <==> region.region_data@.len() == 0,
        r is Err ==> r == Err::<MetricUpdate, FetchError>(FetchError::NoRegionData),
        r matches Ok(u) ==> region.region_data@.len() > 0
            && u.postcode@ == region.postcode@
            && u.forecast@ == region.region_data@[0].intensity.forecast@
            && u.index_ordinal as int == index_ordinal(region.region_data@[0].intensity.index),
{
    if region.region_data.len() == 0 {
        return Err(FetchError::NoRegionData);
    }
    let first = &region.region_data[0];
    Ok(MetricUpdate {
        postcode: region.postcode.clone(),
        forecast: first.intensity.forecast.clone(),
        index_ordinal: first.intensity.index.metric_value(),
    })
}

} // verus!
