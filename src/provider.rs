use vstd::prelude::*;

use crate::county::County;
use crate::weather_report::WeatherReport;

verus! {

/// Answers a forecast request for a county with readings drawn by its caller.
pub struct CountyWeatherProvider {}

impl CountyWeatherProvider {
    pub fn new() -> (r: Self) {
        CountyWeatherProvider {}
    }

    /// The answer to a request for `requested_county`: that county, with the
    /// given readings.
    pub fn process(
        &self,
        requested_county: &County,
        sunshine: u32,
        wind_speed: u32,
        rainfall: u32,
    ) -> (r: (County, WeatherReport))
        ensures
            r.0 == *requested_county,
            r.1.sunshine_spec() == sunshine,
            r.1.wind_speed_spec() == wind_speed,
            r.1.rainfall_spec() == rainfall,
    {
        (requested_county.clone(), WeatherReport::new(sunshine, wind_speed, rainfall))
    }
}

} // verus!
