use vstd::prelude::*;

verus! {

/// Kind of weather.
#[derive(Clone, Copy, Debug, PartialEq, Eq, Structural)]
pub enum Condition {
    Clear,
    Cloudy,
    Rain,
    Storm,
}

/// The weather at one moment.
#[derive(Clone, Copy, Debug, PartialEq, Eq, Structural)]
pub struct GameWeather {
    pub condition: Condition,
}

impl GameWeather {
    /// Creates the weather at which a simulation starts: a clear sky.
    pub fn new() -> (weather: GameWeather)
        ensures
            weather == (GameWeather { condition: Condition::Clear }),
    {
        GameWeather { condition: Condition::Clear }
    }
}

/// Holds the current weather, once there is one.
#[derive(Clone, Copy, Debug, PartialEq, Eq, Structural)]
pub struct WeatherManager {
    pub weather: Option<GameWeather>,
}

impl WeatherManager {
    /// Creates a weather manager that holds no weather yet.
    pub fn new() -> (manager: WeatherManager)
        ensures
            manager.weather is None,
    {
        WeatherManager { weather: None }
    }
}

} // verus!
