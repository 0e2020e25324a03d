use crate::entities::player::{Player, PlayerView};
use crate::world::manager::WorldManager;
use crate::world::time::{GameTime, TimeManager};
use crate::world::weather::{GameWeather, WeatherManager};
use vstd::prelude::*;

verus! {

/// What one save captures. A source that holds nothing leaves its field
/// empty.
#[derive(Debug, PartialEq, Eq)]
pub struct SaveData {
    pub player: Option<Player>,
    pub time: Option<GameTime>,
    pub weather: Option<GameWeather>,
}

/// A snapshot, as contracts see it.
pub struct Snapshot {
    pub player: Option<PlayerView>,
    pub time: Option<GameTime>,
    pub weather: Option<GameWeather>,
}

impl Snapshot {
    /// The snapshot with every field empty.
    pub open spec fn empty() -> Snapshot {
        Snapshot { player: None, time: None, weather: None }
    }

    /// The sources that hold nothing in this snapshot.
    pub open spec fn missing(self) -> SaveReport {
        SaveReport {
            player_missing: self.player is None,
            time_missing: self.time is None,
            weather_missing: self.weather is None,
        }
    }
}

impl View for SaveData {
    type V = Snapshot;

    open spec fn view(&self) -> Snapshot {
        Snapshot {
            player: match self.player {
                Some(player) => Some(player@),
                None => None,
            },
            time: self.time,
            weather: self.weather,
        }
    }
}

impl SaveData {
    /// Creates a snapshot with every field empty.
    pub fn new() -> (data: SaveData)
        ensures
            data@ == Snapshot::empty(),
    {
        SaveData { player: None, time: None, weather: None }
    }
}

/// Tells which sources held nothing when a snapshot was taken. A missing
/// source is worth a diagnostic; it does not make the save fail.
#[derive(Clone, Copy, Debug, PartialEq, Eq, Structural)]
pub struct SaveReport {
    pub player_missing: bool,
    pub time_missing: bool,
    pub weather_missing: bool,
}

impl SaveReport {
    /// The diagnostics of this report: one for each missing source, in the
    /// order player, time, weather.
    pub open spec fn diagnostics(self) -> Seq<Seq<char>> {
        let player: Seq<Seq<char>> = if self.player_missing {
            seq!["Player not initialized"@]
        } else {
            seq![]
        };
        let time: Seq<Seq<char>> = if self.time_missing {
            seq!["GameTime not initialized"@]
        } else {
            seq![]
        };
        let weather: Seq<Seq<char>> = if self.weather_missing {
            seq!["GameWeather not initialized"@]
        } else {
            seq![]
        };
        player + time + weather
    }

    /// Returns the diagnostics of this report.
    pub fn messages(&self) -> (messages: Vec<String>)
        ensures
            messages.deep_view() == self.diagnostics(),
    {
        let mut messages: Vec<String> = Vec::new();
        if self.player_missing {
            messages.push("Player not initialized".to_owned());
        }
        if self.time_missing {
            messages.push("GameTime not initialized".to_owned());
        }
        if self.weather_missing {
            messages.push("GameWeather not initialized".to_owned());
        }
        assert(messages.deep_view() =~= self.diagnostics());
        messages
    }
}

/// Takes the snapshots that are written to the save file.
#[derive(Debug, PartialEq, Eq)]
pub struct SaveGameManager {
    save_data: SaveData,
}

impl View for SaveGameManager {
    type V = Snapshot;

    closed spec fn view(&self) -> Snapshot {
        self.save_data@
    }
}

impl SaveGameManager {
    /// Creates a save manager whose snapshot is empty.
    pub fn new() -> (manager: SaveGameManager)
        ensures
            manager@ == Snapshot::empty(),
    {
        SaveGameManager { save_data: SaveData::new() }
    }

    /// Takes a fresh snapshot: reads each source once and keeps exactly what
    /// it holds, so that nothing of an earlier snapshot is left. Tells which
    /// sources held nothing.
    pub fn save(
        &mut self,
        world_manager: &WorldManager,
        time_manager: &TimeManager,
        weather_manager: &WeatherManager,
    ) -> (report: SaveReport)
        ensures
            final(self)@ == (Snapshot {
                player: match world_manager.player {
                    Some(player) => Some(player@),
                    None => None,
                },
                time: time_manager@.time,
                weather: weather_manager.weather,
            }),
            report == final(self)@.missing(),
            world_manager.player is None && time_manager@.time is None && weather_manager.weather
                is None ==> final(self)@ == Snapshot::empty(),
    {
        let player = match &world_manager.player {
            Some(player) => Some(player.clone()),
            None => None,
        };
        let time = time_manager.time();
        let weather = weather_manager.weather;
        let report = SaveReport {
            player_missing: player.is_none(),
            time_missing: time.is_none(),
            weather_missing: weather.is_none(),
        };
        self.save_data = SaveData { player, time, weather };
        report
    }

    /// Returns the snapshot that the last save took.
    pub fn save_data(&self) -> (data: &SaveData)
        ensures
            data@ == self@,
    {
        &self.save_data
    }

    /// Returns the name of the directory that holds the save file.
    pub fn save_directory() -> (name: String)
        ensures
            name@ == "saves"@,
    {
        "saves".to_owned()
    }

    /// Returns the name of the save file within its directory.
    pub fn save_file_name() -> (name: String)
        ensures
            name@ == "save.json"@,
    {
        "save.json".to_owned()
    }
}

/// A report has no diagnostics exactly when no source was missing, and it
/// never has more than one for each source.
pub proof fn lemma_diagnostics_match_missing(report: SaveReport)
    ensures
        report.diagnostics().len() == (if report.player_missing {
            1nat
        } else {
            0nat
        }) + (if report.time_missing {
            1nat
        } else {
            0nat
        }) + (if report.weather_missing {
            1nat
        } else {
            0nat
        }),
{
}

} // verus!
