//! The two shapes in which the identifiers travel: the one handed to the
//! front end, and the one stored in Cursor's `storage.json`.

use vstd::prelude::*;

verus! {

/// The identifiers as handed to the front end.
pub struct StorageConfig {
    pub telemetry_machine_id: String,
    pub telemetry_mac_machine_id: String,
    pub telemetry_dev_device_id: String,
    pub telemetry_sqm_id: String,
}

/// The identifiers as stored in the configuration file, under the keys
/// `telemetry.machineId`, `telemetry.macMachineId`, `telemetry.devDeviceId`
/// and `telemetry.sqmId`.
pub struct ConfigFile {
    pub telemetry_machine_id: String,
    pub telemetry_mac_machine_id: String,
    pub telemetry_dev_device_id: String,
    pub telemetry_sqm_id: String,
}

impl View for StorageConfig {
    type V = (Seq<char>, Seq<char>, Seq<char>, Seq<char>);

    open spec fn view(&self) -> (Seq<char>, Seq<char>, Seq<char>, Seq<char>) {
        (
            self.telemetry_machine_id@,
            self.telemetry_mac_machine_id@,
            self.telemetry_dev_device_id@,
            self.telemetry_sqm_id@,
        )
    }
}

impl StorageConfig {
    /// A copy with the same four identifiers.
    pub fn duplicate(&self) -> (res: StorageConfig)
        ensures
            res@ == self@,
    {
        StorageConfig {
            telemetry_machine_id: self.telemetry_machine_id.clone(),
            telemetry_mac_machine_id: self.telemetry_mac_machine_id.clone(),
            telemetry_dev_device_id: self.telemetry_dev_device_id.clone(),
            telemetry_sqm_id: self.telemetry_sqm_id.clone(),
        }
    }
}

impl View for ConfigFile {
    type V = (Seq<char>, Seq<char>, Seq<char>, Seq<char>);

    open spec fn view(&self) -> (Seq<char>, Seq<char>, Seq<char>, Seq<char>) {
        (
            self.telemetry_machine_id@,
            self.telemetry_mac_machine_id@,
            self.telemetry_dev_device_id@,
            self.telemetry_sqm_id@,
        )
    }
}

impl ConfigFile {
    /// All four identifiers empty: what a missing or blank file stands for.
    pub open spec fn is_empty_config(&self) -> bool {
        &&& self.telemetry_machine_id@.len() == 0
        &&& self.telemetry_mac_machine_id@.len() == 0
        &&& self.telemetry_dev_device_id@.len() == 0
        &&& self.telemetry_sqm_id@.len() == 0
    }

    /// The configuration whose four identifiers are empty.
    pub fn empty() -> (res: ConfigFile)
        ensures
            res.is_empty_config(),
    {
        ConfigFile {
            telemetry_machine_id: String::new(),
            telemetry_mac_machine_id: String::new(),
            telemetry_dev_device_id: String::new(),
            telemetry_sqm_id: String::new(),
        }
    }

    /// The stored form of the identifiers handed to the front end.
    pub fn from_storage(config: &StorageConfig) -> (res: ConfigFile)
        ensures
            res@ == config@,
    {
        ConfigFile {
            telemetry_machine_id: config.telemetry_machine_id.clone(),
            telemetry_mac_machine_id: config.telemetry_mac_machine_id.clone(),
            telemetry_dev_device_id: config.telemetry_dev_device_id.clone(),
            telemetry_sqm_id: config.telemetry_sqm_id.clone(),
        }
    }
}

} // verus!
