//! The sensors that use a storage database: what the registry says of each
//! sensor configuration, gathered by database.

use vstd::prelude::*;
use vstd::string::*;
use crate::databases::{
    database_key, database_key_text, optional_text, sensor_mode_display, sensor_mode_text,
};
use crate::text::{decimal_text, push_decimal, same_text, to_uppercase, uppercase_text};

verus! {

/// How many configurations of a device are looked at, counted from zero.
pub const CONFIGURATIONS_PER_DEVICE: u32 = 3;

/// The registry subkey of a device.
pub open spec fn device_subkey_text(instance_id: Seq<char>) -> Seq<char> {
    "SYSTEM\\CurrentControlSet\\Enum\\"@ + instance_id
}

/// Builds the registry subkey of a device.
pub fn device_subkey(instance_id: &str) -> (r: String)
    ensures
        r@ == device_subkey_text(instance_id@),
{
    let mut s = String::from_str("SYSTEM\\CurrentControlSet\\Enum\\");
    s.append(instance_id);
    s
}

/// The registry subkey that holds the sensor configurations of a device.
pub open spec fn configurations_subkey_text(instance_id: Seq<char>) -> Seq<char> {
    device_subkey_text(instance_id) + "\\Device Parameters\\WinBio\\Configurations"@
}

/// Builds the registry subkey that holds the sensor configurations of a
/// device.
pub fn configurations_subkey(instance_id: &str) -> (r: String)
    ensures
        r@ == configurations_subkey_text(instance_id@),
{
    let mut s = device_subkey(instance_id);
    s.append("\\Device Parameters\\WinBio\\Configurations");
    s
}

/// The registry subkey of one sensor configuration of a device.
pub open spec fn configuration_subkey_text(instance_id: Seq<char>, index: u32) -> Seq<char> {
    configurations_subkey_text(instance_id) + "\\"@ + decimal_text(index as nat)
}

/// Builds the registry subkey of one sensor configuration of a device.
pub fn configuration_subkey(instance_id: &str, index: u32) -> (r: String)
    ensures
        r@ == configuration_subkey_text(instance_id@, index),
{
    let mut s = configurations_subkey(instance_id);
    s.append("\\");
    push_decimal(&mut s, index as u64);
    s
}

/// The instance identifier of a USB device.
pub open spec fn usb_instance_id_text(vid_pid: Seq<char>, serial: Seq<char>) -> Seq<char> {
    "USB\\"@ + vid_pid + "\\"@ + serial
}

/// Builds the instance identifier of a USB device.
pub fn usb_instance_id(vid_pid: &str, serial: &str) -> (r: String)
    ensures
        r@ == usb_instance_id_text(vid_pid@, serial@),
{
    let mut s = String::from_str("USB\\");
    s.append(vid_pid);
    s.append("\\");
    s.append(serial);
    s
}

/// What is known of a sensor apart from its configurations. A sensor that
/// is not active has no unit and no kind.
#[derive(Debug, PartialEq, Eq)]
pub struct SensorIdentity {
    pub unit_id: Option<u32>,
    pub description: String,
    pub manufacturer: String,
    pub model: String,
    pub device_instance_id: String,
    pub sensor_subtype: Option<u32>,
}

/// The identity of a device that is registered and not active: it goes by
/// its friendly name, or by its instance identifier if it has none.
pub fn inactive_sensor(device_instance_id: &str, friendly_name: &str) -> (r: SensorIdentity)
    ensures
        r.unit_id is None,
        r.sensor_subtype is None,
        r.description@ == (if friendly_name@.len() == 0 {
            device_instance_id@
        } else {
            friendly_name@
        }),
        r.manufacturer@ == Seq::<char>::empty(),
        r.model@ == Seq::<char>::empty(),
        r.device_instance_id@ == device_instance_id@,
{
    SensorIdentity {
        unit_id: None,
        description: if friendly_name.is_empty() {
            String::from_str(device_instance_id)
        } else {
            String::from_str(friendly_name)
        },
        manufacturer: String::new(),
        model: String::new(),
        device_instance_id: String::from_str(device_instance_id),
        sensor_subtype: None,
    }
}

/// The values of one sensor configuration as the registry holds them.
#[derive(Debug)]
pub struct ConfigValues {
    pub database_id: Option<String>,
    pub engine_adapter: Option<String>,
    pub storage_adapter: Option<String>,
    pub sensor_mode: Option<String>,
    pub virtual_secure_mode: Option<String>,
}

/// One sensor configuration that refers to a database.
#[derive(Debug, PartialEq, Eq)]
pub struct SensorDatabaseLink {
    pub unit_id: Option<u32>,
    pub description: String,
    pub manufacturer: String,
    pub model: String,
    pub device_instance_id: String,
    pub sensor_subtype: Option<u32>,
    pub config_index: u32,
    pub engine_adapter: String,
    pub storage_adapter: String,
    pub sensor_mode: String,
    pub virtual_secure_mode: bool,
}

/// A link with its texts as plain text.
pub struct LinkModel {
    pub unit_id: Option<u32>,
    pub description: Seq<char>,
    pub manufacturer: Seq<char>,
    pub model: Seq<char>,
    pub device_instance_id: Seq<char>,
    pub sensor_subtype: Option<u32>,
    pub config_index: u32,
    pub engine_adapter: Seq<char>,
    pub storage_adapter: Seq<char>,
    pub sensor_mode: Seq<char>,
    pub virtual_secure_mode: bool,
}

impl View for SensorDatabaseLink {
    type V = LinkModel;

    open spec fn view(&self) -> LinkModel {
        LinkModel {
            unit_id: self.unit_id,
            description: self.description@,
            manufacturer: self.manufacturer@,
            model: self.model@,
            device_instance_id: self.device_instance_id@,
            sensor_subtype: self.sensor_subtype,
            config_index: self.config_index,
            engine_adapter: self.engine_adapter@,
            storage_adapter: self.storage_adapter@,
            sensor_mode: self.sensor_mode@,
            virtual_secure_mode: self.virtual_secure_mode,
        }
    }
}

/// A value that may be missing, as text: nothing for a missing one.
pub open spec fn text_or_empty(value: Option<String>) -> Seq<char> {
    match value {
        Some(s) => s@,
        None => Seq::empty(),
    }
}

/// The link that a configuration makes between a sensor and a database.
/// Missing values count as empty; the mode is put in words; the secure mode
/// is on only for the value "1".
pub open spec fn link_of(sensor: SensorIdentity, config_index: u32, values: ConfigValues) -> LinkModel {
    LinkModel {
        unit_id: sensor.unit_id,
        description: sensor.description@,
        manufacturer: sensor.manufacturer@,
        model: sensor.model@,
        device_instance_id: sensor.device_instance_id@,
        sensor_subtype: sensor.sensor_subtype,
        config_index,
        engine_adapter: text_or_empty(values.engine_adapter),
        storage_adapter: text_or_empty(values.storage_adapter),
        sensor_mode: sensor_mode_text(text_or_empty(values.sensor_mode)),
        virtual_secure_mode: optional_text(values.virtual_secure_mode) == Some("1"@),
    }
}

fn value_or_empty(value: Option<String>) -> (r: String)
    ensures
        r@ == text_or_empty(value),
{
    match value {
        Some(s) => s,
        None => String::new(),
    }
}

/// Makes the link for one configuration of a sensor: none if the
/// configuration names no database, else the key of the database and the
/// link.
pub fn link_from_config(sensor: &SensorIdentity, config_index: u32, values: ConfigValues) -> (r:
    Option<(String, SensorDatabaseLink)>)
    ensures
        r is None <==> values.database_id is None,
        r matches Some(pair) ==> pair.0@ == database_key_text(values.database_id->0@) && pair.1@
            == link_of(*sensor, config_index, values),
{
    let ghost given = values;
    let ConfigValues {
        database_id,
        engine_adapter,
        storage_adapter,
        sensor_mode,
        virtual_secure_mode,
    } = values;
    match database_id {
        None => None,
        Some(db_id) => {
            let key = database_key(db_id.as_str());
            let mode = value_or_empty(sensor_mode);
            let secure = match &virtual_secure_mode {
                Some(v) => same_text(v.as_str(), "1"),
                None => false,
            };
            let link = SensorDatabaseLink {
                unit_id: sensor.unit_id,
                description: sensor.description.clone(),
                manufacturer: sensor.manufacturer.clone(),
                model: sensor.model.clone(),
                device_instance_id: sensor.device_instance_id.clone(),
                sensor_subtype: sensor.sensor_subtype,
                config_index,
                engine_adapter: value_or_empty(engine_adapter),
                storage_adapter: value_or_empty(storage_adapter),
                sensor_mode: sensor_mode_display(mode.as_str()),
                virtual_secure_mode: secure,
            };
            Some((key, link))
        },
    }
}

/// The devices that were seen as active sensors, letter case aside.
#[derive(Debug)]
pub struct SeenDevices {
    upper: Vec<String>,
}

impl SeenDevices {
    /// The upper-case forms of the identifiers that were taken in.
    pub closed spec fn identifiers(&self) -> Seq<Seq<char>> {
        self.upper@.map_values(|s: String| s@)
    }

    /// Whether a device was taken in under any letter case.
    pub open spec fn has(&self, device_instance_id: Seq<char>) -> bool {
        self.identifiers().contains(uppercase_text(device_instance_id))
    }

    /// No device seen yet.
    pub fn new() -> (r: SeenDevices)
        ensures
            r.identifiers() == Seq::<Seq<char>>::empty(),
    {
        let r = SeenDevices { upper: Vec::new() };
        assert(r.identifiers() =~= Seq::<Seq<char>>::empty());
        r
    }

    /// Takes a device in.
    pub fn insert(&mut self, device_instance_id: &str)
        ensures
            final(self).identifiers() == old(self).identifiers().push(
                uppercase_text(device_instance_id@),
            ),
    {
        self.upper.push(to_uppercase(device_instance_id));
        assert(self.identifiers() =~= old(self).identifiers().push(
            uppercase_text(device_instance_id@),
        ));
    }

    /// Tells whether a device was taken in under any letter case.
    pub fn contains(&self, device_instance_id: &str) -> (r: bool)
        ensures
            r == self.has(device_instance_id@),
    {
        let wanted = to_uppercase(device_instance_id);
        let mut i: usize = 0;
        while i < self.upper.len()
            invariant
                i <= self.upper.len(),
                wanted@ == uppercase_text(device_instance_id@),
                forall|k: int| 0 <= k < i ==> self.identifiers()[k] != wanted@,
            decreases self.upper.len() - i,
        {
            if same_text(self.upper[i].as_str(), wanted.as_str()) {
                assert(self.identifiers()[i as int] == wanted@);
                return true;
            }
            i = i + 1;
        }
        false
    }
}

/// A link under the key of its database.
pub struct KeyedLink {
    pub key: Seq<char>,
    pub link: LinkModel,
}

/// The positions of the links under a key among the first `upto` links,
/// in their order.
pub open spec fn positions_under(entries: Seq<KeyedLink>, key: Seq<char>, upto: int) -> Seq<int>
    decreases upto,
{
    if upto <= 0 {
        Seq::empty()
    } else if entries[upto - 1].key == key {
        positions_under(entries, key, upto - 1).push(upto - 1)
    } else {
        positions_under(entries, key, upto - 1)
    }
}

/// The links of all sensors, each under the key of its database, in the
/// order in which they were added.
#[derive(Debug)]
pub struct SensorDatabaseMap {
    links: Vec<(String, SensorDatabaseLink)>,
}

impl SensorDatabaseMap {
    /// The links with their keys, in the order in which they were added.
    pub closed spec fn entries(&self) -> Seq<KeyedLink> {
        self.links@.map_values(
            |e: (String, SensorDatabaseLink)| KeyedLink { key: e.0@, link: e.1@ },
        )
    }

    /// No links yet.
    pub fn new() -> (r: SensorDatabaseMap)
        ensures
            r.entries() == Seq::<KeyedLink>::empty(),
    {
        let r = SensorDatabaseMap { links: Vec::new() };
        assert(r.entries() =~= Seq::<KeyedLink>::empty());
        r
    }

    /// Adds a link under the key of its database.
    pub fn add(&mut self, key: String, link: SensorDatabaseLink)
        ensures
            final(self).entries() == old(self).entries().push(
                KeyedLink { key: key@, link: link@ },
            ),
    {
        self.links.push((key, link));
        assert(self.entries() =~= old(self).entries().push(KeyedLink { key: key@, link: link@ }));
    }

    /// How many links there are.
    pub fn len(&self) -> (n: usize)
        ensures
            n == self.entries().len(),
    {
        self.links.len()
    }

    /// The link at a position, if there is one.
    pub fn link_at(&self, position: usize) -> (link: Option<&SensorDatabaseLink>)
        ensures
            match link {
                Some(found) => position < self.entries().len() && found@
                    == self.entries()[position as int].link,
                None => position >= self.entries().len(),
            },
    {
        if position < self.links.len() {
            Some(&self.links[position].1)
        } else {
            None
        }
    }

    /// The positions of the links under a key, in the order in which they
    /// were added; empty if the database has no sensor.
    pub fn positions_for(&self, key: &str) -> (positions: Vec<usize>)
        ensures
            positions@.map_values(|p: usize| p as int) == positions_under(
                self.entries(),
                key@,
                self.entries().len() as int,
            ),
    {
        let mut positions: Vec<usize> = Vec::new();
        let mut i: usize = 0;
        assert(positions@.map_values(|p: usize| p as int) =~= Seq::<int>::empty());
        while i < self.links.len()
            invariant
                i <= self.links.len(),
                positions@.map_values(|p: usize| p as int) == positions_under(
                    self.entries(),
                    key@,
                    i as int,
                ),
            decreases self.links.len() - i,
        {
            let ghost before = positions@.map_values(|p: usize| p as int);
            if same_text(self.links[i].0.as_str(), key) {
                positions.push(i);
                assert(positions@.map_values(|p: usize| p as int) =~= before.push(i as int));
            }
            i = i + 1;
        }
        positions
    }
}

/// The line that shows a sensor: its description, its unit or that it has
/// none, its mode, and marks for the secure mode and for a sensor that is
/// not active.
pub open spec fn sensor_line_text(link: LinkModel) -> Seq<char> {
    link.description + " ("@ + (match link.unit_id {
        Some(id) => "Unit "@ + decimal_text(id as nat),
        None => "no unit"@,
    }) + ", "@ + link.sensor_mode + " mode"@ + (if link.virtual_secure_mode {
        " [VSM]"@
    } else {
        Seq::empty()
    }) + (if link.unit_id is Some {
        Seq::empty()
    } else {
        " (not active)"@
    }) + ")"@
}

/// Writes the line that shows a sensor.
pub fn sensor_line(link: &SensorDatabaseLink) -> (r: String)
    ensures
        r@ == sensor_line_text(link@),
{
    let mut s = link.description.clone();
    s.append(" (");
    match link.unit_id {
        Some(id) => {
            s.append("Unit ");
            push_decimal(&mut s, id as u64);
        },
        None => {
            s.append("no unit");
        },
    }
    s.append(", ");
    s.append(link.sensor_mode.as_str());
    s.append(" mode");
    if link.virtual_secure_mode {
        s.append(" [VSM]");
    }
    if link.unit_id.is_none() {
        s.append(" (not active)");
    }
    s.append(")");
    assert(s@ =~= sensor_line_text(link@));
    s
}

/// The line that shows the configuration of a link.
pub open spec fn config_line_text(link: LinkModel) -> Seq<char> {
    "#"@ + decimal_text(link.config_index as nat) + " — Engine: "@ + link.engine_adapter
        + ", Storage: "@ + link.storage_adapter
}

/// Writes the line that shows the configuration of a link.
pub fn config_line(link: &SensorDatabaseLink) -> (r: String)
    ensures
        r@ == config_line_text(link@),
{
    let mut s = String::from_str("#");
    push_decimal(&mut s, link.config_index as u64);
    s.append(" — Engine: ");
    s.append(link.engine_adapter.as_str());
    s.append(", Storage: ");
    s.append(link.storage_adapter.as_str());
    s
}

} // verus!
