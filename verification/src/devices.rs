//! What the reports of the device enumeration say: the biometric devices,
//! the events of the biometric log, and whether the databases that the
//! devices refer to are registered.

use vstd::prelude::*;
use vstd::string::*;
use crate::json::{json_document, parse_json, Json, JsonFault};
use crate::text::{
    first_line, first_line_text, push_signed_decimal, same_text, signed_decimal_text, trim,
    trimmed_text,
};

verus! {

/// The records of a report: none for a report that is empty but for white
/// space, the items of a document that is written as an array, and the
/// document itself for one that is written as a single value. No records
/// at all for a report that is no document.
pub open spec fn report_records_spec(output: Seq<char>) -> Option<Seq<Json>> {
    let text = trimmed_text(output);
    if text.len() == 0 {
        Some(Seq::empty())
    } else {
        match json_document(text) {
            None => None,
            Some(document) => if text[0] == '[' && document is Array {
                Some(document->Array_0@)
            } else {
                Some(seq![document])
            },
        }
    }
}

/// Reads the records out of a report.
pub fn report_records(output: &str) -> (r: Result<Vec<Json>, JsonFault>)
    ensures
        match r {
            Ok(records) => report_records_spec(output@) == Some(records@),
            Err(_) => report_records_spec(output@) is None,
        },
{
    let text = trim(output);
    if text.unicode_len() == 0 {
        return Ok(Vec::new());
    }
    let bracket = text.get_char(0) == '[';
    match parse_json(text) {
        Err(fault) => Err(fault),
        Ok(document) => records_of(document, bracket),
    }
}

fn records_of(document: Json, bracket: bool) -> (r: Result<Vec<Json>, JsonFault>)
    ensures
        r matches Ok(records) && records@ == (if bracket && document is Array {
            document->Array_0@
        } else {
            seq![document]
        }),
{
    if bracket {
        match document {
            Json::Array(items) => Ok(items),
            other => {
                let mut one: Vec<Json> = Vec::new();
                one.push(other);
                assert(one@ =~= seq![other]);
                Ok(one)
            },
        }
    } else {
        let mut one: Vec<Json> = Vec::new();
        one.push(document);
        assert(one@ =~= seq![document]);
        Ok(one)
    }
}

/// The text of a member, or the fallback if the record has no such member
/// or it is no text.
pub open spec fn member_text_or(record: Json, name: Seq<char>, fallback: Seq<char>) -> Seq<char> {
    match record.member_text_spec(name) {
        Some(text) => text,
        None => fallback,
    }
}

fn text_member_or(record: &Json, name: &str, fallback: &str) -> (r: String)
    ensures
        r@ == member_text_or(*record, name@, fallback@),
{
    match record.member_text(name) {
        Some(text) => String::from_str(text),
        None => String::from_str(fallback),
    }
}

/// A biometric device as the hardware check shows it.
#[derive(Debug, PartialEq, Eq)]
pub struct PnpDevice {
    pub name: String,
    pub manufacturer: String,
    pub instance_id: String,
    pub status: String,
    pub problem: String,
}

impl PnpDevice {
    /// Whether the record stands for this device: each field is the text
    /// of its member, or its fallback.
    pub open spec fn stands_for(&self, record: Json) -> bool {
        &&& self.name@ == member_text_or(record, "FriendlyName"@, "(unknown)"@)
        &&& self.manufacturer@ == member_text_or(record, "Manufacturer"@, "(unknown)"@)
        &&& self.instance_id@ == member_text_or(record, "InstanceId"@, "(unknown)"@)
        &&& self.status@ == member_text_or(record, "Status"@, "Unknown"@)
        &&& self.problem@ == member_text_or(record, "Problem"@, Seq::empty())
    }

    /// Whether the device works.
    pub fn is_ok(&self) -> (r: bool)
        ensures
            r == (self.status@ == "OK"@),
    {
        same_text(self.status.as_str(), "OK")
    }

    /// Whether there is a problem to show: the device does not work and
    /// names a problem other than "0".
    pub fn shows_problem(&self) -> (r: bool)
        ensures
            r == (self.status@ != "OK"@ && self.problem@.len() > 0 && self.problem@ != "0"@),
    {
        !self.is_ok() && !self.problem.as_str().is_empty() && !same_text(
            self.problem.as_str(),
            "0",
        )
    }
}

/// The devices that the records of the hardware check stand for, one for
/// each record.
pub fn pnp_devices(records: &Vec<Json>) -> (devices: Vec<PnpDevice>)
    ensures
        devices@.len() == records@.len(),
        forall|i: int| 0 <= i < devices@.len() ==> (#[trigger] devices@[i]).stands_for(records@[i]),
{
    let mut devices: Vec<PnpDevice> = Vec::new();
    let mut i: usize = 0;
    while i < records.len()
        invariant
            i <= records.len(),
            devices@.len() == i,
            forall|k: int| 0 <= k < i ==> (#[trigger] devices@[k]).stands_for(records@[k]),
        decreases records.len() - i,
    {
        let record = &records[i];
        let empty = String::new();
        let device = PnpDevice {
            name: text_member_or(record, "FriendlyName", "(unknown)"),
            manufacturer: text_member_or(record, "Manufacturer", "(unknown)"),
            instance_id: text_member_or(record, "InstanceId", "(unknown)"),
            status: text_member_or(record, "Status", "Unknown"),
            problem: text_member_or(record, "Problem", empty.as_str()),
        };
        devices.push(device);
        i = i + 1;
    }
    devices
}

/// A biometric device that can be acted on: its name and its instance
/// identifier.
#[derive(Debug, PartialEq, Eq)]
pub struct BiometricDevice {
    pub friendly_name: String,
    pub instance_id: String,
}

/// A biometric device as plain text.
pub struct DeviceModel {
    pub friendly_name: Seq<char>,
    pub instance_id: Seq<char>,
}

impl View for BiometricDevice {
    type V = DeviceModel;

    open spec fn view(&self) -> DeviceModel {
        DeviceModel { friendly_name: self.friendly_name@, instance_id: self.instance_id@ }
    }
}

/// The device of a record that names it in full; none for a record
/// without a name or without an instance identifier.
pub open spec fn device_of(record: Json) -> Option<DeviceModel> {
    match (record.member_text_spec("FriendlyName"@), record.member_text_spec("InstanceId"@)) {
        (Some(friendly_name), Some(instance_id)) => Some(
            DeviceModel { friendly_name, instance_id },
        ),
        _ => None,
    }
}

/// The devices among the records, in their order; records that do not
/// name a device in full are passed over.
pub open spec fn devices_among(records: Seq<Json>) -> Seq<DeviceModel>
    decreases records.len(),
{
    if records.len() == 0 {
        Seq::empty()
    } else {
        let before = devices_among(records.drop_last());
        match device_of(records.last()) {
            Some(device) => before.push(device),
            None => before,
        }
    }
}

/// Devices as plain text.
pub open spec fn device_models(devices: Seq<BiometricDevice>) -> Seq<DeviceModel> {
    devices.map_values(|d: BiometricDevice| d@)
}

/// Picks the devices out of the records of a device listing.
pub fn biometric_devices(records: &Vec<Json>) -> (devices: Vec<BiometricDevice>)
    ensures
        device_models(devices@) == devices_among(records@),
{
    let mut devices: Vec<BiometricDevice> = Vec::new();
    let mut i: usize = 0;
    assert(records@.take(0) =~= Seq::<Json>::empty());
    assert(device_models(devices@) =~= Seq::<DeviceModel>::empty());
    while i < records.len()
        invariant
            i <= records.len(),
            device_models(devices@) == devices_among(records@.take(i as int)),
        decreases records.len() - i,
    {
        let record = &records[i];
        let ghost upto = records@.take(i as int + 1);
        assert(upto.drop_last() =~= records@.take(i as int));
        assert(upto.last() == records@[i as int]);
        let friendly = record.member_text("FriendlyName");
        let instance = record.member_text("InstanceId");
        match (friendly, instance) {
            (Some(friendly_name), Some(instance_id)) => {
                let ghost before = device_models(devices@);
                let device = BiometricDevice {
                    friendly_name: String::from_str(friendly_name),
                    instance_id: String::from_str(instance_id),
                };
                devices.push(device);
                assert(device_models(devices@) =~= before.push(device@));
            },
            _ => {},
        }
        i = i + 1;
    }
    assert(records@.take(records@.len() as int) =~= records@);
    devices
}

/// Why a report could not be used.
#[derive(Debug, PartialEq, Eq)]
pub enum ReportError {
    /// The report is no document.
    Malformed { fault: JsonFault },
    /// The report is a document of another shape than the expected one.
    Unexpected,
}

/// The texts of values that are all texts; none if one of them is not.
pub open spec fn all_texts(items: Seq<Json>) -> Option<Seq<Seq<char>>>
    decreases items.len(),
{
    if items.len() == 0 {
        Some(Seq::empty())
    } else {
        match (all_texts(items.drop_last()), items.last().text_spec()) {
            (Some(before), Some(text)) => Some(before.push(text)),
            _ => None,
        }
    }
}

/// The instance identifiers that a report of phantom devices lists: none
/// for an empty report, the items of an array of texts, or the one text of
/// a report that is a single text. No list at all for a report that is no
/// document or that holds anything but texts.
pub open spec fn phantom_ids_spec(output: Seq<char>) -> Option<Seq<Seq<char>>> {
    let text = trimmed_text(output);
    if text.len() == 0 {
        Some(Seq::empty())
    } else {
        match json_document(text) {
            None => None,
            Some(document) => if text[0] == '[' {
                match document.items_spec() {
                    Some(items) => all_texts(items),
                    None => None,
                }
            } else {
                match document.text_spec() {
                    Some(id) => Some(seq![id]),
                    None => None,
                }
            },
        }
    }
}

/// The texts of strings.
pub open spec fn string_texts(strings: Seq<String>) -> Seq<Seq<char>> {
    strings.map_values(|s: String| s@)
}

/// The texts of the items if all of them are texts.
pub fn texts_of(items: &Vec<Json>) -> (r: Option<Vec<String>>)
    ensures
        match r {
            Some(texts) => all_texts(items@) == Some(string_texts(texts@)),
            None => all_texts(items@) is None,
        },
{
    let mut texts: Vec<String> = Vec::new();
    let mut i: usize = 0;
    assert(items@.take(0) =~= Seq::<Json>::empty());
    assert(string_texts(texts@) =~= Seq::<Seq<char>>::empty());
    while i < items.len()
        invariant
            i <= items.len(),
            all_texts(items@.take(i as int)) == Some(string_texts(texts@)),
        decreases items.len() - i,
    {
        let ghost upto = items@.take(i as int + 1);
        assert(upto.drop_last() =~= items@.take(i as int));
        assert(upto.last() == items@[i as int]);
        match items[i].as_text() {
            Some(text) => {
                let ghost before = string_texts(texts@);
                texts.push(String::from_str(text));
                assert(string_texts(texts@) =~= before.push(text@));
            },
            None => {
                proof {
                    lemma_all_texts_fails_on(items@, i as int + 1);
                }
                return None;
            },
        }
        i = i + 1;
    }
    assert(items@.take(items@.len() as int) =~= items@);
    Some(texts)
}

/// Values are not all texts if some of the first of them are not.
pub proof fn lemma_all_texts_fails_on(items: Seq<Json>, upto: int)
    requires
        0 <= upto <= items.len(),
        all_texts(items.take(upto)) is None,
    ensures
        all_texts(items) is None,
    decreases items.len() - upto,
{
    if upto < items.len() {
        let next = items.take(upto + 1);
        assert(next.drop_last() =~= items.take(upto));
        lemma_all_texts_fails_on(items, upto + 1);
    } else {
        assert(items.take(upto) =~= items);
    }
}

/// Reads the instance identifiers out of a report of phantom devices.
pub fn phantom_ids(output: &str) -> (r: Result<Vec<String>, ReportError>)
    ensures
        match r {
            Ok(ids) => phantom_ids_spec(output@) == Some(string_texts(ids@)),
            Err(ReportError::Malformed { .. }) => trimmed_text(output@).len() > 0 && json_document(
                trimmed_text(output@),
            ) is None,
            Err(ReportError::Unexpected) => phantom_ids_spec(output@) is None && json_document(
                trimmed_text(output@),
            ) is Some,
        },
{
    let text = trim(output);
    if text.unicode_len() == 0 {
        let none: Vec<String> = Vec::new();
        assert(string_texts(none@) =~= Seq::<Seq<char>>::empty());
        return Ok(none);
    }
    let bracket = text.get_char(0) == '[';
    match parse_json(text) {
        Err(fault) => Err(ReportError::Malformed { fault }),
        Ok(document) => {
            if bracket {
                match document.as_items() {
                    Some(items) => match texts_of(items) {
                        Some(ids) => Ok(ids),
                        None => Err(ReportError::Unexpected),
                    },
                    None => Err(ReportError::Unexpected),
                }
            } else {
                match document.as_text() {
                    Some(id) => {
                        let mut one: Vec<String> = Vec::new();
                        one.push(String::from_str(id));
                        assert(string_texts(one@) =~= seq![id@]);
                        Ok(one)
                    },
                    None => Err(ReportError::Unexpected),
                }
            }
        },
    }
}

/// An event of the biometric log.
#[derive(Debug, PartialEq, Eq)]
pub struct EventLine {
    pub id: i64,
    pub level: i64,
    /// The first line of the event's message.
    pub message: String,
}

/// The number of a member, or zero if the record has no such member or it
/// is no whole number.
pub open spec fn member_integer_or_zero(record: Json, name: Seq<char>) -> i64 {
    match record.member_spec(name) {
        Some(member) => match member.integer_spec() {
            Some(n) => n,
            None => 0,
        },
        None => 0,
    }
}

/// The first line of the message of an event; a note that there is none
/// if the record has no message or the message is empty.
pub open spec fn event_message(record: Json) -> Seq<char> {
    match first_line_text(member_text_or(record, "Message"@, "(no message)"@)) {
        Some(line) => line,
        None => "(no message)"@,
    }
}

fn integer_member_or_zero(record: &Json, name: &str) -> (r: i64)
    ensures
        r == member_integer_or_zero(*record, name@),
{
    match record.member(name) {
        Some(member) => match member.as_integer() {
            Some(n) => n,
            None => 0,
        },
        None => 0,
    }
}

impl EventLine {
    pub open spec fn stands_for(&self, record: Json) -> bool {
        &&& self.id == member_integer_or_zero(record, "Id"@)
        &&& self.level == member_integer_or_zero(record, "Level"@)
        &&& self.message@ == event_message(record)
    }

    /// Whether the event is an error or worse, by its level.
    pub fn is_severe(&self) -> (r: bool)
        ensures
            r == (self.level <= 2),
    {
        self.level <= 2
    }

    pub open spec fn text(&self) -> Seq<char> {
        "Event "@ + signed_decimal_text(self.id as int) + ": "@ + self.message@
    }

    /// The line that shows the event.
    pub fn line(&self) -> (r: String)
        ensures
            r@ == self.text(),
    {
        let mut s = String::from_str("Event ");
        push_signed_decimal(&mut s, self.id);
        s.append(": ");
        s.append(self.message.as_str());
        s
    }
}

/// The events that the records of the log stand for, one for each record.
pub fn event_lines(records: &Vec<Json>) -> (events: Vec<EventLine>)
    ensures
        events@.len() == records@.len(),
        forall|i: int| 0 <= i < events@.len() ==> (#[trigger] events@[i]).stands_for(records@[i]),
{
    let mut events: Vec<EventLine> = Vec::new();
    let mut i: usize = 0;
    while i < records.len()
        invariant
            i <= records.len(),
            events@.len() == i,
            forall|k: int| 0 <= k < i ==> (#[trigger] events@[k]).stands_for(records@[k]),
        decreases records.len() - i,
    {
        let record = &records[i];
        let whole = text_member_or(record, "Message", "(no message)");
        let message = match first_line(whole.as_str()) {
            Some(line) => String::from_str(line),
            None => String::from_str("(no message)"),
        };
        let event = EventLine {
            id: integer_member_or_zero(record, "Id"),
            level: integer_member_or_zero(record, "Level"),
            message,
        };
        events.push(event);
        i = i + 1;
    }
    events
}

/// What one sensor configuration of a device says of its database.
#[derive(Debug, PartialEq, Eq)]
pub struct ConfigCheck {
    pub config_name: String,
    pub database_id: String,
    /// Whether the database is registered with the biometric service.
    pub registered: bool,
}

/// The flag of a member, or false if the record has no such member or it
/// is no flag.
pub open spec fn member_flag_or_false(record: Json, name: Seq<char>) -> bool {
    match record.member_spec(name) {
        Some(member) => match member.flag_spec() {
            Some(flag) => flag,
            None => false,
        },
        None => false,
    }
}

impl ConfigCheck {
    pub open spec fn stands_for(&self, record: Json) -> bool {
        &&& self.config_name@ == member_text_or(record, "ConfigName"@, "?"@)
        &&& self.database_id@ == member_text_or(record, "DatabaseId"@, "?"@)
        &&& self.registered == member_flag_or_false(record, "Registered"@)
    }
}

/// The configurations of a device as its record lists them: none if it
/// lists none.
pub open spec fn configuration_records(record: Json) -> Seq<Json> {
    match record.member_spec("Configurations"@) {
        Some(member) => match member.items_spec() {
            Some(items) => items,
            None => Seq::empty(),
        },
        None => Seq::empty(),
    }
}

/// A device with what its sensor configurations say of their databases.
#[derive(Debug, PartialEq, Eq)]
pub struct DeviceConfigReport {
    pub name: String,
    pub instance_id: String,
    pub configurations: Vec<ConfigCheck>,
}

impl DeviceConfigReport {
    pub open spec fn stands_for(&self, record: Json) -> bool {
        &&& self.name@ == member_text_or(record, "FriendlyName"@, "(unknown)"@)
        &&& self.instance_id@ == member_text_or(record, "InstanceId"@, "(unknown)"@)
        &&& self.configurations@.len() == configuration_records(record).len()
        &&& forall|i: int|
            0 <= i < self.configurations@.len() ==> (#[trigger] self.configurations@[i]).stands_for(
                configuration_records(record)[i],
            )
    }

    /// Whether one of the configurations refers to a database that is not
    /// registered.
    pub open spec fn has_mismatch_spec(&self) -> bool {
        exists|i: int|
            0 <= i < self.configurations@.len() && !(#[trigger] self.configurations@[i]).registered
    }

    /// Tells whether one of the configurations refers to a database that is
    /// not registered.
    pub fn has_mismatch(&self) -> (r: bool)
        ensures
            r == self.has_mismatch_spec(),
    {
        let mut i: usize = 0;
        while i < self.configurations.len()
            invariant
                i <= self.configurations.len(),
                forall|k: int| 0 <= k < i ==> (#[trigger] self.configurations@[k]).registered,
            decreases self.configurations.len() - i,
        {
            if !self.configurations[i].registered {
                return true;
            }
            i = i + 1;
        }
        false
    }
}

fn config_checks(items: &Vec<Json>) -> (checks: Vec<ConfigCheck>)
    ensures
        checks@.len() == items@.len(),
        forall|i: int| 0 <= i < checks@.len() ==> (#[trigger] checks@[i]).stands_for(items@[i]),
{
    let mut checks: Vec<ConfigCheck> = Vec::new();
    let mut i: usize = 0;
    while i < items.len()
        invariant
            i <= items.len(),
            checks@.len() == i,
            forall|k: int| 0 <= k < i ==> (#[trigger] checks@[k]).stands_for(items@[k]),
        decreases items.len() - i,
    {
        let item = &items[i];
        let registered = match item.member("Registered") {
            Some(member) => match member.as_flag() {
                Some(flag) => flag,
                None => false,
            },
            None => false,
        };
        let check = ConfigCheck {
            config_name: text_member_or(item, "ConfigName", "?"),
            database_id: text_member_or(item, "DatabaseId", "?"),
            registered,
        };
        checks.push(check);
        i = i + 1;
    }
    checks
}

/// The devices that the records of the configuration check stand for, one
/// for each record.
pub fn device_config_reports(records: &Vec<Json>) -> (reports: Vec<DeviceConfigReport>)
    ensures
        reports@.len() == records@.len(),
        forall|i: int|
            0 <= i < reports@.len() ==> (#[trigger] reports@[i]).stands_for(records@[i]),
{
    let mut reports: Vec<DeviceConfigReport> = Vec::new();
    let mut i: usize = 0;
    while i < records.len()
        invariant
            i <= records.len(),
            reports@.len() == i,
            forall|k: int| 0 <= k < i ==> (#[trigger] reports@[k]).stands_for(records@[k]),
        decreases records.len() - i,
    {
        let record = &records[i];
        let configurations = match record.member("Configurations") {
            Some(member) => match member.as_items() {
                Some(items) => config_checks(items),
                None => Vec::new(),
            },
            None => Vec::new(),
        };
        let report = DeviceConfigReport {
            name: text_member_or(record, "FriendlyName", "(unknown)"),
            instance_id: text_member_or(record, "InstanceId", "(unknown)"),
            configurations,
        };
        reports.push(report);
        i = i + 1;
    }
    reports
}

} // verus!
