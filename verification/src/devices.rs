//! The two thin consumers of the pipeline: decoding the device list out of a
//! success payload and shaping it for printing, and pulling the raw telemetry
//! string out of a passthrough reply. Both payloads arrive as the JSON text
//! that `classify_api_response` handed out; what `serde_json` extracts from
//! such text is a function of the text alone and is named, so the decoders'
//! contracts fix their output for every payload.

use vstd::prelude::*;
use vstd::string::StringExecFns;

use crate::errors::ClientError;
use crate::response::transport;

verus! {

/// One registered device, as the device-list reply names it.
#[derive(Debug, Clone, PartialEq, Eq)]
pub struct Device {
    pub alias: String,
    pub device_id: String,
}

/// The `(alias, deviceId)` pairs of a device-list payload, in order: `Some`
/// exactly when the payload is a JSON object whose `deviceList` is an array
/// of objects each carrying both fields as strings.
pub uninterp spec fn device_list_of(payload: Seq<char>) -> Option<Seq<(Seq<char>, Seq<char>)>>;

/// Relies on serde_json::from_str, Value::get, Value::as_array and
/// Value::as_str: decodes the `deviceList` of a device-list payload into its
/// `(alias, deviceId)` pairs. What is returned is a function of the payload
/// text alone, named `device_list_of`.
#[verifier::external_body]
fn extract_device_list(payload: &str) -> (r: Option<Vec<(String, String)>>)
    ensures
        (r is Some) == (device_list_of(payload@) is Some),
        r matches Some(v) ==> (device_list_of(payload@) matches Some(ds) && v@.len() == ds.len()
            && (forall|i: int|
            0 <= i < ds.len() ==> (#[trigger] v@[i]).0@ == ds[i].0 && v@[i].1@ == ds[i].1)),
{
    let v: serde_json::Value = serde_json::from_str(payload).ok()?;
    let items = v.get("deviceList")?.as_array()?;
    let mut out = Vec::new();
    for item in items {
        let alias = item.get("alias")?.as_str()?.to_owned();
        let device_id = item.get("deviceId")?.as_str()?.to_owned();
        out.push((alias, device_id));
    }
    Some(out)
}

/// The `responseData` string of a passthrough payload: `Some` exactly when
/// the payload is a JSON object carrying that field as a string.
pub uninterp spec fn response_data_of(payload: Seq<char>) -> Option<Seq<char>>;

/// Relies on serde_json::from_str, Value::get and Value::as_str: pulls the
/// `responseData` string out of a passthrough payload. What is returned is a
/// function of the payload text alone, named `response_data_of`.
#[verifier::external_body]
fn extract_data_field(payload: &str) -> (r: Option<String>)
    ensures
        (r is Some) == (response_data_of(payload@) is Some),
        r matches Some(s) ==> response_data_of(payload@) == Some(s@),
{
    let v: serde_json::Value = serde_json::from_str(payload).ok()?;
    Some(v.get("responseData")?.as_str()?.to_owned())
}

/// Decode the device list out of a device-list payload, for every payload:
/// exactly the payload's `(alias, deviceId)` pairs, in order, or a transport
/// error when the payload does not carry such a list.
pub fn parse_device_list(payload: &str) -> (r: Result<Vec<Device>, ClientError>)
    ensures
        device_list_of(payload@) is None ==> (r matches Err(e) && e is TransportError),
        device_list_of(payload@) matches Some(ds) ==> (r matches Ok(v) && v@.len() == ds.len()
            && (forall|i: int|
            0 <= i < ds.len() ==> (#[trigger] v@[i]).alias@ == ds[i].0 && v@[i].device_id@
                == ds[i].1)),
{
    let pairs = match extract_device_list(payload) {
        Some(pairs) => pairs,
        None => {
            return Err(transport("the payload carries no device list"));
        },
    };
    let mut devices: Vec<Device> = Vec::new();
    let mut i: usize = 0;
    while i < pairs.len()
        invariant
            i <= pairs@.len(),
            devices@.len() == i,
            forall|j: int|
                0 <= j < i ==> (#[trigger] devices@[j]).alias@ == pairs@[j].0@
                    && devices@[j].device_id@ == pairs@[j].1@,
        decreases pairs@.len() - i,
    {
        let alias = pairs[i].0.clone();
        let device_id = pairs[i].1.clone();
        devices.push(Device { alias, device_id });
        i = i + 1;
    }
    Ok(devices)
}

/// The printed form of one device: `alias = deviceId`, on a line of its own.
pub open spec fn device_line(d: Device) -> Seq<char> {
    d.alias@ + " = "@ + d.device_id@ + "\n"@
}

/// The printed form of a device list: each device's line, in order.
pub open spec fn device_report_text(s: Seq<Device>) -> Seq<char>
    decreases s.len(),
{
    if s.len() == 0 {
        Seq::<char>::empty()
    } else {
        device_report_text(s.drop_last()) + device_line(s.last())
    }
}

/// Render the device list as it is printed: one `alias = deviceId` line per
/// device, in the order the service returned them.
pub fn device_report(devices: &Vec<Device>) -> (r: String)
    ensures
        r@ == device_report_text(devices@),
{
    let mut out = String::new();
    let mut i: usize = 0;
    while i < devices.len()
        invariant
            i <= devices@.len(),
            out@ == device_report_text(devices@.take(i as int)),
        decreases devices@.len() - i,
    {
        out.append(devices[i].alias.as_str());
        out.append(" = ");
        out.append(devices[i].device_id.as_str());
        out.append("\n");
        proof {
            assert(devices@.take((i + 1) as int).drop_last() =~= devices@.take(i as int));
            assert(devices@.take((i + 1) as int).last() == devices@[i as int]);
            assert(out@ =~= device_report_text(devices@.take((i + 1) as int)));
        }
        i = i + 1;
    }
    proof {
        assert(devices@.take(devices@.len() as int) =~= devices@);
    }
    out
}

/// Pull the raw telemetry string out of a passthrough payload, for every
/// payload: exactly the payload's `responseData` string, verbatim, or a
/// transport error when the payload does not carry one.
pub fn extract_response_data(payload: &str) -> (r: Result<String, ClientError>)
    ensures
        response_data_of(payload@) is None ==> (r matches Err(e) && e is TransportError),
        response_data_of(payload@) matches Some(s) ==> (r matches Ok(out) && out@ == s),
{
    match extract_data_field(payload) {
        Some(s) => Ok(s),
        None => Err(transport("the payload carries no responseData string")),
    }
}

} // verus!
