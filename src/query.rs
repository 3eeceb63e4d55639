//! Query texts for the time-series store.
use vstd::prelude::*;
use vstd::string::StringExecFns;

verus! {

/// The mean of `field` over the last `duration` in `measurement`.
pub fn mean_query(measurement: &str, field: &str, duration: &str) -> (r: String)
    ensures
        r@ == "SELECT mean(\""@ + field@ + "\") AS mean FROM "@ + measurement@
            + " WHERE time > now() - "@ + duration@,
{
    let mut r = String::from_str("SELECT mean(\"");
    r.append(field);
    r.append("\") AS mean FROM ");
    r.append(measurement);
    r.append(" WHERE time > now() - ");
    r.append(duration);
    r
}

/// The 30-minute mean of the generation current.
pub fn generation_mean_query(measurement: &str) -> (r: String)
    ensures
        r@ == "SELECT mean(\"pv_current\") AS mean FROM "@ + measurement@
            + " WHERE time > now() - 30m"@,
{
    let mut r = String::from_str("SELECT mean(\"pv_current\") AS mean FROM ");
    r.append(measurement);
    r.append(" WHERE time > now() - 30m");
    r
}

/// The 15-minute mean of the storage voltage.
pub fn storage_mean_query(measurement: &str) -> (r: String)
    ensures
        r@ == "SELECT mean(\"battery_voltage\") AS mean FROM "@ + measurement@
            + " WHERE time > now() - 15m"@,
{
    let mut r = String::from_str("SELECT mean(\"battery_voltage\") AS mean FROM ");
    r.append(measurement);
    r.append(" WHERE time > now() - 15m");
    r
}

/// The latest report of every device: its level, wake flag and time.
pub fn latest_status_query(measurement: &str) -> (r: String)
    ensures
        r@ == "SELECT last(status) AS status, last(wake) AS wake FROM "@ + measurement@
            + " GROUP BY mac"@,
{
    let mut r = String::from_str("SELECT last(status) AS status, last(wake) AS wake FROM ");
    r.append(measurement);
    r.append(" GROUP BY mac");
    r
}

/// Sensor history within `condition`, and, for a device given by its text,
/// that device's reports within it as a second statement.
pub fn history_query(pv_measurement: &str, worker_measurement: &str, condition: &str, mac_text: Option<&str>) -> (r: String)
    ensures
        r@ == "SELECT time, battery_voltage, pv_voltage, pv_current, temperature FROM "@
            + pv_measurement@ + " WHERE "@ + condition@ + match mac_text {
            None => Seq::<char>::empty(),
            Some(m) => ";SELECT time, status, wake FROM "@ + worker_measurement@ + " WHERE "@
                + condition@ + " AND mac = '"@ + m@ + "'"@,
        },
{
    let mut r = String::from_str("SELECT time, battery_voltage, pv_voltage, pv_current, temperature FROM ");
    r.append(pv_measurement);
    r.append(" WHERE ");
    r.append(condition);
    let ghost first = r@;
    match mac_text {
        None => {
            assert(r@ =~= first + Seq::<char>::empty());
        },
        Some(m) => {
            let mut second = String::from_str(";SELECT time, status, wake FROM ");
            second.append(worker_measurement);
            second.append(" WHERE ");
            second.append(condition);
            second.append(" AND mac = '");
            second.append(m);
            second.append("'");
            r.append(second.as_str());
        },
    }
    r
}

} // verus!
