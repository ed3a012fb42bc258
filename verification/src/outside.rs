//! Declarations of the outside types and functions that the library calls.
//! Each item here is trusted: Verus believes its contract, which restates what
//! the outside source or documentation shows.

use crate::types::{TaskInfo, TaskInfoView};
use dashmap::DashMap;
use std::sync::Arc;
use vstd::prelude::*;

verus! {

// ---- serde_json ----

/// A JSON document (`serde_json::Value`), carried through the library
/// without being inspected.
#[verifier::external_type_specification]
#[verifier::external_body]
pub struct ExJsonValue(serde_json::Value);

/// `<serde_json::Value as Clone>::clone`: the derived clone, which copies the
/// document, so the copy equals the value it was made from.
pub assume_specification[ <serde_json::Value as Clone>::clone ](value: &serde_json::Value) -> (res: serde_json::Value)
    ensures
        res == *value,
;

/// Whether `serde_json::from_str::<serde_json::Value>` accepts a text as one
/// JSON document: a name for what its parser decides, which depends on the
/// text alone.
pub uninterp spec fn json_parses(text: Seq<char>) -> bool;

/// `serde_json::from_str::<serde_json::Value>`: parses a text as one JSON
/// document, or fails with the error's message (its `Display` text). It
/// succeeds exactly when [`json_parses`] holds of the text. Not stated: which
/// document it gives (a `Value` is opaque here) and the wording of the
/// message.
#[verifier::external_body]
pub(crate) fn json_parse(text: &str) -> (res: Result<serde_json::Value, String>)
    ensures
        res is Ok <==> json_parses(text@),
{
    match serde_json::from_str::<serde_json::Value>(text) {
        Ok(v) => Ok(v),
        Err(e) => Err(e.to_string()),
    }
}

/// Whether `text` parses (as `serde_json::from_str::<serde_json::Value>`
/// parses it) to an object with a member named `key`: a name for what
/// [`member_value`] finds, which depends on the text and the key alone.
pub uninterp spec fn json_has_member(text: Seq<char>, key: Seq<char>) -> bool;

/// `serde_json::from_str::<serde_json::Value>` then `Value::get` with a
/// string key, the member cloned: the member named `key` of the object that
/// `text` holds; `None` when the text is not JSON, not an object, or has no
/// such member. It finds one exactly when [`json_has_member`] holds. Not
/// stated: which value the member holds (a `Value` is opaque here).
#[verifier::external_body]
pub(crate) fn member_value(text: &str, key: &str) -> (res: Option<serde_json::Value>)
    ensures
        res is Some <==> json_has_member(text@, key@),
{
    match serde_json::from_str::<serde_json::Value>(text) {
        Ok(v) => v.get(key).cloned(),
        Err(_) => None,
    }
}

/// The text of the member named `key` of the object that `text` holds, when
/// that member is a JSON string: a name for what [`member_text`] gives,
/// which depends on the text and the key alone.
pub uninterp spec fn json_text_member(text: Seq<char>, key: Seq<char>) -> Option<Seq<char>>;

/// `serde_json::from_str::<serde_json::Value>`, then `Value::get` with a
/// string key and `Value::as_str`, the text copied: the member named `key`
/// of the object that `text` holds, when it is a JSON string; `None`
/// otherwise (not JSON, not an object, no such member, or not a string). It
/// gives [`json_text_member`] of the text and the key.
#[verifier::external_body]
pub(crate) fn member_text(text: &str, key: &str) -> (res: Option<String>)
    ensures
        match res {
            Some(t) => json_text_member(text@, key@) == Some(t@),
            None => json_text_member(text@, key@) is None,
        },
{
    match serde_json::from_str::<serde_json::Value>(text) {
        Ok(v) => match v.get(key) {
            Some(serde_json::Value::String(t)) => Some(t.clone()),
            _ => None,
        },
        Err(_) => None,
    }
}

/// The member named `key` of the object that `text` holds, when that member
/// is a JSON integer that fits in a `u64`: a name for what [`member_u64`]
/// gives, which depends on the text and the key alone.
pub uninterp spec fn json_u64_member(text: Seq<char>, key: Seq<char>) -> Option<u64>;

/// `serde_json::from_str::<serde_json::Value>`, then `Value::get` with a
/// string key and `Value::as_u64`: the member named `key` of the object that
/// `text` holds, when it is an integer that fits in a `u64`; `None`
/// otherwise. It gives [`json_u64_member`] of the text and the key.
#[verifier::external_body]
pub(crate) fn member_u64(text: &str, key: &str) -> (res: Option<u64>)
    ensures
        res == json_u64_member(text@, key@),
{
    match serde_json::from_str::<serde_json::Value>(text) {
        Ok(v) => match v.get(key) {
            Some(m) => m.as_u64(),
            None => None,
        },
        Err(_) => None,
    }
}

// ---- chrono ----

/// `chrono::Utc::now()`, read as microseconds since the Unix epoch
/// (`DateTime::timestamp_micros`). Nothing is claimed of the value: it is the
/// clock.
#[verifier::external_body]
pub(crate) fn now_micros() -> (res: i64) {
    chrono::Utc::now().timestamp_micros()
}

/// `chrono::Utc::now()`, read as milliseconds since the Unix epoch
/// (`DateTime::timestamp_millis`). Nothing is claimed of the value: it is the
/// clock.
#[verifier::external_body]
pub(crate) fn now_millis() -> (res: i64) {
    chrono::Utc::now().timestamp_millis()
}

// ---- uuid ----

/// `uuid::Uuid::new_v4()`, read as its 128 bits (`Uuid::as_u128`). Nothing is
/// claimed of the value: it is random.
#[verifier::external_body]
pub(crate) fn random_uuid_bits() -> (res: u128) {
    uuid::Uuid::new_v4().as_u128()
}

/// The lower-case hexadecimal digit of a number below 16.
pub open spec fn hex_digit(d: nat) -> char {
    if d < 10 {
        ((d + 48) as u8) as char
    } else {
        ((d + 87) as u8) as char
    }
}

/// The last `count` hexadecimal digits of `n`, most significant first.
pub open spec fn hex_digits(n: nat, count: nat) -> Seq<char>
    decreases count,
{
    if count == 0 {
        Seq::empty()
    } else {
        hex_digits(n / 16, (count - 1) as nat).push(hex_digit(n % 16))
    }
}

/// The hyphenated text of a UUID given by its 128 bits: 32 lower-case
/// hexadecimal digits, most significant first, in groups of 8, 4, 4, 4 and 12
/// separated by `-`.
pub open spec fn uuid_hyphenated(bits: u128) -> Seq<char> {
    let d = hex_digits(bits as nat, 32);
    d.subrange(0, 8) + seq!['-'] + d.subrange(8, 12) + seq!['-'] + d.subrange(12, 16) + seq!['-']
        + d.subrange(16, 20) + seq!['-'] + d.subrange(20, 32)
}

/// `uuid::Uuid::from_u128(bits).to_string()`: `Display` of a `Uuid` writes the
/// hyphenated lower-case form (`fmt::LowerHex`), and `from_u128` reads the
/// bits big-endian, as `as_u128` gives them.
#[verifier::external_body]
pub(crate) fn uuid_text(bits: u128) -> (res: String)
    ensures
        res@ == uuid_hyphenated(bits),
{
    uuid::Uuid::from_u128(bits).to_string()
}

// ---- std formatting and paths ----

/// The decimal digits of a number, most significant first, with no sign and
/// no leading zero (`0` is written `0`).
pub open spec fn decimal(n: nat) -> Seq<char>
    decreases n,
{
    if n < 10 {
        seq![((n + 48) as u8) as char]
    } else {
        decimal(n / 10).push(((n % 10 + 48) as u8) as char)
    }
}

/// `u64::to_string`: `Display` of an unsigned integer writes its decimal
/// digits with no sign and no padding.
#[verifier::external_body]
pub(crate) fn u64_text(n: u64) -> (res: String)
    ensures
        res@ == decimal(n as nat),
{
    n.to_string()
}

/// The decimal text of a signed number: a `-` before the digits of a
/// negative one.
pub open spec fn signed_decimal(n: int) -> Seq<char> {
    if n < 0 {
        seq!['-'] + decimal((-n) as nat)
    } else {
        decimal(n as nat)
    }
}

/// `i64::to_string`: `Display` of a signed integer writes `-` for a negative
/// number, then its decimal digits, with no padding.
#[verifier::external_body]
pub(crate) fn i64_text(n: i64) -> (res: String)
    ensures
        res@ == signed_decimal(n as int),
{
    n.to_string()
}

/// The path `part` joined onto `base`, as `Path::join` forms it on Unix: an
/// absolute `part` replaces `base`; otherwise a `/` goes between them unless
/// `base` is empty or already ends with `/`.
pub open spec fn joined(base: Seq<char>, part: Seq<char>) -> Seq<char> {
    if part.len() > 0 && part[0] == '/' {
        part
    } else if base.len() == 0 || base.last() == '/' {
        base + part
    } else {
        base + seq!['/'] + part
    }
}

/// `std::path::Path::new(base).join(part)`, as text (`to_string_lossy`,
/// which changes nothing in a path made of `&str`). The contract is the Unix
/// behaviour, where `/` is the only separator.
#[verifier::external_body]
pub(crate) fn path_join(base: &str, part: &str) -> (res: String)
    ensures
        res@ == joined(base@, part@),
{
    std::path::Path::new(base).join(part).to_string_lossy().to_string()
}

// ---- dashmap: the task table ----

/// `dashmap::DashMap`, a concurrent hash map.
#[verifier::external_type_specification]
#[verifier::external_body]
#[verifier::reject_recursive_types(K)]
#[verifier::reject_recursive_types(V)]
#[verifier::reject_recursive_types(S)]
pub struct ExDashMap<K, V, S>(dashmap::DashMap<K, V, S>);

/// The contents of the scheduler's task table: each task id (its bits) with
/// the value of the task.
pub uninterp spec fn task_entries(table: DashMap<u128, TaskInfo>) -> Map<u128, TaskInfoView>;

/// `DashMap::new()`: an empty map.
#[verifier::external_body]
pub(crate) fn task_table_new() -> (res: DashMap<u128, TaskInfo>)
    ensures
        task_entries(res) =~= Map::empty(),
{
    DashMap::new()
}

/// `DashMap::insert`: afterwards the key maps to the value, and every other
/// key keeps its value.
#[verifier::external_body]
pub(crate) fn task_table_insert(table: &mut DashMap<u128, TaskInfo>, key: u128, value: TaskInfo)
    ensures
        task_entries(*final(table)) == task_entries(*old(table)).insert(key, value@),
{
    table.insert(key, value);
}

/// `DashMap::get`, with the entry cloned out of the map.
#[verifier::external_body]
pub(crate) fn task_table_get(table: &DashMap<u128, TaskInfo>, key: u128) -> (res: Option<TaskInfo>)
    ensures
        res is Some == task_entries(*table).contains_key(key),
        res is Some ==> res->0@ == task_entries(*table)[key],
{
    match table.get(&key) {
        Some(entry) => Some(entry.value().clone()),
        None => None,
    }
}

/// A task id (its bits) beside the task.
pub type TaskRow = (u128, TaskInfo);

/// `DashMap::iter`, with each entry cloned out of the map: every entry exactly
/// once, in an order the map chooses.
#[verifier::external_body]
pub(crate) fn task_table_entries(table: &DashMap<u128, TaskInfo>) -> (res: Vec<TaskRow>)
    ensures
        res@.len() == task_entries(*table).dom().len(),
        forall|i: int|
            0 <= i < res@.len() ==> task_entries(*table).contains_key(#[trigger] res@[i].0)
                && task_entries(*table)[res@[i].0] == res@[i].1@,
        forall|i: int|
            #![trigger res@[i]]
            forall|j: int| 0 <= i < j < res@.len() ==> res@[i].0 != res@[j].0,
        forall|k: u128|
            task_entries(*table).contains_key(k) ==> exists|i: int|
                0 <= i < res@.len() && #[trigger] res@[i].0 == k,
{
    table.iter().map(|entry| (*entry.key(), entry.value().clone())).collect()
}

// ---- std::sync::Arc ----

/// `Arc::clone`: another handle to the same value.
#[verifier::external_body]
pub(crate) fn share<T>(value: &Arc<T>) -> (res: Arc<T>)
    ensures
        res == *value,
{
    Arc::clone(value)
}

} // verus!

verus! {

// ---- tokio: the event bus channel ----

/// `tokio::sync::broadcast::Sender`, the sending half of a broadcast channel.
#[verifier::external_type_specification]
#[verifier::external_body]
#[verifier::reject_recursive_types(T)]
pub struct ExBroadcastSender<T>(tokio::sync::broadcast::Sender<T>);

/// `tokio::sync::broadcast::Receiver`, a receiving half of a broadcast channel.
#[verifier::external_type_specification]
#[verifier::external_body]
#[verifier::reject_recursive_types(T)]
pub struct ExBroadcastReceiver<T>(tokio::sync::broadcast::Receiver<T>);

/// `tokio::sync::broadcast::channel(capacity)`, keeping the sender and
/// dropping the first receiver. The function panics when `capacity` is 0 or
/// exceeds `usize::MAX / 2`, which `requires` rules out. Nothing is claimed of
/// the channel: what its receivers see happens outside the library.
#[verifier::external_body]
pub(crate) fn bus_channel(capacity: usize) -> (res: tokio::sync::broadcast::Sender<crate::event::BusEvent>)
    requires
        0 < capacity <= usize::MAX / 2,
{
    tokio::sync::broadcast::channel(capacity).0
}

/// `Sender::send`, ignoring whether any receiver was listening.
#[verifier::external_body]
pub(crate) fn bus_send(sender: &tokio::sync::broadcast::Sender<crate::event::BusEvent>, event: crate::event::BusEvent) {
    let _ = sender.send(event);
}

/// `Sender::subscribe`: a new receiver of the events sent from now on.
#[verifier::external_body]
pub(crate) fn bus_subscribe(sender: &tokio::sync::broadcast::Sender<crate::event::BusEvent>) -> (res: tokio::sync::broadcast::Receiver<crate::event::BusEvent>) {
    sender.subscribe()
}

} // verus!

verus! {

// ---- parking_lot: the shared agent status ----

/// `lock_api::RwLock`, of which `parking_lot::RwLock` is the instance over
/// `parking_lot::RawRwLock`: a value shared behind a reader-writer lock.
#[verifier::external_type_specification]
#[verifier::external_body]
#[verifier::reject_recursive_types(R)]
#[verifier::reject_recursive_types(T)]
pub struct ExLockApiRwLock<R, T: ?Sized>(lock_api::RwLock<R, T>);

/// `parking_lot::RawRwLock`, the lock under `parking_lot::RwLock`.
#[verifier::external_type_specification]
#[verifier::external_body]
pub struct ExRawRwLock(parking_lot::RawRwLock);

/// The status a status lock was made with: the argument `RwLock::new` was
/// given. Later writes change what the lock holds, not this.
pub uninterp spec fn status_made_with(cell: parking_lot::RwLock<crate::types::AgentStatus>) -> crate::types::AgentStatus;

/// `parking_lot::RwLock::new`: a lock holding `status`, which it was made
/// with. What the lock holds later is not named: every handle of the agent
/// may write it.
#[verifier::external_body]
pub(crate) fn status_cell_new(status: crate::types::AgentStatus) -> (res: parking_lot::RwLock<crate::types::AgentStatus>)
    ensures
        status_made_with(res) == status,
{
    parking_lot::RwLock::new(status)
}

/// `RwLock::read`, with the status cloned out. Nothing is claimed of the
/// value: another handle may have written it.
#[verifier::external_body]
pub(crate) fn status_cell_read(cell: &parking_lot::RwLock<crate::types::AgentStatus>) -> (res: crate::types::AgentStatus) {
    cell.read().clone()
}

/// `RwLock::write`, replacing the status.
#[verifier::external_body]
pub(crate) fn status_cell_write(cell: &parking_lot::RwLock<crate::types::AgentStatus>, status: crate::types::AgentStatus) {
    *cell.write() = status;
}

// ---- dashmap: the agent table ----

/// An agent's id beside its handle.
pub type AgentRow = (String, crate::registry::AgentHandle);

/// The contents of the registry's agent table: each agent id (as text) with
/// the value of its handle.
pub uninterp spec fn agent_entries(table: DashMap<String, crate::registry::AgentHandle>) -> Map<Seq<char>, crate::registry::AgentHandleView>;

/// `DashMap::new()`: an empty map.
#[verifier::external_body]
pub(crate) fn agent_table_new() -> (res: DashMap<String, crate::registry::AgentHandle>)
    ensures
        agent_entries(res) =~= Map::empty(),
{
    DashMap::new()
}

/// `DashMap::insert`: afterwards the key maps to the value, and every other
/// key keeps its value.
#[verifier::external_body]
pub(crate) fn agent_table_insert(table: &mut DashMap<String, crate::registry::AgentHandle>, key: String, value: crate::registry::AgentHandle)
    ensures
        agent_entries(*final(table)) == agent_entries(*old(table)).insert(key@, value@),
{
    table.insert(key, value);
}

/// `DashMap::get`, with the handle cloned out of the map.
#[verifier::external_body]
pub(crate) fn agent_table_get(table: &DashMap<String, crate::registry::AgentHandle>, key: &str) -> (res: Option<crate::registry::AgentHandle>)
    ensures
        res is Some == agent_entries(*table).contains_key(key@),
        res is Some ==> res->0@ == agent_entries(*table)[key@],
{
    match table.get(key) {
        Some(entry) => Some(entry.value().clone()),
        None => None,
    }
}

/// `DashMap::remove`: the key leaves the map, and its handle is given back.
#[verifier::external_body]
pub(crate) fn agent_table_remove(table: &mut DashMap<String, crate::registry::AgentHandle>, key: &str) -> (res: Option<crate::registry::AgentHandle>)
    ensures
        agent_entries(*final(table)) == agent_entries(*old(table)).remove(key@),
        res is Some == agent_entries(*old(table)).contains_key(key@),
        res is Some ==> res->0@ == agent_entries(*old(table))[key@],
{
    match table.remove(key) {
        Some((_, handle)) => Some(handle),
        None => None,
    }
}

/// `DashMap::len`: the number of entries.
#[verifier::external_body]
pub(crate) fn agent_table_len(table: &DashMap<String, crate::registry::AgentHandle>) -> (res: usize)
    ensures
        res == agent_entries(*table).dom().len(),
{
    table.len()
}

/// `DashMap::iter`, with each entry cloned out of the map: every entry exactly
/// once, in an order the map chooses.
#[verifier::external_body]
pub(crate) fn agent_table_entries(table: &DashMap<String, crate::registry::AgentHandle>) -> (res: Vec<AgentRow>)
    ensures
        res@.len() == agent_entries(*table).dom().len(),
        forall|i: int|
            0 <= i < res@.len() ==> agent_entries(*table).contains_key(#[trigger] res@[i].0@)
                && agent_entries(*table)[res@[i].0@] == res@[i].1@,
        forall|i: int|
            #![trigger res@[i]]
            forall|j: int| 0 <= i < j < res@.len() ==> res@[i].0@ != res@[j].0@,
        forall|k: Seq<char>|
            agent_entries(*table).contains_key(k) ==> exists|i: int|
                0 <= i < res@.len() && #[trigger] res@[i].0@ == k,
{
    table.iter().map(|entry| (entry.key().clone(), entry.value().clone())).collect()
}

} // verus!

verus! {

// ---- std::time::Duration ----

/// The span of `secs` seconds and `nanos` nanoseconds.
pub uninterp spec fn duration_of(secs: u64, nanos: u32) -> std::time::Duration;

/// `std::time::Duration::new(secs, nanos)`. It panics only when the carry of
/// `nanos` into seconds overflows, which `requires` rules out.
#[verifier::external_body]
pub(crate) fn duration_new(secs: u64, nanos: u32) -> (res: std::time::Duration)
    requires
        nanos < 1_000_000_000,
    ensures
        res == duration_of(secs, nanos),
{
    std::time::Duration::new(secs, nanos)
}

} // verus!

verus! {

// ---- rusqlite ----

/// An open SQLite database (`rusqlite::Connection`), carried through the
/// library without being inspected.
#[verifier::external_type_specification]
#[verifier::external_body]
pub struct ExConnection(rusqlite::Connection);

/// `rusqlite::Connection::execute_batch(sql)`: runs each statement of `sql`
/// in turn; a failure is given as its message. What the database holds after
/// the call, and whether it fails, depend on the database: nothing is claimed.
#[verifier::external_body]
pub(crate) fn db_execute_batch(conn: &rusqlite::Connection, sql: &str) -> (res: Result<(), String>) {
    match conn.execute_batch(sql) {
        Ok(()) => Ok(()),
        Err(e) => Err(e.to_string()),
    }
}

/// `rusqlite::Connection::query_row(sql, [], |row| row.get(0))`: the first
/// column of the only row of the query `sql`, read as an `i32`; a failure is
/// given as its message. The value depends on the database: nothing is
/// claimed.
#[verifier::external_body]
pub(crate) fn db_query_i32(conn: &rusqlite::Connection, sql: &str) -> (res: Result<i32, String>) {
    match conn.query_row(sql, [], |row| row.get(0)) {
        Ok(v) => Ok(v),
        Err(e) => Err(e.to_string()),
    }
}

/// `rusqlite::Connection::execute(sql, [value])`: runs the statement `sql`
/// with `value` bound to its one parameter; a failure is given as its
/// message. Whether it fails depends on the database: nothing is claimed.
#[verifier::external_body]
pub(crate) fn db_execute_with_i32(conn: &rusqlite::Connection, sql: &str, value: i32) -> (res: Result<(), String>) {
    match conn.execute(sql, [value]) {
        Ok(_) => Ok(()),
        Err(e) => Err(e.to_string()),
    }
}

} // verus!
