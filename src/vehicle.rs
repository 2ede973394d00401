use vstd::prelude::*;
use vstd::string::*;

verus! {

/// Relies on `uuid::Uuid::new_v4` and its `Display`: a fresh random UUID in
/// hyphenated form, which is 36 characters long.
#[verifier::external_body]
fn new_id() -> (r: String)
    ensures
        r@.len() == 36,
{
    uuid::Uuid::new_v4().to_string()
}

/// A vehicle record; `id` is filled in by the service.
#[derive(Clone, Debug)]
pub struct Vehicle {
    pub manufacturer: String,
    pub model: String,
    pub year: u32,
    pub id: Option<String>,
}

/// The same record with `id` set, every other field kept.
pub fn with_id(v: Vehicle, id: String) -> (r: Vehicle)
    ensures
        r.manufacturer == v.manufacturer,
        r.model == v.model,
        r.year == v.year,
        r.id == Some(id),
{
    Vehicle { id: Some(id), ..v }
}

/// The sample record served on a read, with the given id.
pub fn sample_vehicle(id: String) -> (r: Vehicle)
    ensures
        r.manufacturer@ == seq!['t', 'o', 'y', 'o', 't', 'a'],
        r.model@ == seq!['2', '0', '2', '4'],
        r.year == 2021,
        r.id == Some(id),
{
    proof {
        reveal_strlit("toyota");
        reveal_strlit("2024");
    }
    let manufacturer = String::from_str("toyota");
    let model = String::from_str("2024");
    assert(manufacturer@ =~= seq!['t', 'o', 'y', 'o', 't', 'a']);
    assert(model@ =~= seq!['2', '0', '2', '4']);
    Vehicle { manufacturer, model, year: 2021, id: Some(id) }
}

/// The sample record under a fresh id.
pub fn vehicle_get() -> (r: Vehicle)
    ensures
        r.manufacturer@ == seq!['t', 'o', 'y', 'o', 't', 'a'],
        r.model@ == seq!['2', '0', '2', '4'],
        r.year == 2021,
        r.id matches Some(id) && id@.len() == 36,
{
    sample_vehicle(new_id())
}

/// The posted record under a fresh id; whatever id it came with is replaced.
pub fn vehicle_post(v: Vehicle) -> (r: Vehicle)
    ensures
        r.manufacturer == v.manufacturer,
        r.model == v.model,
        r.year == v.year,
        r.id matches Some(id) && id@.len() == 36,
{
    with_id(v, new_id())
}

} // verus!
