//! Choice of the TCP port that the backend is told to bind.

use vstd::prelude::*;

verus! {

/// The lowest port handed to the backend.
pub const PORT_LOW: u16 = 8000;

/// One past the highest port handed to the backend.
pub const PORT_HIGH: u16 = 9000;

/// A port in the backend's range `[PORT_LOW, PORT_HIGH)`.
pub open spec fn is_backend_port(p: u16) -> bool {
    PORT_LOW <= p < PORT_HIGH
}

/// Relies on rand::thread_rng and rand::Rng::gen_range: a value drawn from
/// the half-open range `low..high` (gen_range panics on an empty range).
#[verifier::external_body]
fn draw_in_range(low: u16, high: u16) -> (r: u16)
    requires
        low < high,
    ensures
        low <= r < high,
{
    rand::Rng::gen_range(&mut rand::thread_rng(), low..high)
}

/// A port drawn at random from the backend's range. Whether something else
/// already listens on it is not probed.
pub fn allocate_port() -> (r: u16)
    ensures
        is_backend_port(r),
{
    draw_in_range(PORT_LOW, PORT_HIGH)
}

} // verus!
