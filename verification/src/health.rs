use crate::config::HEALTH_CHECK_MIN_TARGETS;
use crate::random::random_u64;
use vstd::prelude::*;

verus! {

/// How many devices a round of health checks queries, out of
/// `device_count`: two or three, as `roll` chooses, but never more than
/// there are.
pub open spec fn target_count(device_count: u32, roll: u64) -> int {
    let wanted = HEALTH_CHECK_MIN_TARGETS + roll % 2;
    if wanted < device_count { wanted as int } else { device_count as int }
}

/// The `i`-th device a round queries: devices are taken one after another,
/// wrapping around, from a first device that `roll` chooses. Ids run from 1
/// to `device_count`.
pub open spec fn target_at(device_count: u32, roll: u64, i: int) -> int {
    let first = (roll as int / 2) % (device_count as int);
    if first + i < device_count { first + i + 1 } else { first + i - device_count + 1 }
}

/// The devices that a round of health checks queries, as `roll` chooses
/// them.
pub fn health_check_targets(device_count: u32, roll: u64) -> (ids: Vec<u32>)
    ensures
        ids.len() == target_count(device_count, roll),
        forall|i: int| 0 <= i < ids.len() ==> #[trigger] ids[i] == target_at(device_count, roll, i),
        forall|i: int| 0 <= i < ids.len() ==> 1 <= #[trigger] ids[i] <= device_count,
        forall|i: int, j: int| 0 <= i < j < ids.len() ==> ids[i] != ids[j],
{
    let mut ids: Vec<u32> = Vec::new();
    if device_count == 0 {
        return ids;
    }
    let wanted: u64 = HEALTH_CHECK_MIN_TARGETS + roll % 2;
    let count: u32 = if wanted < device_count as u64 { wanted as u32 } else { device_count };
    let first: u32 = ((roll / 2) % (device_count as u64)) as u32;
    let mut i: u32 = 0;
    while i < count
        invariant
            device_count > 0,
            count == target_count(device_count, roll),
            first == (roll as int / 2) % (device_count as int),
            first < device_count,
            i <= count <= device_count,
            ids.len() == i,
            forall|k: int| 0 <= k < i ==> #[trigger] ids[k] == target_at(device_count, roll, k),
            forall|k: int| 0 <= k < i ==> 1 <= #[trigger] ids[k] <= device_count,
            forall|k: int, l: int| 0 <= k < l < i ==> ids[k] != ids[l],
        decreases count - i,
    {
        let id: u32 = if i < device_count - first { first + i + 1 } else { i - (device_count - first) + 1 };
        ids.push(id);
        i = i + 1;
    }
    ids
}

/// The devices that a round of health checks queries, chosen at random:
/// two or three distinct devices (fewer only when there are fewer), with
/// ids from 1 to `device_count`.
pub fn choose_health_targets(device_count: u32) -> (ids: Vec<u32>)
    ensures
        exists|roll: u64| {
            &&& ids.len() == #[trigger] target_count(device_count, roll)
            &&& forall|i: int| 0 <= i < ids.len() ==> #[trigger] ids[i] == target_at(device_count, roll, i)
        },
        device_count >= 3 ==> 2 <= ids.len() <= 3,
        ids.len() <= device_count,
        forall|i: int| 0 <= i < ids.len() ==> 1 <= #[trigger] ids[i] <= device_count,
        forall|i: int, j: int| 0 <= i < j < ids.len() ==> ids[i] != ids[j],
{
    let roll = random_u64();
    health_check_targets(device_count, roll)
}

/// Every device can be the first one queried: for each device id from 1 to
/// `device_count` there is a random word that makes it the first target, and
/// the round then holds it.
pub proof fn law_every_device_can_come_first(device_count: u32, id: u32)
    requires
        1 <= id <= device_count,
    ensures
        ({
            let roll = (2 * (id - 1)) as u64;
            &&& target_at(device_count, roll, 0) == id
            &&& target_count(device_count, roll) >= 1
        }),
{
    let roll = (2 * (id - 1)) as u64;
    assert(roll as int / 2 == id - 1);
    assert((id - 1) % (device_count as int) == id - 1) by (nonlinear_arith)
        requires
            0 <= id - 1 < device_count,
    ;
}

/// The devices of a round are consecutive ids, wrapping from the last
/// device back to the first.
pub proof fn law_targets_consecutive(device_count: u32, roll: u64, i: int)
    requires
        device_count > 0,
        0 <= i,
        i + 1 < target_count(device_count, roll),
    ensures
        target_at(device_count, roll, i + 1) == if target_at(device_count, roll, i) == device_count {
            1
        } else {
            target_at(device_count, roll, i) + 1
        },
{
}

} // verus!
