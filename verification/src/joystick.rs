//! A joystick's capabilities: the buttons and axes that the device reports.

use vstd::prelude::*;
use std::collections::BTreeMap;
use crate::events::EventCode;

verus! {

/// The event type of keys and buttons.
pub const EV_KEY: u32 = 0x01;

/// The event type of relative axes.
pub const EV_REL: u32 = 0x02;

/// The highest code of a key or button; buttons are probed below it.
pub const KEY_MAX: u32 = 0x2ff;

/// The highest index of an absolute axis; axes are probed below it.
pub const ABS_AXIS_MAX: u32 = 0x3f;

/// The highest index of a relative axis; axes are probed below it.
pub const REL_MAX: u32 = 0x0f;

/// Whether `found` lists, in rising order, exactly the indices below `limit`
/// at which `flags` holds `true`.
pub open spec fn lists_present(found: Seq<u32>, flags: Seq<bool>, limit: int) -> bool {
    &&& forall|j: int|
        0 <= j < found.len() ==> (#[trigger] found[j]) < limit && found[j] < flags.len()
            && flags[found[j] as int]
    &&& forall|j: int, k: int| 0 <= j < k < found.len() ==> found[j] < found[k]
    &&& forall|i: int|
        0 <= i < limit && i < flags.len() && #[trigger] flags[i] ==> exists|j: int|
            0 <= j < found.len() && #[trigger] found[j] == i
}

/// The indices below `limit` at which `flags` holds `true`, in rising order.
pub fn present_indices(flags: &Vec<bool>, limit: u32) -> (found: Vec<u32>)
    ensures
        lists_present(found@, flags@, limit as int),
        found.len() <= limit,
{
    let mut found: Vec<u32> = Vec::new();
    let mut i: u32 = 0;
    while i < limit && (i as usize) < flags.len()
        invariant
            i <= limit,
            i <= flags.len(),
            found.len() <= i,
            forall|j: int|
                0 <= j < found.len() ==> (#[trigger] found[j]) < i && flags[found[j] as int],
            forall|j: int, k: int| 0 <= j < k < found.len() ==> found[j] < found[k],
            forall|n: int|
                0 <= n < i && #[trigger] flags[n] ==> exists|j: int|
                    0 <= j < found.len() && #[trigger] found[j] == n,
        decreases limit - i,
    {
        if flags[i as usize] {
            let ghost before = found@;
            found.push(i);
            assert forall|n: int| 0 <= n < i + 1 && #[trigger] flags[n] implies exists|j: int|
                0 <= j < found.len() && #[trigger] found[j] == n by {
                if n < i {
                    let j = choose|j: int| 0 <= j < before.len() && #[trigger] before[j] == n;
                    assert(found[j] == n);
                } else {
                    assert(found[before.len() as int] == n);
                }
            }
        }
        i += 1;
    }
    found
}

/// The number of indices below `bound` at which `flags` holds `true`.
pub open spec fn present_below(flags: Seq<bool>, bound: int) -> int
    decreases bound,
{
    if bound <= 0 {
        0
    } else if bound - 1 < flags.len() && flags[bound - 1] {
        present_below(flags, bound - 1) + 1
    } else {
        present_below(flags, bound - 1)
    }
}

/// Whether `indices` maps exactly the codes below `limit` at which `flags`
/// holds `true`, each to its dense index: the number of such codes below it.
pub open spec fn maps_dense(indices: Map<u32, u32>, flags: Seq<bool>, limit: int) -> bool {
    forall|code: u32|
        {
            &&& #[trigger] indices.contains_key(code) <==> (code < limit && code < flags.len()
                && flags[code as int])
            &&& indices.contains_key(code) ==> indices[code] == present_below(flags, code as int)
        }
}

/// The dense indices of the codes below `limit` at which `flags` holds `true`:
/// the first such code gets 0, the next 1, and so on.
pub fn dense_indices(flags: &Vec<bool>, limit: u32) -> (indices: BTreeMap<u32, u32>)
    ensures
        maps_dense(indices@, flags@, limit as int),
{
    let mut indices: BTreeMap<u32, u32> = BTreeMap::new();
    let mut count: u32 = 0;
    let mut i: u32 = 0;
    while i < limit && (i as usize) < flags.len()
        invariant
            i <= limit,
            i <= flags.len(),
            count <= i,
            count == present_below(flags@, i as int),
            forall|code: u32|
                {
                    &&& #[trigger] indices@.contains_key(code) <==> (code < i && flags[code as int])
                    &&& indices@.contains_key(code) ==> indices@[code] == present_below(
                        flags@,
                        code as int,
                    )
                },
        decreases limit - i,
    {
        if flags[i as usize] {
            indices.insert(i, count);
            count += 1;
        }
        i += 1;
    }
    indices
}

/// A list of the present indices holds an index exactly when the index is below
/// the limit and its flag is set, and holds it at one place only.
pub proof fn lemma_present_once(found: Seq<u32>, flags: Seq<bool>, limit: int, index: u32)
    requires
        lists_present(found, flags, limit),
    ensures
        found.contains(index) <==> (index < limit && index < flags.len() && flags[index as int]),
        forall|j: int, k: int|
            0 <= j < found.len() && 0 <= k < found.len() && found[j] == index && found[k] == index
                ==> j == k,
{
    if index < limit && index < flags.len() && flags[index as int] {
        let j = choose|j: int| 0 <= j < found.len() && #[trigger] found[j] == index as int;
        assert(found[j] == index);
    }
    assert forall|j: int, k: int|
        0 <= j < found.len() && 0 <= k < found.len() && found[j] == index && found[k]
            == index implies j == k by {
        if j < k {
            assert(found[j] < found[k]);
        } else if k < j {
            assert(found[k] < found[j]);
        }
    }
}

/// Splits a list of the present indices at `bound`: the indices below `bound`
/// come first, and there are `present_below(flags, bound)` of them.
proof fn lemma_split_at(found: Seq<u32>, flags: Seq<bool>, limit: int, bound: int) -> (k: int)
    requires
        lists_present(found, flags, limit),
        0 <= bound <= limit,
    ensures
        0 <= k <= found.len(),
        k == present_below(flags, bound),
        forall|j: int| 0 <= j < k ==> found[j] < bound,
        forall|j: int| k <= j < found.len() ==> found[j] >= bound,
    decreases bound,
{
    if bound == 0 {
        0
    } else {
        let last = bound - 1;
        let k = lemma_split_at(found, flags, limit, last);
        if last < flags.len() && flags[last] {
            let at = choose|j: int| 0 <= j < found.len() && #[trigger] found[j] == last;
            if at < k {
                assert(found[at] < last);
            }
            if at > k {
                assert(found[k] < found[at]);
            }
            assert(at == k);
            assert forall|j: int| k + 1 <= j < found.len() implies found[j] >= bound by {
                assert(found[k] < found[j]);
            }
            k + 1
        } else {
            assert forall|j: int| k <= j < found.len() implies found[j] >= bound by {
                if found[j] == last {
                    assert(flags[found[j] as int]);
                }
            }
            k
        }
    }
}

/// The dense index of a present code is its place in the rising list of the
/// present codes: the first code probed gets 0, the next 1, and so on.
pub proof fn lemma_dense_index_is_place(found: Seq<u32>, flags: Seq<bool>, limit: int, place: int)
    requires
        lists_present(found, flags, limit),
        0 <= place < found.len(),
    ensures
        present_below(flags, found[place] as int) == place,
{
    let k = lemma_split_at(found, flags, limit, found[place] as int);
    if place < k {
        assert(found[place] < found[place]);
    }
    if place > k {
        assert(found[k] < found[place]);
    }
}

/// The capabilities of one joystick, taken once when the device was opened.
#[derive(Debug)]
pub struct Joystick {
    buttons: BTreeMap<u32, u32>,
    abs_axis: Vec<u32>,
    rel_axis: Vec<u32>,
}

impl Joystick {
    /// The dense index of each button of the device, by the button's code.
    pub closed spec fn button_indices(self) -> Map<u32, u32> {
        self.buttons@
    }

    /// The indices of the device's absolute axes, in rising order.
    pub closed spec fn abs_axes(self) -> Seq<u32> {
        self.abs_axis@
    }

    /// The indices of the device's relative axes, in rising order.
    pub closed spec fn rel_axes(self) -> Seq<u32> {
        self.rel_axis@
    }

    /// The joystick of a device that was probed. `keys[i]` says whether the
    /// device has the button of code `i`, `abs[i]` and `rel[i]` whether it has
    /// the absolute and the relative axis of index `i`. What lies at or above
    /// `KEY_MAX`, `ABS_AXIS_MAX` and `REL_MAX` is not looked at.
    pub fn from_probes(keys: &Vec<bool>, abs: &Vec<bool>, rel: &Vec<bool>) -> (r: Joystick)
        ensures
            maps_dense(r.button_indices(), keys@, KEY_MAX as int),
            lists_present(r.abs_axes(), abs@, ABS_AXIS_MAX as int),
            lists_present(r.rel_axes(), rel@, REL_MAX as int),
    {
        Joystick {
            buttons: dense_indices(keys, KEY_MAX),
            abs_axis: present_indices(abs, ABS_AXIS_MAX),
            rel_axis: present_indices(rel, REL_MAX),
        }
    }

    /// The codes of the device's buttons below `KEY_MAX`, in rising order.
    pub fn buttons(&self) -> (r: Vec<u32>)
        ensures
            forall|j: int|
                0 <= j < r.len() ==> (#[trigger] r[j]) < KEY_MAX && self.button_indices().contains_key(
                    r[j],
                ),
            forall|j: int, k: int| 0 <= j < k < r.len() ==> r[j] < r[k],
            forall|code: u32|
                code < KEY_MAX && #[trigger] self.button_indices().contains_key(code)
                    ==> r@.contains(code),
    {
        let mut found: Vec<u32> = Vec::new();
        let mut code: u32 = 0;
        while code < KEY_MAX
            invariant
                code <= KEY_MAX,
                forall|j: int|
                    0 <= j < found.len() ==> (#[trigger] found[j]) < code
                        && self.buttons@.contains_key(found[j]),
                forall|j: int, k: int| 0 <= j < k < found.len() ==> found[j] < found[k],
                forall|c: u32|
                    c < code && #[trigger] self.buttons@.contains_key(c) ==> found@.contains(c),
            decreases KEY_MAX - code,
        {
            if self.buttons.contains_key(&code) {
                let ghost before = found@;
                found.push(code);
                assert forall|c: u32|
                    c < code + 1 && #[trigger] self.buttons@.contains_key(c) implies found@.contains(
                    c,
                ) by {
                    if c < code {
                        let j = choose|j: int| 0 <= j < before.len() && before[j] == c;
                        assert(found[j] == c);
                    } else {
                        assert(found[before.len() as int] == c);
                    }
                }
            }
            code += 1;
        }
        found
    }

    /// The indices of the device's absolute axes.
    pub fn abs_axis(&self) -> (r: &Vec<u32>)
        ensures
            r@ == self.abs_axes(),
    {
        &self.abs_axis
    }

    /// The indices of the device's relative axes.
    pub fn rel_axis(&self) -> (r: &Vec<u32>)
        ensures
            r@ == self.rel_axes(),
    {
        &self.rel_axis
    }

    /// The dense index of the button that `event_code` names. Absent for a
    /// code of another event type and for a button that the device does not
    /// have.
    pub fn get_button_index(&self, event_code: &EventCode) -> (r: Option<u32>)
        ensures
            r == if event_code.event_type == EV_KEY && self.button_indices().contains_key(
                event_code.event_code,
            ) {
                Some(self.button_indices()[event_code.event_code])
            } else {
                None
            },
    {
        if event_code.event_type != EV_KEY {
            return None;
        }
        match self.buttons.get(&event_code.event_code) {
            Some(index) => Some(*index),
            None => None,
        }
    }

    /// Whether `file_name` names the event node of a joystick: whether it ends
    /// in `-event-joystick`.
    pub fn is_joystick_node(file_name: &str) -> (r: bool)
        ensures
            r == "-event-joystick"@.is_suffix_of(file_name@),
    {
        str_ends_with(file_name, "-event-joystick")
    }
}

/// `str::ends_with` of std, with a string as the pattern: whether `suffix`
/// matches the end of `text`.
#[verifier::external_body]
fn str_ends_with(text: &str, suffix: &str) -> (r: bool)
    ensures
        r == suffix@.is_suffix_of(text@),
{
    text.ends_with(suffix)
}

} // verus!
