//! The choice of a physical device and a queue family: the first family, of
//! the first device, that supports graphics and can present to the surface.

use vstd::prelude::*;
use crate::physical_device::QueueFamilyProperties;

verus! {

/// What the choice reads of a queue family.
#[derive(Debug, Clone, Copy, PartialEq, Eq, Structural)]
pub struct QueueFamilySupport {
    pub graphics: bool,
    pub present: bool,
}

/// A family is suitable where it supports graphics and presentation.
pub open spec fn suitable(family: QueueFamilySupport) -> bool {
    family.graphics && family.present
}

/// The families of each device, as sequences.
pub open spec fn family_lists(devices: Seq<Vec<QueueFamilySupport>>) -> Seq<
    Seq<QueueFamilySupport>,
> {
    devices.map_values(|families: Vec<QueueFamilySupport>| families@)
}

/// No family of `devices` before the place `(device, family)`, in the order
/// of devices and, within a device, of indices, is suitable.
pub open spec fn none_before(devices: Seq<Seq<QueueFamilySupport>>, device: int, family: int) -> bool {
    forall|d: int, f: int|
        0 <= d < devices.len() && 0 <= f < devices[d].len() && (d < device || (d == device && f
            < family)) ==> !suitable(#[trigger] devices[d][f])
}

/// `(device, family)` is the first suitable family of the first device that
/// has one.
pub open spec fn first_suitable(devices: Seq<Seq<QueueFamilySupport>>, device: int, family: int) -> bool {
    &&& 0 <= device < devices.len()
    &&& 0 <= family < devices[device].len()
    &&& suitable(devices[device][family])
    &&& none_before(devices, device, family)
}

/// No family of any device is suitable.
pub open spec fn none_suitable(devices: Seq<Seq<QueueFamilySupport>>) -> bool {
    forall|d: int, f: int|
        0 <= d < devices.len() && 0 <= f < devices[d].len() ==> !suitable(#[trigger] devices[d][f])
}

/// The choice is determined by the data: there is at most one first suitable
/// family, and none where no family is suitable.
pub proof fn lemma_choice_determined(
    devices: Seq<Seq<QueueFamilySupport>>,
    device: int,
    family: int,
    other_device: int,
    other_family: int,
)
    requires
        first_suitable(devices, device, family),
    ensures
        first_suitable(devices, other_device, other_family) ==> other_device == device
            && other_family == family,
        !none_suitable(devices),
{
    if first_suitable(devices, other_device, other_family) {
        if other_device < device || (other_device == device && other_family < family) {
            assert(!suitable(devices[other_device][other_family]));
        }
        if device < other_device || (device == other_device && family < other_family) {
            assert(!suitable(devices[device][family]));
        }
    }
}

/// Chooses among devices whose families are all known: the first suitable
/// family of the first device that has one, or none where there is none.
pub fn select_queue_family(devices: &Vec<Vec<QueueFamilySupport>>) -> (choice: Option<(usize, usize)>)
    ensures
        choice matches Some((device, family)) ==> first_suitable(
            family_lists(devices@),
            device as int,
            family as int,
        ),
        choice is None ==> none_suitable(family_lists(devices@)),
{
    let ghost lists = family_lists(devices@);
    let mut d: usize = 0;
    while d < devices.len()
        invariant
            d <= devices.len(),
            lists == family_lists(devices@),
            none_before(lists, d as int, 0),
        decreases devices.len() - d,
    {
        let families = &devices[d];
        assert(lists[d as int] == families@);
        let mut f: usize = 0;
        while f < families.len()
            invariant
                d < devices.len(),
                f <= families.len(),
                lists == family_lists(devices@),
                lists[d as int] == families@,
                none_before(lists, d as int, f as int),
            decreases families.len() - f,
        {
            if families[f].graphics && families[f].present {
                return Some((d, f));
            }
            f = f + 1;
        }
        d = d + 1;
    }
    None
}

/// The least index from `from` on at which `graphics` holds, if there is one.
pub open spec fn next_graphics(graphics: Seq<bool>, from: int) -> Option<int>
    decreases graphics.len() - from,
{
    if from < 0 || from >= graphics.len() {
        None
    } else if graphics[from] {
        Some(from)
    } else {
        next_graphics(graphics, from + 1)
    }
}

/// What `next_graphics` finds is the first such index, and where it finds
/// none there is none.
pub proof fn lemma_next_graphics(graphics: Seq<bool>, from: int)
    requires
        0 <= from,
    ensures
        match next_graphics(graphics, from) {
            Some(k) => from <= k < graphics.len() && graphics[k] && forall|j: int|
                from <= j < k ==> !graphics[j],
            None => forall|j: int| from <= j < graphics.len() ==> !graphics[j],
        },
    decreases graphics.len() - from,
{
    if from < graphics.len() && !graphics[from] {
        lemma_next_graphics(graphics, from + 1);
    }
}

/// Whether each family supports graphics, by index.
pub open spec fn graphics_flags(families: Seq<QueueFamilyProperties>) -> Seq<bool> {
    families.map_values(|p: QueueFamilyProperties| p.capabilities.graphics)
}

/// How far a choice has come that asks the runtime only as far as it must.
#[derive(Debug, Clone)]
pub enum SelectionState {
    /// Nothing has been asked yet.
    Start,
    /// The families of this device have been asked for.
    AwaitingFamilies { device: usize },
    /// Whether this family of this device can present has been asked; the
    /// flags say which families of the device support graphics.
    AwaitingSupport { device: usize, family: usize, graphics: Vec<bool> },
    /// The choice has ended.
    Finished,
}

/// What the outside answered.
#[derive(Debug)]
pub enum SelectionEvent {
    /// The choice is to begin.
    Started,
    /// The queue families of the device that was asked about.
    Families { families: Vec<QueueFamilyProperties> },
    /// Whether the family that was asked about can present to the surface.
    Support { supported: bool },
}

/// What the outside is to do next, or how the choice ended.
#[derive(Debug, Clone, Copy, PartialEq, Eq, Structural)]
pub enum SelectionAction {
    /// Ask for the queue families of this device.
    QueryFamilies { device: usize },
    /// Ask whether this family of this device can present to the surface.
    QuerySupport { device: usize, family: usize },
    /// This family of this device is chosen.
    Selected { device: usize, family: usize },
    /// No family of any device is suitable.
    NoneSuitable,
    /// An event arrived that does not answer what was asked last.
    UnexpectedEvent,
}

/// Where the choice goes on from family `from` of device `device`, whose
/// graphics flags are `graphics`: to the next family that supports graphics,
/// else to the next device, else to the end.
pub open spec fn goes_on(
    device_count: usize,
    device: usize,
    graphics: Seq<bool>,
    from: int,
    next: SelectionState,
    action: SelectionAction,
) -> bool {
    match next_graphics(graphics, from) {
        Some(k) => {
            &&& next matches SelectionState::AwaitingSupport { device: d, family, graphics: kept }
            &&& d == device
            &&& family == k
            &&& kept@ == graphics
            &&& action == (SelectionAction::QuerySupport { device, family })
        },
        None => if device + 1 < device_count {
            &&& next == (SelectionState::AwaitingFamilies { device: (device + 1) as usize })
            &&& action == (SelectionAction::QueryFamilies { device: (device + 1) as usize })
        } else {
            &&& next == SelectionState::Finished
            &&& action == SelectionAction::NoneSuitable
        },
    }
}

/// The step that `event` causes in `state`, among `device_count` devices.
/// Devices are asked about in order; of each, only families that support
/// graphics are asked about, in index order; the first that can present is
/// chosen and ends the choice.
pub open spec fn selection_transition(
    device_count: usize,
    state: SelectionState,
    event: SelectionEvent,
    next: SelectionState,
    action: SelectionAction,
) -> bool {
    match (state, event) {
        (SelectionState::Start, SelectionEvent::Started) => if device_count == 0 {
            &&& next == SelectionState::Finished
            &&& action == SelectionAction::NoneSuitable
        } else {
            &&& next == (SelectionState::AwaitingFamilies { device: 0 })
            &&& action == (SelectionAction::QueryFamilies { device: 0 })
        },
        (SelectionState::AwaitingFamilies { device }, SelectionEvent::Families { families }) => {
            goes_on(device_count, device, graphics_flags(families@), 0, next, action)
        },
        (
            SelectionState::AwaitingSupport { device, family, graphics },
            SelectionEvent::Support { supported },
        ) => if supported {
            &&& next == SelectionState::Finished
            &&& action == (SelectionAction::Selected { device, family })
        } else {
            goes_on(device_count, device, graphics@, family + 1, next, action)
        },
        _ => {
            &&& next == SelectionState::Finished
            &&& action == SelectionAction::UnexpectedEvent
        },
    }
}

/// Whether each family supports graphics, by index.
pub open spec fn graphics_of(families: Seq<QueueFamilySupport>) -> Seq<bool> {
    families.map_values(|f: QueueFamilySupport| f.graphics)
}

/// The state fits the devices: what it remembers of the device in hand is
/// true of it, the family in question supports graphics, and no family before
/// the place that it has reached is suitable.
pub open spec fn on_track(devices: Seq<Seq<QueueFamilySupport>>, state: SelectionState) -> bool {
    match state {
        SelectionState::Start => true,
        SelectionState::AwaitingFamilies { device } => {
            &&& device < devices.len()
            &&& none_before(devices, device as int, 0)
        },
        SelectionState::AwaitingSupport { device, family, graphics } => {
            &&& device < devices.len()
            &&& graphics@ == graphics_of(devices[device as int])
            &&& family < graphics@.len()
            &&& graphics@[family as int]
            &&& none_before(devices, device as int, family as int)
        },
        SelectionState::Finished => true,
    }
}

/// The event answers what the state has asked, and truly so of the devices.
pub open spec fn answers(
    devices: Seq<Seq<QueueFamilySupport>>,
    state: SelectionState,
    event: SelectionEvent,
) -> bool {
    match (state, event) {
        (SelectionState::Start, SelectionEvent::Started) => true,
        (SelectionState::AwaitingFamilies { device }, SelectionEvent::Families { families }) => {
            device < devices.len() ==> graphics_flags(families@) == graphics_of(
                devices[device as int],
            )
        },
        (
            SelectionState::AwaitingSupport { device, family, .. },
            SelectionEvent::Support { supported },
        ) => {
            device < devices.len() && family < devices[device as int].len() ==> supported
                == devices[device as int][family as int].present
        },
        _ => false,
    }
}

/// A choice that is told the truth stays on track, and ends as the choice
/// among fully known devices does: a step taken from a fitting state on a
/// true answer leads to a fitting state; what it selects is the first
/// suitable family of the first device that has one; and it gives up only
/// where no family of any device is suitable.
pub proof fn lemma_selection_step(
    devices: Seq<Seq<QueueFamilySupport>>,
    state: SelectionState,
    event: SelectionEvent,
    next: SelectionState,
    action: SelectionAction,
)
    requires
        devices.len() <= usize::MAX,
        on_track(devices, state),
        answers(devices, state, event),
        selection_transition(devices.len() as usize, state, event, next, action),
    ensures
        on_track(devices, next),
        action != SelectionAction::UnexpectedEvent,
        action matches SelectionAction::Selected { device, family } ==> first_suitable(
            devices,
            device as int,
            family as int,
        ),
        action is NoneSuitable ==> none_suitable(devices),
        action matches SelectionAction::QueryFamilies { device } ==> next == (
            SelectionState::AwaitingFamilies { device }
        ),
        action matches SelectionAction::QuerySupport { device, family } ==> (next matches SelectionState::AwaitingSupport {
            device: d,
            family: f,
            ..
        } && d == device && f == family),
{
    match (state, event) {
        (SelectionState::Start, SelectionEvent::Started) => {},
        (SelectionState::AwaitingFamilies { device }, SelectionEvent::Families { families }) => {
            lemma_goes_on(devices, device, graphics_flags(families@), 0, next, action);
        },
        (
            SelectionState::AwaitingSupport { device, family, graphics },
            SelectionEvent::Support { supported },
        ) => {
            assert(devices[device as int][family as int].graphics == graphics@[family as int]);
            if !supported {
                assert forall|d: int, f: int|
                    0 <= d < devices.len() && 0 <= f < devices[d].len() && (d < device || (d
                        == device && f < family + 1)) implies !suitable(
                    #[trigger] devices[d][f],
                ) by {
                    if d == device && f == family {
                    }
                }
                lemma_goes_on(devices, device, graphics@, family + 1, next, action);
            }
        },
        _ => {},
    }
}

proof fn lemma_goes_on(
    devices: Seq<Seq<QueueFamilySupport>>,
    device: usize,
    graphics: Seq<bool>,
    from: int,
    next: SelectionState,
    action: SelectionAction,
)
    requires
        devices.len() <= usize::MAX,
        device < devices.len(),
        0 <= from,
        graphics == graphics_of(devices[device as int]),
        none_before(devices, device as int, from),
        goes_on(devices.len() as usize, device, graphics, from, next, action),
    ensures
        on_track(devices, next),
        action is QuerySupport || action is QueryFamilies || action is NoneSuitable,
        action is NoneSuitable ==> none_suitable(devices),
        action matches SelectionAction::QueryFamilies { device: d } ==> next == (
            SelectionState::AwaitingFamilies { device: d }
        ),
        action matches SelectionAction::QuerySupport { device: d, family: f } ==> (next matches SelectionState::AwaitingSupport {
            device: nd,
            family: nf,
            ..
        } && nd == d && nf == f),
{
    lemma_next_graphics(graphics, from);
    let families = devices[device as int];
    match next_graphics(graphics, from) {
        Some(k) => {
            assert forall|d: int, f: int|
                0 <= d < devices.len() && 0 <= f < devices[d].len() && (d < device || (d == device
                    && f < k)) implies !suitable(#[trigger] devices[d][f]) by {
                if d == device && f >= from {
                    assert(graphics[f] == families[f].graphics);
                }
            }
        },
        None => {
            assert forall|d: int, f: int|
                0 <= d < devices.len() && 0 <= f < devices[d].len() && d < device + 1
                implies !suitable(#[trigger] devices[d][f]) by {
                if d == device && f >= from {
                    assert(graphics[f] == families[f].graphics);
                }
            }
        },
    }
}

fn find_graphics(graphics: &Vec<bool>, from: usize) -> (found: Option<usize>)
    ensures
        found matches Some(k) ==> next_graphics(graphics@, from as int) == Some(k as int),
        found is None ==> next_graphics(graphics@, from as int) is None,
{
    let mut i: usize = from;
    while i < graphics.len()
        invariant
            from <= i,
            next_graphics(graphics@, from as int) == next_graphics(graphics@, i as int),
        decreases graphics.len() - i,
    {
        if graphics[i] {
            return Some(i);
        }
        i = i + 1;
    }
    None
}

fn go_on(device_count: usize, device: usize, graphics: Vec<bool>, from: usize) -> (step: (
    SelectionState,
    SelectionAction,
))
    ensures
        goes_on(device_count, device, graphics@, from as int, step.0, step.1),
{
    match find_graphics(&graphics, from) {
        Some(family) => (
            SelectionState::AwaitingSupport { device, family, graphics },
            SelectionAction::QuerySupport { device, family },
        ),
        None => {
            if device < device_count && device + 1 < device_count {
                (
                    SelectionState::AwaitingFamilies { device: device + 1 },
                    SelectionAction::QueryFamilies { device: device + 1 },
                )
            } else {
                (SelectionState::Finished, SelectionAction::NoneSuitable)
            }
        },
    }
}

/// Takes one step of the choice: judges what the outside answered and says
/// what it is to ask next.
pub fn selection_step(device_count: usize, state: SelectionState, event: SelectionEvent) -> (step: (
    SelectionState,
    SelectionAction,
))
    ensures
        selection_transition(device_count, state, event, step.0, step.1),
{
    match (state, event) {
        (SelectionState::Start, SelectionEvent::Started) => {
            if device_count == 0 {
                (SelectionState::Finished, SelectionAction::NoneSuitable)
            } else {
                (
                    SelectionState::AwaitingFamilies { device: 0 },
                    SelectionAction::QueryFamilies { device: 0 },
                )
            }
        },
        (SelectionState::AwaitingFamilies { device }, SelectionEvent::Families { families }) => {
            let mut graphics: Vec<bool> = Vec::new();
            let mut i: usize = 0;
            while i < families.len()
                invariant
                    i <= families.len(),
                    graphics@ == graphics_flags(families@.take(i as int)),
                decreases families.len() - i,
            {
                graphics.push(families[i].graphics());
                i = i + 1;
                assert(graphics@ =~= graphics_flags(families@.take(i as int)));
            }
            assert(families@.take(i as int) =~= families@);
            go_on(device_count, device, graphics, 0)
        },
        (
            SelectionState::AwaitingSupport { device, family, graphics },
            SelectionEvent::Support { supported },
        ) => {
            if supported {
                (SelectionState::Finished, SelectionAction::Selected { device, family })
            } else if family < graphics.len() {
                go_on(device_count, device, graphics, family + 1)
            } else {
                let end = graphics.len();
                assert(next_graphics(graphics@, end as int) is None);
                assert(next_graphics(graphics@, family + 1) is None);
                go_on(device_count, device, graphics, end)
            }
        },
        _ => (SelectionState::Finished, SelectionAction::UnexpectedEvent),
    }
}

} // verus!
