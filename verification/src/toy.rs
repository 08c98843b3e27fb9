//! The actuator side: which device to drive, and which commands are worth
//! sending to it.
//!
//! `ToyController` keeps what the decisions depend on: the device that was
//! chosen and the intensity that the device was last told. It decides; the
//! caller talks to the device and reports back what was delivered.

use vstd::prelude::*;
use vstd::string::*;
use crate::units::{clamp_to_unit, clamp_unit, FULL_SCALE};

verus! {

/// A change of intensity smaller than this, one hundredth of full scale,
/// is not worth a command.
pub const NEGLIGIBLE_CHANGE: i64 = 10_000;

/// The kinds of actuator a device may offer.
#[derive(Debug, Clone, Copy, PartialEq, Eq, Structural)]
pub enum ActuatorKind {
    Unknown,
    Vibrate,
    Rotate,
    Oscillate,
    Constrict,
    Inflate,
    Position,
}

/// What the choice of a device depends on.
#[derive(Debug, Clone, Copy, PartialEq, Eq, Structural)]
pub struct DeviceInfo {
    /// The index under which the server lists the device.
    pub index: u32,
    /// Whether one of its scalar actuators vibrates.
    pub vibrates: bool,
}

/// Why the actuator side could not do what was asked.
#[derive(Debug, Clone, Copy, PartialEq, Eq, Structural)]
pub enum ToyError {
    /// The server lists no device at all.
    NoDevicesFound,
    /// No listed device has the index that was asked for.
    DeviceIndexNotFound(u32),
    /// A command was asked for before a device was chosen.
    NoTargetDevice,
}

/// Whether one of `kinds` is `Vibrate`.
pub open spec fn has_vibrate(kinds: Seq<ActuatorKind>) -> bool {
    exists|i: int| 0 <= i < kinds.len() && kinds[i] == ActuatorKind::Vibrate
}

impl DeviceInfo {
    /// Describes a device by its index and its scalar actuators, if it
    /// takes scalar commands at all.
    pub fn describe(index: u32, scalar_actuators: &Option<Vec<ActuatorKind>>) -> (info: DeviceInfo)
        ensures
            info.index == index,
            info.vibrates == (scalar_actuators matches Some(kinds) && has_vibrate(kinds@)),
    {
        let mut vibrates = false;
        if let Some(kinds) = scalar_actuators {
            let mut i: usize = 0;
            while i < kinds.len() && !vibrates
                invariant
                    i <= kinds@.len(),
                    vibrates ==> has_vibrate(kinds@),
                    !vibrates ==> forall|j: int| 0 <= j < i ==> kinds@[j] != ActuatorKind::Vibrate,
                decreases kinds@.len() - i + (if vibrates { 0int } else { 1int }),
            {
                if kinds[i] == ActuatorKind::Vibrate {
                    vibrates = true;
                } else {
                    i += 1;
                }
            }
        }
        DeviceInfo { index, vibrates }
    }
}

/// Whether `at` is the first place in `devices` whose device has `index`.
pub open spec fn is_first_with_index(devices: Seq<DeviceInfo>, index: u32, at: int) -> bool {
    &&& 0 <= at < devices.len()
    &&& devices[at].index == index
    &&& forall|j: int| 0 <= j < at ==> devices[j].index != index
}

/// Whether `at` is the first place in `devices` whose device vibrates.
pub open spec fn is_first_vibrating(devices: Seq<DeviceInfo>, at: int) -> bool {
    &&& 0 <= at < devices.len()
    &&& devices[at].vibrates
    &&& forall|j: int| 0 <= j < at ==> !devices[j].vibrates
}

/// Whether `at` is the place of the device to drive. With an index asked
/// for, it is the first device that has it. With none asked for, it is the
/// first device that vibrates, or the very first device if none does.
pub open spec fn is_choice(devices: Seq<DeviceInfo>, wanted: Option<u32>, at: int) -> bool {
    match wanted {
        Some(index) => is_first_with_index(devices, index, at),
        None => {
            ||| is_first_vibrating(devices, at)
            ||| (at == 0 && devices.len() > 0 && forall|j: int|
                0 <= j < devices.len() ==> !devices[j].vibrates)
        },
    }
}

/// Why no device can be chosen, if none can.
pub open spec fn choice_error(devices: Seq<DeviceInfo>, wanted: Option<u32>) -> Option<ToyError> {
    if devices.len() == 0 {
        Some(ToyError::NoDevicesFound)
    } else {
        match wanted {
            Some(index) => if forall|j: int| 0 <= j < devices.len() ==> devices[j].index != index {
                Some(ToyError::DeviceIndexNotFound(index))
            } else {
                None
            },
            None => None,
        }
    }
}

/// Chooses the device to drive and returns its place in `devices`.
pub fn choose_device(devices: &Vec<DeviceInfo>, wanted: Option<u32>) -> (r: Result<usize, ToyError>)
    ensures
        match r {
            Ok(at) => choice_error(devices@, wanted) is None && is_choice(
                devices@,
                wanted,
                at as int,
            ),
            Err(e) => choice_error(devices@, wanted) == Some(e),
        },
{
    if devices.len() == 0 {
        return Err(ToyError::NoDevicesFound);
    }
    let mut i: usize = 0;
    match wanted {
        Some(index) => {
            while i < devices.len()
                invariant
                    wanted == Some(index),
                    0 < devices@.len(),
                    i <= devices@.len(),
                    forall|j: int| 0 <= j < i ==> devices@[j].index != index,
                decreases devices@.len() - i,
            {
                if devices[i].index == index {
                    return Ok(i);
                }
                i += 1;
            }
            Err(ToyError::DeviceIndexNotFound(index))
        },
        None => {
            while i < devices.len()
                invariant
                    wanted is None,
                    0 < devices@.len(),
                    i <= devices@.len(),
                    forall|j: int| 0 <= j < i ==> !devices@[j].vibrates,
                decreases devices@.len() - i,
            {
                if devices[i].vibrates {
                    return Ok(i);
                }
                i += 1;
            }
            Ok(0)
        },
    }
}

/// The choice of a device is unique: two places that both qualify are the
/// same place, and a device is chosen exactly when there is no error.
pub proof fn lemma_choice_is_unique(
    devices: Seq<DeviceInfo>,
    wanted: Option<u32>,
    first: int,
    second: int,
)
    requires
        is_choice(devices, wanted, first),
        is_choice(devices, wanted, second),
    ensures
        first == second,
        choice_error(devices, wanted) is None,
{
    if first < second {
        assert(0 <= first < second);
    }
    if second < first {
        assert(0 <= second < first);
    }
}

/// The place of the device to drive, where one can be chosen.
pub open spec fn chosen(devices: Seq<DeviceInfo>, wanted: Option<u32>) -> int {
    choose|at: int| is_choice(devices, wanted, at)
}

/// What a controller is: the index of the chosen device, if one was
/// chosen, and the intensity that the device was last told.
pub struct ToyState {
    pub target: Option<u32>,
    pub last_intensity: int,
}

/// What to do about a requested intensity.
#[derive(Debug, Clone, Copy, PartialEq, Eq, Structural)]
pub enum IntensityDecision {
    /// The change is negligible: send nothing.
    Skip,
    /// Send this intensity.
    Send(i64),
}

impl ToyState {
    /// The invariant of a controller: the last intensity is a fraction.
    pub open spec fn wf(self) -> bool {
        0 <= self.last_intensity <= FULL_SCALE
    }

    /// A controller that has chosen no device and sent nothing.
    pub open spec fn fresh() -> ToyState {
        ToyState { target: None, last_intensity: 0 }
    }

    /// The controller after it was shown the devices that the server
    /// lists: it holds the chosen device, or is unchanged where none can
    /// be chosen.
    pub open spec fn shown(self, devices: Seq<DeviceInfo>, wanted: Option<u32>) -> ToyState {
        if choice_error(devices, wanted) is None {
            ToyState { target: Some(devices[chosen(devices, wanted)].index), ..self }
        } else {
            self
        }
    }

    /// Whether `intensity` differs from the last intensity sent by less
    /// than the negligible change.
    pub open spec fn is_negligible(self, intensity: int) -> bool {
        self.last_intensity - NEGLIGIBLE_CHANGE < intensity < self.last_intensity
            + NEGLIGIBLE_CHANGE
    }

    /// The decision about a requested intensity: an error without a
    /// device, nothing to send for a negligible change, and otherwise the
    /// intensity confined to zero to full scale.
    pub open spec fn decision(self, intensity: int) -> Result<IntensityDecision, ToyError> {
        if self.target is None {
            Err(ToyError::NoTargetDevice)
        } else if self.is_negligible(intensity) {
            Ok(IntensityDecision::Skip)
        } else {
            Ok(IntensityDecision::Send(clamp_unit(intensity) as i64))
        }
    }
}

/// Decides which commands the actuator is sent.
pub struct ToyController {
    target_device: Option<u32>,
    last_intensity: i64,
}

impl View for ToyController {
    type V = ToyState;

    closed spec fn view(&self) -> ToyState {
        ToyState { target: self.target_device, last_intensity: self.last_intensity as int }
    }
}

impl ToyController {
    #[verifier::type_invariant]
    spec fn inv(self) -> bool {
        self@.wf()
    }

    /// A controller for a server that has just been connected to: no
    /// device is chosen and nothing was sent.
    pub fn new() -> (toy: ToyController)
        ensures
            toy@ == ToyState::fresh(),
            toy@.wf(),
    {
        ToyController { target_device: None, last_intensity: 0 }
    }

    /// The index of the chosen device, if one was chosen.
    pub fn target_device(&self) -> (target: Option<u32>)
        ensures
            target == self@.target,
    {
        self.target_device
    }

    /// The intensity that the device was last told.
    pub fn last_intensity(&self) -> (last: i64)
        ensures
            last as int == self@.last_intensity,
            self@.wf(),
    {
        proof {
            use_type_invariant(self);
        }
        self.last_intensity
    }

    /// Chooses the device to drive among those the server lists and
    /// returns its place in `devices`. When none can be chosen the
    /// controller is left as it was.
    pub fn find_device(&mut self, devices: &Vec<DeviceInfo>, device_index: Option<u32>) -> (r:
        Result<usize, ToyError>)
        ensures
            match r {
                Ok(at) => {
                    &&& choice_error(devices@, device_index) is None
                    &&& is_choice(devices@, device_index, at as int)
                    &&& at as int == chosen(devices@, device_index)
                },
                Err(e) => choice_error(devices@, device_index) == Some(e),
            },
            final(self)@ == old(self)@.shown(devices@, device_index),
            final(self)@.wf(),
    {
        proof {
            use_type_invariant(&*self);
        }
        match choose_device(devices, device_index) {
            Ok(at) => {
                proof {
                    lemma_choice_is_unique(
                        devices@,
                        device_index,
                        at as int,
                        chosen(devices@, device_index),
                    );
                }
                self.target_device = Some(devices[at].index);
                Ok(at)
            },
            Err(e) => Err(e),
        }
    }

    /// Decides what to do about a requested intensity. Nothing is recorded:
    /// report a delivered command with `intensity_sent`.
    pub fn set_intensity(&self, intensity: i64) -> (r: Result<IntensityDecision, ToyError>)
        ensures
            r == self@.decision(intensity as int),
            r matches Ok(IntensityDecision::Send(v)) ==> 0 <= v <= FULL_SCALE,
    {
        proof {
            use_type_invariant(self);
        }
        if self.target_device.is_none() {
            return Err(ToyError::NoTargetDevice);
        }
        if self.last_intensity - NEGLIGIBLE_CHANGE < intensity && intensity < self.last_intensity
            + NEGLIGIBLE_CHANGE {
            return Ok(IntensityDecision::Skip);
        }
        Ok(IntensityDecision::Send(clamp_to_unit(intensity)))
    }

    /// Records that the device was told `value`.
    pub fn intensity_sent(&mut self, value: i64)
        requires
            0 <= value <= FULL_SCALE,
        ensures
            final(self)@ == (ToyState { last_intensity: value as int, ..old(self)@ }),
            final(self)@.wf(),
    {
        self.last_intensity = value;
    }

    /// Whether stopping the output takes a command: it does once a device
    /// is chosen.
    pub fn stop(&self) -> (needed: bool)
        ensures
            needed == self@.target is Some,
    {
        self.target_device.is_some()
    }

    /// Records that the device was told to stop: the last intensity is
    /// zero again.
    pub fn stopped(&mut self)
        ensures
            final(self)@ == (ToyState { last_intensity: 0, ..old(self)@ }),
            final(self)@.wf(),
    {
        self.last_intensity = 0;
    }
}

/// As long as nothing is delivered, every request within the negligible
/// change of the last intensity sent is skipped, however many there are.
pub proof fn lemma_negligible_requests_send_nothing(state: ToyState, requests: Seq<int>)
    requires
        state.wf(),
        state.target is Some,
        forall|i: int| 0 <= i < requests.len() ==> state.is_negligible(#[trigger] requests[i]),
    ensures
        forall|i: int|
            0 <= i < requests.len() ==> state.decision(#[trigger] requests[i]) == Ok::<
                IntensityDecision,
                ToyError,
            >(IntensityDecision::Skip),
{
}

/// A request that is sent differs from the last intensity sent by at least
/// the negligible change, and right after it was delivered the same request
/// is skipped.
pub proof fn lemma_delivered_request_is_then_skipped(state: ToyState, intensity: int)
    requires
        state.wf(),
        state.target is Some,
        0 <= intensity <= FULL_SCALE,
        !state.is_negligible(intensity),
    ensures
        state.decision(intensity) == Ok::<IntensityDecision, ToyError>(
            IntensityDecision::Send(intensity as i64),
        ),
        (ToyState { last_intensity: intensity, ..state }).decision(intensity) == Ok::<
            IntensityDecision,
            ToyError,
        >(IntensityDecision::Skip),
{
}

impl ToyError {
    /// The reason shown to the user.
    pub fn message(&self) -> (text: String)
        ensures
            match *self {
                ToyError::NoDevicesFound => text@
                    == "No Buttplug devices found. Make sure your toy is on and paired in Intiface."@,
                ToyError::DeviceIndexNotFound(index) => exists|digits: String|
                    to_string_from_display_ensures::<u32>(&index, digits) && text@
                        == "Device index "@ + digits@ + " not found"@,
                ToyError::NoTargetDevice => text@ == "No target device"@,
            },
    {
        match self {
            ToyError::NoDevicesFound => {
                "No Buttplug devices found. Make sure your toy is on and paired in Intiface.".to_string()
            },
            ToyError::DeviceIndexNotFound(index) => {
                let digits = index.to_string();
                "Device index ".to_string().concat(digits.as_str()).concat(" not found")
            },
            ToyError::NoTargetDevice => "No target device".to_string(),
        }
    }
}

} // verus!
