use vstd::prelude::*;
use crate::directory::Device;
use crate::event::{outcome_event, outcome_event_of, LogEvent, LogEventView, SendOutcome};

verus! {

/// The fixed command that switches a light off.
pub open spec fn off_command() -> Seq<char> {
    "{\"method\":\"setPilot\",\"params\":{\"state\":false}}"@
}

/// The command that switches a light off, as it is sent.
pub fn off_payload() -> (payload: &'static str)
    ensures
        payload@ == off_command(),
{
    "{\"method\":\"setPilot\",\"params\":{\"state\":false}}"
}

/// Walks the devices in order. For each one it names the device to command,
/// then takes the outcome of the attempt and gives the event to log; a failed
/// attempt does not stop the walk.
pub struct Controller {
    devices: Vec<Device>,
    next: usize,
    trail: Ghost<Seq<LogEventView>>,
}

impl Controller {
    /// The devices, in the order in which they are handled.
    pub closed spec fn devices(&self) -> Seq<Device> {
        self.devices@
    }

    /// How many devices have been handled.
    pub closed spec fn handled(&self) -> nat {
        self.next as nat
    }

    /// The events given out so far, oldest first.
    pub closed spec fn trail(&self) -> Seq<LogEventView> {
        self.trail@
    }

    /// Every handled device has left exactly one event, in order and under
    /// its own name, and no other event exists.
    pub closed spec fn wf(&self) -> bool {
        &&& self.next <= self.devices.len()
        &&& self.trail@.len() == self.next
        &&& forall|i: int|
            0 <= i < self.next ==> (#[trigger] self.trail@[i]).machine == self.devices@[i]@.name
    }

    /// Whether every device has been handled.
    pub open spec fn done(&self) -> bool {
        self.handled() == self.devices().len()
    }

    /// A controller for `devices`, none of them handled yet.
    pub fn new(devices: Vec<Device>) -> (controller: Controller)
        ensures
            controller.wf(),
            controller.devices() == devices@,
            controller.handled() == 0,
            controller.trail() == Seq::<LogEventView>::empty(),
    {
        Controller { devices, next: 0, trail: Ghost(Seq::empty()) }
    }

    /// Whether every device has been handled.
    pub fn is_done(&self) -> (done: bool)
        requires
            self.wf(),
        ensures
            done == self.done(),
    {
        self.next >= self.devices.len()
    }

    /// How many devices there are.
    pub fn device_count(&self) -> (count: usize)
        ensures
            count == self.devices().len(),
    {
        self.devices.len()
    }

    /// How many devices have been handled.
    pub fn handled_count(&self) -> (count: usize)
        ensures
            count == self.handled(),
    {
        self.next
    }

    /// The device to command next; `None` once all are handled.
    pub fn current(&self) -> (device: Option<&Device>)
        requires
            self.wf(),
        ensures
            self.done() <==> device is None,
            device is Some ==> *device->Some_0 == self.devices()[self.handled() as int],
    {
        if self.next < self.devices.len() {
            Some(&self.devices[self.next])
        } else {
            None
        }
    }

    /// Takes the outcome of the attempt on the current device, gives the one
    /// event to log for it and moves on to the next device. Once all devices
    /// are handled it gives `None` and changes nothing.
    pub fn record(&mut self, outcome: &SendOutcome) -> (event: Option<LogEvent>)
        requires
            old(self).wf(),
        ensures
            final(self).wf(),
            final(self).devices() == old(self).devices(),
            old(self).done() ==> event is None && final(self).handled() == old(self).handled()
                && final(self).trail() == old(self).trail(),
            !old(self).done() ==> event is Some && final(self).handled() == old(self).handled() + 1
                && event->Some_0@ == outcome_event_of(
                old(self).devices()[old(self).handled() as int]@,
                *outcome,
            ) && final(self).trail() == old(self).trail().push(event->Some_0@),
    {
        if self.next < self.devices.len() {
            let event = outcome_event(&self.devices[self.next], outcome);
            proof {
                self.trail@ = self.trail@.push(event@);
            }
            self.next = self.next + 1;
            Some(event)
        } else {
            None
        }
    }

    /// At every point of the walk there is one event per handled device, each
    /// under its device's name; so a finished walk over N devices has given
    /// out exactly N events, whatever the outcomes were.
    pub proof fn lemma_one_event_per_device(&self)
        requires
            self.wf(),
        ensures
            self.trail().len() == self.handled(),
            self.handled() <= self.devices().len(),
            forall|i: int|
                0 <= i < self.handled() ==> (#[trigger] self.trail()[i]).machine
                    == self.devices()[i]@.name,
            self.done() ==> self.trail().len() == self.devices().len(),
    {
    }
}

} // verus!
