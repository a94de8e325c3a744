use vstd::prelude::*;

verus! {

/// A registered callback. The notification bus invokes `on_event` once per
/// emitted event while the listener is registered. Nothing is assumed about
/// what a listener does; any state it keeps is behind interior mutability.
pub trait Listener<Event> {
    fn on_event(&self, event: &Event);
}

/// A component whose state changes are announced on a notification bus.
///
/// Registering a listener is not itself a state change: it leaves the
/// component's abstract state (its view) untouched.
pub trait Observable<Event: View, L: Listener<Event>>: View {
    fn observe(&mut self, observer: L)
        ensures
            final(self)@ == old(self)@,
    ;
}

/// A minimal synchronous notification bus: fans one event value out to every
/// registered listener, in registration order, on the caller's thread.
///
/// Its view is the sequence of (the mathematical models of) all events
/// emitted through it so far, which lets callers state exactly which events
/// an operation emits.
pub struct Observers<Event: View, L: Listener<Event>> {
    listeners: Vec<L>,
    emitted: Ghost<Seq<<Event as View>::V>>,
}

impl<Event: View, L: Listener<Event>> View for Observers<Event, L> {
    type V = Seq<<Event as View>::V>;

    closed spec fn view(&self) -> Seq<<Event as View>::V> {
        self.emitted@
    }
}

impl<Event: View, L: Listener<Event>> Default for Observers<Event, L> {
    /// A fresh bus has no listeners and has emitted nothing.
    fn default() -> (r: Self)
        ensures
            r@ == Seq::<<Event as View>::V>::empty(),
            r.listeners_model() == Seq::<L>::empty(),
    {
        Observers { listeners: Vec::new(), emitted: Ghost(Seq::empty()) }
    }
}

impl<Event: View, L: Listener<Event>> Observers<Event, L> {
    /// The registered listeners, in registration order.
    pub closed spec fn listeners_model(&self) -> Seq<L> {
        self.listeners@
    }

    /// How many listeners are registered.
    pub open spec fn listener_count(&self) -> nat {
        self.listeners_model().len()
    }

    /// Invokes every registered listener once with `event`, in the order the
    /// listeners were registered, and records the event as emitted. Listeners
    /// are not isolated from each other: a listener that faults propagates
    /// that fault to the caller.
    pub fn notify(&mut self, event: &Event)
        ensures
            final(self)@ == old(self)@.push(event@),
            final(self).listeners_model() == old(self).listeners_model(),
    {
        proof {
            self.emitted@ = self.emitted@.push(event@);
        }
        let n = self.listeners.len();
        let mut i: usize = 0;
        while i < n
            invariant
                n == self.listeners.len(),
                i <= n,
            decreases n - i,
        {
            self.listeners[i].on_event(event);
            i = i + 1;
        }
    }
}

impl<Event: View, L: Listener<Event>> Observable<Event, L> for Observers<Event, L> {
    /// Appends the listener after every earlier registration, all of which
    /// are kept; emits nothing.
    fn observe(&mut self, observer: L)
        ensures
            final(self).listeners_model() == old(self).listeners_model().push(observer),
            final(self).listener_count() == old(self).listener_count() + 1,
    {
        self.listeners.push(observer);
    }
}

} // verus!
