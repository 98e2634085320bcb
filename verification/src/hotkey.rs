//! The global hotkey listener: one binding, registered once, whose firings
//! wait in order until they are polled.
//!
//! The operating system's hook runs outside the library. It asks the system
//! to register the binding and reports the outcome, hands each firing to
//! [`HotkeyListener::deliver`], and the consumer polls with
//! [`HotkeyListener::try_receive`], which never waits.

use std::collections::VecDeque;
use vstd::prelude::*;

verus! {

/// The modifier keys held with a hotkey.
#[derive(Debug, Clone, Copy, PartialEq, Eq, Structural)]
pub struct Modifiers {
    pub control: bool,
    pub shift: bool,
    pub alt: bool,
    pub meta: bool,
}

/// A global shortcut: a set of modifiers and a key.
#[derive(Debug, Clone, Copy, PartialEq, Eq, Structural)]
pub struct HotkeyBinding {
    pub modifiers: Modifiers,
    pub key: char,
}

/// A notification that a binding fired.
#[derive(Debug, Clone, Copy, PartialEq, Eq, Structural)]
pub struct HotkeyEvent {
    /// The identifier of the binding that fired.
    pub binding: u32,
    /// When it fired, as the hook counts time.
    pub timestamp: u64,
}

/// Why a registration was not made.
#[derive(Debug, PartialEq, Eq)]
pub enum HotkeyError {
    /// The listener holds a binding already.
    AlreadyRegistered,
    /// The operating system refused the binding; the text is its reason.
    Refused(String),
}

/// The mathematical value of a [`HotkeyError`].
pub enum HotkeyErrorView {
    AlreadyRegistered,
    Refused(Seq<char>),
}

impl View for HotkeyError {
    type V = HotkeyErrorView;

    open spec fn view(&self) -> HotkeyErrorView {
        match self {
            HotkeyError::AlreadyRegistered => HotkeyErrorView::AlreadyRegistered,
            HotkeyError::Refused(reason) => HotkeyErrorView::Refused(reason@),
        }
    }
}

/// The message that describes a [`HotkeyError`].
pub open spec fn hotkey_error_text(error: HotkeyErrorView) -> Seq<char> {
    match error {
        HotkeyErrorView::AlreadyRegistered => "a global hotkey is already registered"@,
        HotkeyErrorView::Refused(reason) => reason,
    }
}

impl HotkeyError {
    /// A human-readable description of the error.
    pub fn message(&self) -> (text: String)
        ensures
            text@ == hotkey_error_text(self@),
    {
        match self {
            HotkeyError::AlreadyRegistered => "a global hotkey is already registered".to_owned(),
            HotkeyError::Refused(reason) => reason.clone(),
        }
    }
}

/// The modifiers as a number: control 1, shift 2, alt 4, meta 8.
pub open spec fn modifier_bits(modifiers: Modifiers) -> nat {
    (if modifiers.control { 1nat } else { 0nat })
        + (if modifiers.shift { 2nat } else { 0nat })
        + (if modifiers.alt { 4nat } else { 0nat })
        + (if modifiers.meta { 8nat } else { 0nat })
}

/// The identifier of a binding: its modifiers above the 21 bits that hold
/// the key's code point.
pub open spec fn binding_id(binding: HotkeyBinding) -> nat {
    modifier_bits(binding.modifiers) * 0x20_0000 + binding.key as nat
}

/// Two bindings with one identifier are one binding.
pub proof fn lemma_binding_id_injective(a: HotkeyBinding, b: HotkeyBinding)
    requires
        binding_id(a) == binding_id(b),
    ensures
        a == b,
{
    assert(a.key as nat == b.key as nat);
    assert(modifier_bits(a.modifiers) == modifier_bits(b.modifiers));
}

impl HotkeyBinding {
    /// The application's one binding: Control and the letter K.
    pub fn control_k() -> (binding: HotkeyBinding)
        ensures
            binding == (HotkeyBinding {
                modifiers: Modifiers { control: true, shift: false, alt: false, meta: false },
                key: 'K',
            }),
    {
        HotkeyBinding {
            modifiers: Modifiers { control: true, shift: false, alt: false, meta: false },
            key: 'K',
        }
    }

    /// The identifier that events of this binding carry.
    pub fn id(&self) -> (id: u32)
        ensures
            id == binding_id(*self),
    {
        let mut bits: u32 = 0;
        if self.modifiers.control {
            bits += 1;
        }
        if self.modifiers.shift {
            bits += 2;
        }
        if self.modifiers.alt {
            bits += 4;
        }
        if self.modifiers.meta {
            bits += 8;
        }
        bits * 0x20_0000 + self.key as u32
    }
}

/// What a listener holds: its binding once registered, and the events that
/// were delivered and not yet received, oldest first.
pub struct ListenerView {
    pub binding: Option<HotkeyBinding>,
    pub pending: Seq<HotkeyEvent>,
}

/// Whether a listener takes an event: it is registered and the event is of
/// its binding.
pub open spec fn accepts(listener: ListenerView, event: HotkeyEvent) -> bool {
    listener.binding matches Some(binding) && event.binding == binding_id(binding)
}

/// The listener after a registration was attempted with this outcome of the
/// operating system's: it holds the binding only if it held none and the
/// system granted it.
pub open spec fn registered(listener: ListenerView, binding: HotkeyBinding, granted: bool)
    -> ListenerView {
    if listener.binding is None && granted {
        ListenerView { binding: Some(binding), pending: listener.pending }
    } else {
        listener
    }
}

/// The listener after an event was delivered: an event that it takes waits
/// behind those that wait already; any other is dropped.
pub open spec fn delivered(listener: ListenerView, event: HotkeyEvent) -> ListenerView {
    if accepts(listener, event) {
        ListenerView { binding: listener.binding, pending: listener.pending.push(event) }
    } else {
        listener
    }
}

/// What a poll returns: the oldest event that waits, if any does.
pub open spec fn next_event(listener: ListenerView) -> Option<HotkeyEvent> {
    if listener.pending.len() > 0 {
        Some(listener.pending[0])
    } else {
        None
    }
}

/// The listener after a poll: the oldest event has left.
pub open spec fn polled(listener: ListenerView) -> ListenerView {
    if listener.pending.len() > 0 {
        ListenerView { binding: listener.binding, pending: listener.pending.skip(1) }
    } else {
        listener
    }
}

/// The listener for the global hotkey.
pub struct HotkeyListener {
    binding: Option<HotkeyBinding>,
    pending: VecDeque<HotkeyEvent>,
}

impl View for HotkeyListener {
    type V = ListenerView;

    closed spec fn view(&self) -> ListenerView {
        ListenerView { binding: self.binding, pending: self.pending@ }
    }
}

impl HotkeyListener {
    /// A listener that holds no binding and no event.
    pub fn new() -> (listener: HotkeyListener)
        ensures
            listener@ == (ListenerView { binding: None, pending: Seq::empty() }),
    {
        HotkeyListener { binding: None, pending: VecDeque::new() }
    }

    /// The binding, once registered.
    pub fn binding(&self) -> (binding: Option<HotkeyBinding>)
        ensures
            binding == self@.binding,
    {
        self.binding
    }

    /// Whether a binding is registered.
    pub fn is_registered(&self) -> (held: bool)
        ensures
            held == self@.binding is Some,
    {
        self.binding.is_some()
    }

    /// How many events wait to be received.
    pub fn pending_len(&self) -> (count: usize)
        ensures
            count == self@.pending.len(),
    {
        self.pending.len()
    }

    /// Records the outcome of asking the operating system for `binding`:
    /// `outcome` is `Ok` where the system granted it, else its reason.
    ///
    /// A listener that holds a binding refuses a second one and keeps the
    /// first. A refusal by the system leaves the listener unregistered; it is
    /// reported and not retried.
    pub fn register(&mut self, binding: HotkeyBinding, outcome: Result<(), String>) -> (done:
        Result<(), HotkeyError>)
        ensures
            final(self)@ == registered(old(self)@, binding, outcome is Ok),
            match done {
                Ok(_) => old(self)@.binding is None && outcome is Ok,
                Err(error) => if old(self)@.binding is Some {
                    error@ == HotkeyErrorView::AlreadyRegistered
                } else {
                    outcome matches Err(reason) && error@ == HotkeyErrorView::Refused(reason@)
                },
            },
    {
        if self.binding.is_some() {
            return Err(HotkeyError::AlreadyRegistered);
        }
        match outcome {
            Ok(()) => {
                self.binding = Some(binding);
                Ok(())
            },
            Err(reason) => Err(HotkeyError::Refused(reason)),
        }
    }

    /// Takes an event from the hook. Returns whether the event was queued:
    /// it is when the listener is registered and the event is of its binding.
    pub fn deliver(&mut self, event: HotkeyEvent) -> (queued: bool)
        ensures
            queued == accepts(old(self)@, event),
            final(self)@ == delivered(old(self)@, event),
    {
        match self.binding {
            Some(binding) => {
                if event.binding == binding.id() {
                    self.pending.push_back(event);
                    true
                } else {
                    false
                }
            },
            None => false,
        }
    }

    /// Receives the oldest event that waits, without waiting: `None` where
    /// none is pending. Each event is received once.
    pub fn try_receive(&mut self) -> (event: Option<HotkeyEvent>)
        ensures
            event == next_event(old(self)@),
            final(self)@ == polled(old(self)@),
    {
        let event = self.pending.pop_front();
        proof {
            if old(self)@.pending.len() > 0 {
                assert(self.pending@ =~= old(self)@.pending.skip(1));
            }
        }
        event
    }
}

/// A firing that is polled at once yields exactly that event, and then
/// nothing: on a listener with nothing pending, a delivered event is what
/// the next poll returns, and the poll after it returns none.
pub proof fn lemma_fire_then_poll(listener: ListenerView, event: HotkeyEvent)
    requires
        listener.pending.len() == 0,
        accepts(listener, event),
    ensures
        next_event(delivered(listener, event)) == Some(event),
        next_event(polled(delivered(listener, event))) is None,
        polled(delivered(listener, event)) == listener,
{
    assert(listener.pending.push(event).skip(1) =~= listener.pending);
}

/// A poll with nothing pending yields no event and changes nothing.
pub proof fn lemma_poll_without_firing(listener: ListenerView)
    requires
        listener.pending.len() == 0,
    ensures
        next_event(listener) is None,
        polled(listener) == listener,
{
}

/// Two polls with one firing between them yield the event once: the first
/// poll finds nothing, the second returns the event, and a third would find
/// nothing again.
pub proof fn lemma_poll_fire_poll(listener: ListenerView, event: HotkeyEvent)
    requires
        listener.pending.len() == 0,
        accepts(listener, event),
    ensures
        next_event(listener) is None,
        next_event(delivered(polled(listener), event)) == Some(event),
        next_event(polled(delivered(polled(listener), event))) is None,
{
    lemma_fire_then_poll(listener, event);
}

/// Events are received in the order in which they were delivered: an event
/// delivered behind others is returned only after them, and the order of
/// delivering and polling does not matter while something waits.
pub proof fn lemma_first_in_first_out(listener: ListenerView, event: HotkeyEvent)
    requires
        listener.pending.len() > 0,
    ensures
        next_event(delivered(listener, event)) == next_event(listener),
        polled(delivered(listener, event)) == delivered(polled(listener), event),
{
    if accepts(listener, event) {
        assert(listener.pending.push(event).skip(1) =~= listener.pending.skip(1).push(event));
    }
}

/// Nothing is delivered before a binding is registered.
pub proof fn lemma_unregistered_drops(listener: ListenerView, event: HotkeyEvent)
    requires
        listener.binding is None,
    ensures
        delivered(listener, event) == listener,
{
}

} // verus!
