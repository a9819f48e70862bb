//! The modal-input broker.
//!
//! A background task that needs free-form user input (a typed node
//! identifier, say) opens a modal request and then awaits its one-shot
//! result channel; the frame loop keeps rendering, feeding each frame's
//! input into the pending request. On a commit the typed value is pushed
//! into the channel exactly once and the request resolves; a dismissed
//! dialog resolves as canceled, and the awaiting task aborts without side
//! effects. The dialog's text box is auto-focused exactly once, on the
//! first frame after the request opens.

use vstd::prelude::*;

use crate::channel::OneShotChannel;
use crate::channel::OneShotRecv;
use crate::channel::OneShotState;

verus! {

/// Where a modal request stands.
#[derive(Clone, Copy, Debug, PartialEq, Eq, Structural)]
pub enum ModalState {
    /// No dialog is pending; the frame loop renders nothing.
    Idle,
    /// A dialog is rendered every frame, collecting input.
    AwaitingInput,
    /// The value (or the cancellation) is in the one-shot channel.
    Resolved,
}

/// What the dialog's render callback saw this frame.
#[derive(Clone, Debug, PartialEq)]
pub enum ModalInput {
    /// Ordinary keystrokes: the text box now holds this text.
    Edit(Vec<u8>),
    /// The distinguished commit action (the enter key).
    Commit,
    /// The dialog was dismissed or its window closed.
    Cancel,
    /// Nothing relevant happened this frame.
    NoInput,
}

/// The broker for one modal request: the collected text, the one-shot
/// result channel the awaiting task reads, and the one-time focus flag.
pub struct ModalBroker {
    pub state: ModalState,
    pub text: Vec<u8>,
    pub needs_focus: bool,
    pub result: OneShotChannel<Vec<u8>>,
}

impl ModalBroker {
    /// The broker's states and its channel move together: while input is
    /// awaited nothing was sent, and once resolved the channel holds the
    /// value, the cancellation, or was already read.
    pub open spec fn wf(&self) -> bool {
        match self.state {
            ModalState::Idle => true,
            ModalState::AwaitingInput => self.result@ is Empty,
            ModalState::Resolved => !(self.result@ is Empty),
        }
    }

    /// A broker with no request pending.
    pub fn new() -> (b: ModalBroker)
        ensures
            b.wf(),
            b.state is Idle,
    {
        ModalBroker {
            state: ModalState::Idle,
            text: Vec::new(),
            needs_focus: false,
            result: OneShotChannel::new(),
        }
    }

    /// Open a request: the dialog starts from this text, will be focused on
    /// its first frame, and a fresh one-shot channel will carry the result.
    pub fn open(&mut self, initial_text: Vec<u8>)
        requires
            old(self).wf(),
            old(self).state is Idle,
        ensures
            final(self).wf(),
            final(self).state is AwaitingInput,
            final(self).text == initial_text,
            final(self).needs_focus,
            final(self).result@ is Empty,
    {
        self.state = ModalState::AwaitingInput;
        self.text = initial_text;
        self.needs_focus = true;
        self.result = OneShotChannel::new();
    }

    /// Feed one frame's input into the pending dialog. Returns whether the
    /// text box must request focus, which happens exactly on the first
    /// frame. An edit replaces the text; a commit sends the text through
    /// the one-shot channel and resolves; a dismissal cancels and resolves.
    pub fn frame_input(&mut self, input: ModalInput) -> (focus: bool)
        requires
            old(self).wf(),
            old(self).state is AwaitingInput,
        ensures
            final(self).wf(),
            focus == old(self).needs_focus,
            !final(self).needs_focus,
            match input {
                ModalInput::Edit(t) => final(self).state is AwaitingInput && final(self).text == t
                    && final(self).result@ is Empty,
                ModalInput::Commit => final(self).state is Resolved && final(self).result@
                    == OneShotState::Sent(old(self).text),
                ModalInput::Cancel => {
                    &&& final(self).state is Resolved
                    &&& final(self).result@ is Canceled
                },
                ModalInput::NoInput => {
                    &&& final(self).state is AwaitingInput
                    &&& final(self).text == old(self).text
                    &&& final(self).result@ is Empty
                },
            },
    {
        let focus = self.needs_focus;
        self.needs_focus = false;
        match input {
            ModalInput::Edit(t) => {
                self.text = t;
            },
            ModalInput::Commit => {
                let mut committed = Vec::new();
                core::mem::swap(&mut self.text, &mut committed);
                self.result.send(committed);
                self.state = ModalState::Resolved;
            },
            ModalInput::Cancel => {
                self.result.cancel();
                self.state = ModalState::Resolved;
            },
            ModalInput::NoInput => (),
        }
        focus
    }

    /// The awaiting task's non-blocking read of the result: pending while
    /// the dialog is still up, then the committed value exactly once, or
    /// the cancellation.
    pub fn poll_result(&mut self) -> (r: OneShotRecv<Vec<u8>>)
        requires
            old(self).wf(),
            !(old(self).result@ is Consumed),
        ensures
            final(self).wf(),
            final(self).state == old(self).state,
            final(self).text == old(self).text,
            final(self).needs_focus == old(self).needs_focus,
            match old(self).result@ {
                OneShotState::Empty => r is Pending && final(self).result@ is Empty,
                OneShotState::Sent(v) => {
                    &&& r == OneShotRecv::<Vec<u8>>::Value(v)
                    &&& final(self).result@ is Consumed
                },
                OneShotState::Canceled => r is Canceled && final(self).result@ is Canceled,
                OneShotState::Consumed => false,
            },
    {
        self.result.try_recv()
    }

    /// Return a resolved broker to idle, ready for the next request.
    pub fn reset(&mut self)
        requires
            old(self).wf(),
            old(self).state is Resolved,
        ensures
            final(self).wf(),
            final(self).state is Idle,
    {
        self.state = ModalState::Idle;
    }
}

} // verus!
