use vstd::prelude::*;

use futures::channel::mpsc::{UnboundedReceiver, UnboundedSender};

use crate::lsp::lsp_message::LspMessage;

verus! {

/// The sending half of an unbounded `futures` channel.
#[verifier::external_type_specification]
#[verifier::external_body]
#[verifier::reject_recursive_types(T)]
pub struct ExUnboundedSender<T>(UnboundedSender<T>);

/// The receiving half of an unbounded `futures` channel.
#[verifier::external_type_specification]
#[verifier::external_body]
#[verifier::reject_recursive_types(T)]
pub struct ExUnboundedReceiver<T>(UnboundedReceiver<T>);

/// `Clone` for `UnboundedSender`: another sender to the same channel. Nothing
/// is claimed of the copy.
pub assume_specification<T>[ <UnboundedSender<T> as Clone>::clone ](
    sender: &UnboundedSender<T>,
) -> UnboundedSender<T>;

/// Receiver half of the server-to-editor push channel, drained by the editor
/// component, which forwards each message to the editor's LSP client.
pub type LspMessageRx = UnboundedReceiver<LspMessage>;

/// `futures::channel::mpsc::unbounded`: a new channel, sender and receiver
/// connected to each other. Nothing more is claimed of the two halves.
#[verifier::external_body]
fn channel_unbounded() -> (UnboundedSender<LspMessage>, UnboundedReceiver<LspMessage>) {
    futures::channel::mpsc::unbounded()
}

/// `UnboundedSender::unbounded_send`, reporting whether the message was
/// queued. Whether it is queued depends on whether the receiving half is
/// still alive, which is not visible here, so nothing is claimed of the
/// result.
#[verifier::external_body]
fn channel_send(sender: &UnboundedSender<LspMessage>, message: LspMessage) -> bool {
    sender.unbounded_send(message).is_ok()
}

/// Sender half of the server-to-editor push channel, handed to an
/// [`LspServerAsync`](crate::lsp::lsp_server_async::LspServerAsync) so it can
/// emit messages to the editor at any time. Cloneable, so the server can keep
/// one copy to push from and move others into worker callbacks.
#[derive(Clone)]
pub struct LspPusher {
    /// Sends pushed messages to the [`LspMessageRx`] held by the component.
    message_tx: UnboundedSender<LspMessage>,
}

impl LspPusher {
    /// Returns a new `LspPusher` and [`LspMessageRx`] pair connected by an
    /// unbounded channel. The pusher goes to the server; the receiver goes to
    /// the bridge, from which the component drains it.
    pub fn lsp_pusher_new() -> (Self, LspMessageRx) {
        let (message_tx, message_rx) = channel_unbounded();
        (LspPusher { message_tx }, message_rx)
    }

    /// Pushes `message` to the editor's LSP client.
    ///
    /// Returns `true` if the message was queued, or `false` if the receiving
    /// end is gone (the editor was torn down) -- in which case the server may
    /// stop pushing.
    pub fn lsp_message_push(&self, message: LspMessage) -> bool {
        channel_send(&self.message_tx, message)
    }
}

} // verus!
