//! What has come about so far in the conversation with one browser.

use vstd::prelude::*;

verus! {

/// Which of a client's connections are there. Everything in it comes about once and
/// stays.
#[derive(Debug, Clone, Copy, PartialEq, Eq, Structural)]
pub struct ClientContext {
    /// The peer connection with the browser.
    pub rtc_peer: bool,
    /// The track on which speech goes to the browser.
    pub local_track: bool,
    /// The track on which speech comes from the browser.
    pub have_remote_track: bool,
    /// The service has accepted the session.
    pub openai_connected: bool,
    /// The sending half of the service's web socket.
    pub openai_tx: bool,
}

impl ClientContext {
    /// A client that has only opened its web socket.
    pub open spec fn initial() -> ClientContext {
        ClientContext {
            rtc_peer: false,
            local_track: false,
            have_remote_track: false,
            openai_connected: false,
            openai_tx: false,
        }
    }

    /// The peer connection and the track to the browser come together, and a session
    /// is accepted only over an open web socket.
    pub open spec fn wf(self) -> bool {
        &&& self.rtc_peer == self.local_track
        &&& self.openai_connected ==> self.openai_tx
    }

    /// `later` still has everything that is there now.
    pub open spec fn grows_to(self, later: ClientContext) -> bool {
        &&& self.rtc_peer ==> later.rtc_peer
        &&& self.local_track ==> later.local_track
        &&& self.have_remote_track ==> later.have_remote_track
        &&& self.openai_connected ==> later.openai_connected
        &&& self.openai_tx ==> later.openai_tx
    }

    /// A client that has only opened its web socket.
    pub fn new() -> (context: ClientContext)
        ensures
            context == ClientContext::initial(),
            context.wf(),
            !context.rtc_peer,
            !context.local_track,
            !context.have_remote_track,
            !context.openai_connected,
            !context.openai_tx,
    {
        ClientContext {
            rtc_peer: false,
            local_track: false,
            have_remote_track: false,
            openai_connected: false,
            openai_tx: false,
        }
    }
}

} // verus!
