//! The platform service of native applications.

use crate::operation::{Action, ActionView, Goal, Operation, Stage};
use crate::platform::PlatformService;
use bytes::Bytes;
use vstd::prelude::*;
use vstd::string::StringExecFns;

verus! {

/// The `User-Agent` under which every request of the native platform goes out.
pub const USER_AGENT: &'static str = "galileo/0.1";

/// Platform service for native applications.
///
/// It is set up once, with [`USER_AGENT`] as its identity, and is not changed
/// afterwards.
#[derive(Debug)]
pub struct NativePlatformService {
    user_agent: String,
}

impl NativePlatformService {
    /// Every service identifies itself as [`USER_AGENT`].
    #[verifier::type_invariant]
    spec fn identifies_as_user_agent(self) -> bool {
        self.user_agent@ == USER_AGENT@
    }

    /// The `User-Agent` of this service's requests, which is [`USER_AGENT`].
    pub fn user_agent(&self) -> (agent: &str)
        ensures
            agent@ == self.agent(),
            agent@ == USER_AGENT@,
    {
        proof {
            use_type_invariant(self);
        }
        self.user_agent.as_str()
    }

    /// Starts a fetch of `url` towards `goal`: returns the operation and its
    /// first action, a GET of `url` under [`USER_AGENT`].
    fn load_from_web(&self, url: &str, goal: Goal) -> (started: (Operation, Action))
        ensures
            started.0@ == (Stage::AwaitingResponse { url: url@, goal }),
            started.1@ == (ActionView::Get { url: url@, user_agent: self.agent() }),
            started.1@ == (ActionView::Get { url: url@, user_agent: USER_AGENT@ }),
    {
        proof {
            use_type_invariant(self);
        }
        let operation = Operation::awaiting_response(String::from_str(url), goal);
        let first = Action::Get {
            url: String::from_str(url),
            user_agent: self.user_agent.clone(),
        };
        (operation, first)
    }
}

impl PlatformService for NativePlatformService {
    closed spec fn agent(&self) -> Seq<char> {
        self.user_agent@
    }

    /// A new service, which identifies itself as [`USER_AGENT`]. Nothing can
    /// keep this from succeeding.
    fn new() -> (service: Self)
        ensures
            service.agent() == USER_AGENT@,
    {
        NativePlatformService { user_agent: String::from_str(USER_AGENT) }
    }

    /// Starts loading the image at `url`, with a GET under [`USER_AGENT`].
    fn load_image_url(&self, url: &str) -> (started: (Operation, Action))
        ensures
            started.1@ == (ActionView::Get { url: url@, user_agent: USER_AGENT@ }),
    {
        self.load_from_web(url, Goal::Image)
    }

    /// Starts loading the bytes at `url`, with a GET under [`USER_AGENT`].
    fn load_bytes_from_url(&self, url: &str) -> (started: (Operation, Action))
        ensures
            started.1@ == (ActionView::Get { url: url@, user_agent: USER_AGENT@ }),
    {
        self.load_from_web(url, Goal::Bytes)
    }

    /// Starts decoding `image_data`: no request is made, and the decoder
    /// gets `image_data` itself.
    fn decode_image(&self, image_data: Bytes) -> (started: (Operation, Action)) {
        (Operation::awaiting_decode(), Action::Decode(image_data))
    }
}

impl Clone for NativePlatformService {
    /// A second handle on the same service.
    fn clone(&self) -> (service: Self)
        ensures
            service.agent() == self.agent(),
    {
        proof {
            use_type_invariant(self);
        }
        NativePlatformService { user_agent: self.user_agent.clone() }
    }
}

} // verus!
