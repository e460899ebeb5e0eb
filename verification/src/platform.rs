//! The capability interface that every platform implements.

use crate::operation::{Action, ActionView, Goal, Operation, Stage};
use bytes::Bytes;
use vstd::prelude::*;

verus! {

/// What a platform offers for loading images: it starts the loads.
///
/// Each load then runs as an [`Operation`] of its own, which the platform's
/// driver carries through. Starting a load leaves the service as it was, so
/// any number of loads may be under way at once, and none of them shares
/// anything with another.
pub trait PlatformService: Sized {
    /// The `User-Agent` under which this platform's requests go out.
    spec fn agent(&self) -> Seq<char>;

    /// A new service.
    fn new() -> (service: Self);

    /// Starts loading the image at `url`: the body is fetched as
    /// [`PlatformService::load_bytes_from_url`] fetches it, and then decoded
    /// as [`PlatformService::decode_image`] decodes it.
    ///
    /// Returns the operation and its first action, a GET of `url`.
    fn load_image_url(&self, url: &str) -> (started: (Operation, Action))
        ensures
            started.0@ == (Stage::AwaitingResponse { url: url@, goal: Goal::Image }),
            started.1@ == (ActionView::Get { url: url@, user_agent: self.agent() }),
    ;

    /// Starts loading the bytes at `url`, with no decoding.
    ///
    /// Returns the operation and its first action, a GET of `url`.
    fn load_bytes_from_url(&self, url: &str) -> (started: (Operation, Action))
        ensures
            started.0@ == (Stage::AwaitingResponse { url: url@, goal: Goal::Bytes }),
            started.1@ == (ActionView::Get { url: url@, user_agent: self.agent() }),
    ;

    /// Starts decoding `image_data`, which involves no request.
    ///
    /// Returns the operation and its first action, which hands `image_data`
    /// itself to the decoder.
    fn decode_image(&self, image_data: Bytes) -> (started: (Operation, Action))
        ensures
            started.0@ == Stage::AwaitingDecode,
            started.1@ == ActionView::Decode(image_data),
    ;
}

} // verus!
