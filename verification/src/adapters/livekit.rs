use vstd::prelude::*;

use crate::domain::meeting::{random_u128, MeetingId};
use crate::domain::room::RoomToken;
use crate::domain::uuid_text::uuid_string;
use crate::ports::room_manager::{RoomManager, RoomManagerError};

verus! {

/// The production room manager: credentials are signed LiveKit access
/// tokens, minted with the configured API key and secret.
pub struct Livekit {
    api_key: String,
    api_secret: String,
}

impl View for Livekit {
    type V = (Seq<char>, Seq<char>);

    closed spec fn view(&self) -> (Seq<char>, Seq<char>) {
        (self.api_key@, self.api_secret@)
    }
}

impl Livekit {
    pub fn new(api_key: String, api_secret: String) -> (r: Livekit)
        ensures
            r@ == (api_key@, api_secret@),
    {
        Livekit { api_key, api_secret }
    }
}

/// Relies on `livekit_api::access_token::AccessToken`: builds a token
/// granting `identity` the right to join exactly the room named `room`,
/// signed with the given key pair. The resulting JWT also depends on the
/// signing time, so nothing is stated of its text; the signer's failures
/// come back as their display text.
#[verifier::external_body]
fn livekit_jwt(api_key: &str, api_secret: &str, room: &str, identity: &str) -> Result<
    String,
    String,
> {
    let token = livekit_api::access_token::AccessToken::with_api_key(api_key, api_secret)
        .with_identity(identity)
        .with_grants(livekit_api::access_token::VideoGrants {
            room_join: true,
            room: room.to_string(),
            ..Default::default()
        });
    token.to_jwt().map_err(|e| e.to_string())
}

impl RoomManager for Livekit {
    /// A signed token cannot be told apart from text by this module, so no
    /// credential claim is made beyond what `create_token` states.
    open spec fn token_for(&self, meeting_id: u128, token: Seq<char>) -> bool {
        true
    }

    fn create_token(&self, meeting_id: MeetingId) -> (r: Result<RoomToken, RoomManagerError>) {
        let identity = uuid_string(random_u128());
        let room = meeting_id.to_uuid_string();
        match livekit_jwt(
            self.api_key.as_str(),
            self.api_secret.as_str(),
            room.as_str(),
            identity.as_str(),
        ) {
            Ok(jwt) => Ok(RoomToken::from(jwt)),
            Err(detail) => Err(RoomManagerError { detail }),
        }
    }
}

} // verus!
