//! How a player presents itself to the others.

use vstd::prelude::*;

verus! {

/// The profile of a player.
#[derive(Debug)]
pub struct PlayerProfile {
    /// The name shown to the other players.
    pub display_name: String,
    /// The player's picture, base64-encoded, where it has one.
    pub pfp_base64: Option<String>,
}

/// A profile as plain values.
pub struct ProfileModel {
    pub display_name: Seq<char>,
    pub pfp_base64: Option<Seq<char>>,
}

impl View for PlayerProfile {
    type V = ProfileModel;

    open spec fn view(&self) -> ProfileModel {
        ProfileModel {
            display_name: self.display_name@,
            pfp_base64: match self.pfp_base64 {
                Some(picture) => Some(picture@),
                None => None,
            },
        }
    }
}

impl Default for PlayerProfile {
    /// A profile without a name and without a picture.
    fn default() -> (profile: Self)
        ensures
            profile@ == (ProfileModel { display_name: Seq::<char>::empty(), pfp_base64: None }),
    {
        PlayerProfile { display_name: String::new(), pfp_base64: None }
    }
}

impl Clone for PlayerProfile {
    fn clone(&self) -> (copy: Self)
        ensures
            copy@ == self@,
    {
        PlayerProfile {
            display_name: self.display_name.clone(),
            pfp_base64: match &self.pfp_base64 {
                Some(picture) => Some(picture.clone()),
                None => None,
            },
        }
    }
}

impl PlayerProfile {
    /// Whether the player has a picture.
    pub fn has_pfp(&self) -> (has: bool)
        ensures
            has == self@.pfp_base64 is Some,
    {
        self.pfp_base64.is_some()
    }
}

} // verus!
