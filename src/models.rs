//! Records handled by the console and exchanged with the podcast server.
use crate::role::Role;
use vstd::prelude::*;

verus! {

/// An account. `id` is 0 until the store assigns one; `password` holds a
/// one-way digest, never the text the operator typed.
#[derive(Clone, Debug, PartialEq, Eq)]
pub struct User {
    pub id: u64,
    pub username: String,
    pub role: Role,
    pub password: Option<String>,
    pub explicit_consent: bool,
    pub created_at: String,
    pub api_key: Option<String>,
}

/// An account as listed to the operator, without its password digest.
#[derive(Clone, Debug, PartialEq, Eq)]
pub struct UserWithoutPassword {
    pub id: u64,
    pub username: String,
    pub role: Role,
    pub explicit_consent: bool,
    pub created_at: String,
    pub api_key: Option<String>,
}

/// A registered podcast, identified by its feed URL.
#[derive(Clone, Debug, PartialEq, Eq)]
pub struct Podcast {
    pub id: i32,
    pub name: String,
    pub rssfeed: String,
}

/// One episode of a podcast.
#[derive(Clone, Debug, PartialEq, Eq)]
pub struct PodcastEpisode {
    pub id: i32,
    pub podcast_id: i32,
    pub episode_id: String,
    pub name: String,
    pub url: String,
    pub date_of_recording: String,
    pub image_url: String,
    pub total_time: i32,
}

/// The username carried by a request.
pub struct UserData {
    pub username: String,
}

/// The fields of a user to be created.
pub struct NewUser {
    pub username: String,
    pub password: String,
    pub first_name: String,
}

/// A request to subscribe a user to a podcast of the catalogue.
pub struct PodCastAddModel {
    pub track_id: i32,
    pub user_id: i32,
}

/// A report of how far an episode has been played.
pub struct PodcastWatchedPostModel {
    pub podcast_episode_id: String,
    pub time: i32,
}

/// A row of the playback history.
pub struct PodcastHistoryItem {
    pub id: i32,
    pub podcast_id: i32,
    pub episode_id: String,
    pub watched_time: i32,
    pub date: String,
}

/// A history row joined with the episode's display fields.
pub struct PodcastWatchedEpisodeModel {
    pub id: i32,
    pub podcast_id: i32,
    pub episode_id: String,
    pub url: String,
    pub name: String,
    pub image_url: String,
    pub watched_time: i32,
    pub date: String,
    pub total_time: i32,
}

/// A history row joined with its episode and podcast.
pub struct PodcastWatchedEpisodeModelWithPodcastEpisode {
    pub id: i32,
    pub podcast_id: i32,
    pub episode_id: String,
    pub url: String,
    pub name: String,
    pub image_url: String,
    pub watched_time: i32,
    pub date: String,
    pub total_time: i32,
    pub podcast_episode: PodcastEpisode,
    pub podcast: Podcast,
}

/// A copy of an optional text.
pub fn copy_opt(s: &Option<String>) -> (r: Option<String>)
    ensures
        r == *s,
{
    match s {
        Some(t) => Some(t.clone()),
        None => None,
    }
}

impl User {
    /// A field-for-field copy.
    pub fn copy(&self) -> (r: User)
        ensures
            r == *self,
    {
        User {
            id: self.id,
            username: self.username.clone(),
            role: self.role,
            password: copy_opt(&self.password),
            explicit_consent: self.explicit_consent,
            created_at: self.created_at.clone(),
            api_key: copy_opt(&self.api_key),
        }
    }

    /// The account without its password digest.
    pub fn without_password(&self) -> (r: UserWithoutPassword)
        ensures
            r.id == self.id,
            r.username == self.username,
            r.role == self.role,
            r.explicit_consent == self.explicit_consent,
            r.created_at == self.created_at,
            r.api_key == self.api_key,
    {
        UserWithoutPassword {
            id: self.id,
            username: self.username.clone(),
            role: self.role,
            explicit_consent: self.explicit_consent,
            created_at: self.created_at.clone(),
            api_key: copy_opt(&self.api_key),
        }
    }
}

impl Podcast {
    /// A field-for-field copy.
    pub fn copy(&self) -> (r: Podcast)
        ensures
            r == *self,
    {
        Podcast { id: self.id, name: self.name.clone(), rssfeed: self.rssfeed.clone() }
    }
}

} // verus!
