use vstd::prelude::*;

verus! {

/// What a media player reports about its playback.
#[derive(Clone, Copy, Debug, PartialEq, Eq, Structural)]
pub enum PlaybackStatus {
    Playing,
    Paused,
    Stopped,
    Unknown,
}

impl Default for PlaybackStatus {
    fn default() -> (r: Self)
        ensures
            r == PlaybackStatus::Unknown,
    {
        PlaybackStatus::Unknown
    }
}

/// One record of the media-status feed. Times are in microseconds.
#[derive(Clone, Debug)]
pub struct MediaInfo {
    pub player_id: String,
    pub title: String,
    pub artist: String,
    pub status: PlaybackStatus,
    pub position_usecs: i64,
    pub duration_usecs: i64,
    pub icon_name: String,
}

impl MediaInfo {
    pub fn new(
        player_id: String,
        title: String,
        artist: String,
        status: PlaybackStatus,
        position_usecs: i64,
        duration_usecs: i64,
        icon_name: String,
    ) -> (r: Self)
        ensures
            r.player_id == player_id,
            r.title == title,
            r.artist == artist,
            r.status == status,
            r.position_usecs == position_usecs,
            r.duration_usecs == duration_usecs,
            r.icon_name == icon_name,
    {
        MediaInfo { player_id, title, artist, status, position_usecs, duration_usecs, icon_name }
    }

    /// A field-for-field copy.
    pub fn duplicate(&self) -> (r: Self)
        ensures
            r == *self,
    {
        MediaInfo {
            player_id: self.player_id.clone(),
            title: self.title.clone(),
            artist: self.artist.clone(),
            status: self.status,
            position_usecs: self.position_usecs,
            duration_usecs: self.duration_usecs,
            icon_name: self.icon_name.clone(),
        }
    }

    pub fn position_usecs(&self) -> (r: i64)
        ensures
            r == self.position_usecs,
    {
        self.position_usecs
    }

    pub fn duration_usecs(&self) -> (r: i64)
        ensures
            r == self.duration_usecs,
    {
        self.duration_usecs
    }

    pub fn set_position(&mut self, pos_usecs: i64)
        ensures
            final(self).position_usecs == pos_usecs,
            final(self).duration_usecs == old(self).duration_usecs,
            final(self).player_id == old(self).player_id,
            final(self).title == old(self).title,
            final(self).artist == old(self).artist,
            final(self).status == old(self).status,
            final(self).icon_name == old(self).icon_name,
    {
        self.position_usecs = pos_usecs;
    }
}


/// Two records say the same: equal texts, status and times.
pub open spec fn same_info(a: MediaInfo, b: MediaInfo) -> bool {
    &&& a.player_id@ == b.player_id@
    &&& a.title@ == b.title@
    &&& a.artist@ == b.artist@
    &&& a.status == b.status
    &&& a.position_usecs == b.position_usecs
    &&& a.duration_usecs == b.duration_usecs
    &&& a.icon_name@ == b.icon_name@
}

impl PartialEq for MediaInfo {
    fn eq(&self, other: &MediaInfo) -> (r: bool) {
        self.player_id == other.player_id && self.title == other.title && self.artist
            == other.artist && self.status == other.status && self.position_usecs
            == other.position_usecs && self.duration_usecs == other.duration_usecs
            && self.icon_name == other.icon_name
    }
}

impl vstd::std_specs::cmp::PartialEqSpecImpl for MediaInfo {
    open spec fn obeys_eq_spec() -> bool {
        true
    }

    open spec fn eq_spec(&self, other: &MediaInfo) -> bool {
        same_info(*self, *other)
    }
}

} // verus!
