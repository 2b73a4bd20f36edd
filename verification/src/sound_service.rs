//! The capability the volume block needs from an audio backend: the current
//! volume and mute state of a mixer, the jack-plug state, and a push
//! subscription for change notification.
use vstd::prelude::*;

verus! {

/// One audio backend, as the volume block sees it.
pub trait SoundService {
    /// The backend's identifier.
    spec fn spec_id(&self) -> Seq<char>;

    /// The name of the active output sink.
    spec fn spec_sink_name(&self) -> Seq<char>;

    /// Whether the named mixer exists.
    spec fn spec_mixer_exists(&self, mixer: Seq<char>) -> bool;

    /// The jack-plug state, when the backend can sense it.
    spec fn spec_jack_plugged(&self) -> Option<bool>;

    /// The volume of the named mixer, absent when it is muted or unknown.
    spec fn spec_volume(&self, mixer: Seq<char>) -> Option<u32>;

    /// The backend's identifier.
    fn id(&self) -> (r: String)
        ensures
            r@ == self.spec_id(),
    ;

    /// The name of the active output sink.
    fn sink_name(&self) -> (r: String)
        ensures
            r@ == self.spec_sink_name(),
    ;

    /// Whether the named mixer exists.
    fn mixer_exists(&self, mixer: &str) -> (r: bool)
        ensures
            r == self.spec_mixer_exists(mixer@),
    ;

    /// The jack-plug state, when the backend can sense it.
    fn jack_plugged(&self) -> (r: Option<bool>)
        ensures
            r == self.spec_jack_plugged(),
    ;

    /// Refreshes the backend's internal state from its device.
    fn update(&self);

    /// The volume of the named mixer, absent when it is muted or unknown.
    fn volume(&self, mixer: &str) -> (r: Option<u32>)
        ensures
            r == self.spec_volume(mixer@),
    ;

    /// Subscribes to change notification for the block at the given
    /// position.
    fn listen(&mut self, block_index: usize);

    /// Mutes or unmutes the named mixer.
    fn set_mute(&self, mixer: &str, value: bool);
}

} // verus!
