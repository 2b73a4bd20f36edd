//! The data model of a PulseAudio backend's cache: the latest sink name,
//! volume and jack state that the subscription callbacks push for the
//! volume block to read.
use vstd::prelude::*;

verus! {

/// The latest state a PulseAudio subscription reported.
pub struct PulseCache {
    /// Card name of the default sink.
    pub sink_name: String,
    /// Volume of the default sink, absent while it is muted.
    pub volume: Option<u32>,
    /// Jack-plug state, when the active port can sense it.
    pub jack_plugged: Option<bool>,
}

impl PulseCache {
    /// An empty cache, before the subscription reported anything.
    pub fn new() -> (r: PulseCache)
        ensures
            r.sink_name@ == Seq::<char>::empty(),
            r.volume is None,
            r.jack_plugged is None,
    {
        proof {
            reveal_strlit("");
        }
        PulseCache { sink_name: "".to_owned(), volume: None, jack_plugged: None }
    }
}

} // verus!
