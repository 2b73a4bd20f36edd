//! The data model of a PipeWire backend's cache: the latest sink name,
//! volume and jack state that a monitor thread pushes for the volume block
//! to read.
use vstd::prelude::*;

verus! {

/// One volume report of a sink: its mute switch and its level.
pub struct Volume {
    /// Whether the sink is muted.
    pub mute: bool,
    /// The volume level in percent.
    pub volume: u32,
}

impl Volume {
    /// Before a report arrives the sink counts as muted and silent.
    pub fn new() -> (r: Volume)
        ensures
            r.mute == true,
            r.volume == 0,
    {
        Volume { mute: true, volume: 0 }
    }
}

/// The latest state a PipeWire monitor reported.
pub struct PipewireCache {
    /// Card name of the default sink.
    pub sink_name: String,
    /// Volume of the default sink, absent while it is muted.
    pub volume: Option<u32>,
    /// Jack-plug state, when the monitor can sense it.
    pub jack_plugged: Option<bool>,
}

impl PipewireCache {
    /// An empty cache, before the monitor reported anything.
    pub fn new() -> (r: PipewireCache)
        ensures
            r.sink_name@ == Seq::<char>::empty(),
            r.volume is None,
            r.jack_plugged is None,
    {
        proof {
            reveal_strlit("");
        }
        PipewireCache { sink_name: "".to_owned(), volume: None, jack_plugged: None }
    }

    /// Records a volume report: a muted sink has no visible volume.
    pub fn update_vol(&mut self, volume: Volume)
        ensures
            final(self).volume == (
            if volume.mute {
                Option::<u32>::None
            } else {
                Some(volume.volume)
            }),
            final(self).sink_name == old(self).sink_name,
            final(self).jack_plugged == old(self).jack_plugged,
    {
        self.volume = if volume.mute {
            None
        } else {
            Some(volume.volume)
        };
    }

    /// Records the card name of the default sink.
    pub fn update_name(&mut self, name: String)
        ensures
            final(self).sink_name == name,
            final(self).volume == old(self).volume,
            final(self).jack_plugged == old(self).jack_plugged,
    {
        self.sink_name = name;
    }
}

} // verus!
