//! The volume block: the mixer volume reported by a sound service, with
//! jack-plug handling. In a build without an audio backend the services
//! report nothing and the block stays invalid.
use vstd::prelude::*;

use crate::base::{Base, BaseV, Value, ValueV};
use crate::block;
use crate::sound_service::SoundService;

verus! {

/// The ALSA sound service of a build without ALSA support: it reports
/// nothing.
pub struct AlsaDevice {}

impl SoundService for AlsaDevice {
    open spec fn spec_id(&self) -> Seq<char> {
        "unimplemented"@
    }

    open spec fn spec_sink_name(&self) -> Seq<char> {
        ""@
    }

    open spec fn spec_mixer_exists(&self, mixer: Seq<char>) -> bool {
        false
    }

    open spec fn spec_jack_plugged(&self) -> Option<bool> {
        None
    }

    open spec fn spec_volume(&self, mixer: Seq<char>) -> Option<u32> {
        None
    }

    fn id(&self) -> (r: String) {
        "unimplemented".to_owned()
    }

    fn sink_name(&self) -> (r: String) {
        "".to_owned()
    }

    fn mixer_exists(&self, mixer: &str) -> (r: bool) {
        false
    }

    fn jack_plugged(&self) -> (r: Option<bool>) {
        None
    }

    fn update(&self) {
    }

    fn volume(&self, mixer: &str) -> (r: Option<u32>) {
        None
    }

    fn listen(&mut self, block_index: usize) {
    }

    fn set_mute(&self, mixer: &str, value: bool) {
    }
}

impl AlsaDevice {
    /// Opening the mixer of a build without ALSA support always fails.
    pub fn new(card: &str) -> (r: Option<AlsaDevice>)
        ensures
            r is None,
    {
        None
    }
}

/// The PulseAudio sound service of a build without PulseAudio support: it
/// reports nothing.
pub struct PulseDevice {}

impl SoundService for PulseDevice {
    open spec fn spec_id(&self) -> Seq<char> {
        "unimplemented"@
    }

    open spec fn spec_sink_name(&self) -> Seq<char> {
        ""@
    }

    open spec fn spec_mixer_exists(&self, mixer: Seq<char>) -> bool {
        false
    }

    open spec fn spec_jack_plugged(&self) -> Option<bool> {
        None
    }

    open spec fn spec_volume(&self, mixer: Seq<char>) -> Option<u32> {
        None
    }

    fn id(&self) -> (r: String) {
        "unimplemented".to_owned()
    }

    fn sink_name(&self) -> (r: String) {
        "".to_owned()
    }

    fn mixer_exists(&self, mixer: &str) -> (r: bool) {
        false
    }

    fn jack_plugged(&self) -> (r: Option<bool>) {
        None
    }

    fn update(&self) {
    }

    fn volume(&self, mixer: &str) -> (r: Option<u32>) {
        None
    }

    fn listen(&mut self, block_index: usize) {
    }

    fn set_mute(&self, mixer: &str, value: bool) {
    }
}

impl PulseDevice {
    /// Connecting to a server in a build without PulseAudio support always
    /// fails.
    pub fn new() -> (r: Option<PulseDevice>)
        ensures
            r is None,
    {
        None
    }
}

/// The PipeWire sound service of a build without PipeWire support: it
/// reports nothing.
pub struct PipewireDevice {}

impl SoundService for PipewireDevice {
    open spec fn spec_id(&self) -> Seq<char> {
        "unimplemented"@
    }

    open spec fn spec_sink_name(&self) -> Seq<char> {
        ""@
    }

    open spec fn spec_mixer_exists(&self, mixer: Seq<char>) -> bool {
        false
    }

    open spec fn spec_jack_plugged(&self) -> Option<bool> {
        None
    }

    open spec fn spec_volume(&self, mixer: Seq<char>) -> Option<u32> {
        None
    }

    fn id(&self) -> (r: String) {
        "unimplemented".to_owned()
    }

    fn sink_name(&self) -> (r: String) {
        "".to_owned()
    }

    fn mixer_exists(&self, mixer: &str) -> (r: bool) {
        false
    }

    fn jack_plugged(&self) -> (r: Option<bool>) {
        None
    }

    fn update(&self) {
    }

    fn volume(&self, mixer: &str) -> (r: Option<u32>) {
        None
    }

    fn listen(&mut self, block_index: usize) {
    }

    fn set_mute(&self, mixer: &str, value: bool) {
    }
}

impl PipewireDevice {
    /// Connecting to a server in a build without PipeWire support always
    /// fails.
    pub fn new() -> (r: Option<PipewireDevice>)
        ensures
            r is None,
    {
        None
    }
}

/// The sound service the block found, over the fixed set of backends.
#[allow(missing_docs)]
pub enum Service {
    Alsa(AlsaDevice),
    Pulse(PulseDevice),
    Pipewire(PipewireDevice),
}

impl SoundService for Service {
    open spec fn spec_id(&self) -> Seq<char> {
        match self {
            Service::Alsa(d) => d.spec_id(),
            Service::Pulse(d) => d.spec_id(),
            Service::Pipewire(d) => d.spec_id(),
        }
    }

    open spec fn spec_sink_name(&self) -> Seq<char> {
        match self {
            Service::Alsa(d) => d.spec_sink_name(),
            Service::Pulse(d) => d.spec_sink_name(),
            Service::Pipewire(d) => d.spec_sink_name(),
        }
    }

    open spec fn spec_mixer_exists(&self, mixer: Seq<char>) -> bool {
        match self {
            Service::Alsa(d) => d.spec_mixer_exists(mixer),
            Service::Pulse(d) => d.spec_mixer_exists(mixer),
            Service::Pipewire(d) => d.spec_mixer_exists(mixer),
        }
    }

    open spec fn spec_jack_plugged(&self) -> Option<bool> {
        match self {
            Service::Alsa(d) => d.spec_jack_plugged(),
            Service::Pulse(d) => d.spec_jack_plugged(),
            Service::Pipewire(d) => d.spec_jack_plugged(),
        }
    }

    open spec fn spec_volume(&self, mixer: Seq<char>) -> Option<u32> {
        match self {
            Service::Alsa(d) => d.spec_volume(mixer),
            Service::Pulse(d) => d.spec_volume(mixer),
            Service::Pipewire(d) => d.spec_volume(mixer),
        }
    }

    fn id(&self) -> (r: String) {
        match self {
            Service::Alsa(d) => d.id(),
            Service::Pulse(d) => d.id(),
            Service::Pipewire(d) => d.id(),
        }
    }

    fn sink_name(&self) -> (r: String) {
        match self {
            Service::Alsa(d) => d.sink_name(),
            Service::Pulse(d) => d.sink_name(),
            Service::Pipewire(d) => d.sink_name(),
        }
    }

    fn mixer_exists(&self, mixer: &str) -> (r: bool) {
        match self {
            Service::Alsa(d) => d.mixer_exists(mixer),
            Service::Pulse(d) => d.mixer_exists(mixer),
            Service::Pipewire(d) => d.mixer_exists(mixer),
        }
    }

    fn jack_plugged(&self) -> (r: Option<bool>) {
        match self {
            Service::Alsa(d) => d.jack_plugged(),
            Service::Pulse(d) => d.jack_plugged(),
            Service::Pipewire(d) => d.jack_plugged(),
        }
    }

    fn update(&self) {
        match self {
            Service::Alsa(d) => d.update(),
            Service::Pulse(d) => d.update(),
            Service::Pipewire(d) => d.update(),
        }
    }

    fn volume(&self, mixer: &str) -> (r: Option<u32>) {
        match self {
            Service::Alsa(d) => d.volume(mixer),
            Service::Pulse(d) => d.volume(mixer),
            Service::Pipewire(d) => d.volume(mixer),
        }
    }

    fn listen(&mut self, block_index: usize) {
        match self {
            Service::Alsa(d) => d.listen(block_index),
            Service::Pulse(d) => d.listen(block_index),
            Service::Pipewire(d) => d.listen(block_index),
        }
    }

    fn set_mute(&self, mixer: &str, value: bool) {
        match self {
            Service::Alsa(d) => d.set_mute(mixer, value),
            Service::Pulse(d) => d.set_mute(mixer, value),
            Service::Pipewire(d) => d.set_mute(mixer, value),
        }
    }
}

/// The volume block.
pub struct Block {
    /// Display and timing configuration.
    pub base: Base,
    /// Name of the mixer whose volume is shown.
    pub mixer: String,
    /// Name of the sound card.
    pub card: String,
    /// Prefix icons for the plugged and unplugged jack states.
    pub jack_icons: Vec<String>,
    /// Sink names treated as always jack-plugged.
    pub jack_only: Vec<String>,
    /// Switch between speaker and headphone outputs on jack events.
    pub alsa_jack_switch_outputs: bool,
    /// Mute the master mixer when the jack is unplugged.
    pub alsa_jack_mute_on_unplug: bool,
    /// Unmute the master mixer when the jack is plugged.
    pub alsa_jack_unmute_on_plug: bool,
    /// The last observed jack state.
    pub jack_plugged: bool,
    /// Whether the backend has a master mixer.
    pub master_exists: bool,
    /// The connected audio backend, once one was found.
    pub service: Option<Service>,
}

/// The jack state a service reports, an unknown state counting as
/// unplugged.
pub open spec fn spec_jack(sv: Service) -> bool {
    match sv.spec_jack_plugged() {
        Some(p) => p,
        None => false,
    }
}

/// Whether a sink name is in the list treated as always jack-plugged.
pub open spec fn spec_in_jack_only(jack_only: Seq<String>, name: Seq<char>) -> bool {
    exists|i: int| 0 <= i < jack_only.len() && (#[trigger] jack_only[i])@ == name
}

/// The run-time prefix after one handling pass: the plugged or unplugged
/// jack icon when a master mixer exists and both icons are configured, the
/// old prefix otherwise.
pub open spec fn spec_events_prefix(pre: Block, sv: Service) -> Seq<char> {
    if pre.master_exists && pre.jack_icons@.len() > 1 {
        if spec_jack(sv) || spec_in_jack_only(pre.jack_only@, sv.spec_sink_name()) {
            pre.jack_icons@[0]@
        } else {
            pre.jack_icons@[1]@
        }
    } else {
        pre.base@.iprefix
    }
}

/// The value after one handling pass: with a master mixer, the configured
/// mixer's volume guarded by the master's, else the configured mixer's
/// volume alone; a muted or unknown volume is invalid.
pub open spec fn spec_events_value(pre: Block, sv: Service) -> ValueV {
    if pre.master_exists {
        match sv.spec_volume("Master"@) {
            Some(v) => if pre.mixer@ != "Master"@ {
                match sv.spec_volume(pre.mixer@) {
                    Some(mv) => ValueV::Int(mv),
                    None => ValueV::Invalid,
                }
            } else {
                ValueV::Int(v)
            },
            None => ValueV::Invalid,
        }
    } else {
        match sv.spec_volume(pre.mixer@) {
            Some(mv) => ValueV::Int(mv),
            None => ValueV::Invalid,
        }
    }
}

/// What one handling pass does to the block: nothing without a service;
/// with one, the jack state is latched, the jack icon prefix and the value
/// are refreshed, and everything else is kept.
pub open spec fn spec_events_rel(pre: Block, post: Block) -> bool {
    match pre.service {
        None => post == pre,
        Some(sv) => {
            &&& post.service == pre.service
            &&& post.mixer == pre.mixer
            &&& post.card == pre.card
            &&& post.jack_icons == pre.jack_icons
            &&& post.jack_only == pre.jack_only
            &&& post.alsa_jack_switch_outputs == pre.alsa_jack_switch_outputs
            &&& post.alsa_jack_mute_on_unplug == pre.alsa_jack_mute_on_unplug
            &&& post.alsa_jack_unmute_on_plug == pre.alsa_jack_unmute_on_plug
            &&& post.master_exists == pre.master_exists
            &&& post.jack_plugged == spec_jack(sv)
            &&& post.base@ == (BaseV {
                value: spec_events_value(pre, sv),
                iprefix: spec_events_prefix(pre, sv),
                ..pre.base@
            })
        },
    }
}

/// Whether the list of sink names holds this one.
fn contains_string(v: &Vec<String>, s: &String) -> (r: bool)
    ensures
        r == spec_in_jack_only(v@, s@),
{
    let mut i: usize = 0;
    while i < v.len()
        invariant
            0 <= i <= v@.len(),
            forall|j: int| 0 <= j < i ==> (#[trigger] v@[j])@ != s@,
        decreases v@.len() - i,
    {
        if v[i] == *s {
            return true;
        }
        i = i + 1;
    }
    false
}

impl Block {
    /// One handling pass: latches the jack state, applies the configured
    /// jack actions on a state change of an ALSA backend, refreshes the
    /// jack icon prefix and the mixer volume value.
    pub fn handle_events(&mut self)
        ensures
            spec_events_rel(*old(self), *final(self)),
    {
        let svc_opt = self.service.take();
        match svc_opt {
            Some(service) => {
                service.update();
                let jack_plugged = match service.jack_plugged() {
                    Some(plugged) => plugged,
                    None => false,
                };
                let alsa_id = "alsa".to_owned();
                if service.id() == alsa_id && self.jack_plugged != jack_plugged {
                    if jack_plugged {
                        if self.alsa_jack_switch_outputs {
                            service.set_mute("Speaker", true);
                            service.set_mute("Headphone", false);
                        }
                        if self.alsa_jack_unmute_on_plug {
                            service.set_mute("Master", false);
                        }
                    } else {
                        if self.alsa_jack_switch_outputs {
                            service.set_mute("Speaker", false);
                            service.set_mute("Headphone", true);
                        }
                        if self.alsa_jack_mute_on_unplug {
                            service.set_mute("Master", true);
                        }
                    }
                }
                self.jack_plugged = jack_plugged;
                self.base.value = if self.master_exists {
                    if self.jack_icons.len() > 1 {
                        let sink = service.sink_name();
                        if self.jack_plugged || contains_string(&self.jack_only, &sink) {
                            let icon = self.jack_icons[0].clone();
                            self.base.set_prefix(icon.as_str());
                        } else {
                            let icon = self.jack_icons[1].clone();
                            self.base.set_prefix(icon.as_str());
                        }
                    }
                    let master = "Master".to_owned();
                    match service.volume(master.as_str()) {
                        Some(volume) => {
                            if !(self.mixer == master) {
                                Value::new(service.volume(self.mixer.as_str()))
                            } else {
                                Value::new(volume)
                            }
                        },
                        None => Value::Invalid,
                    }
                } else {
                    Value::new(service.volume(self.mixer.as_str()))
                };
                self.service = Some(service);
            },
            None => {
            },
        }
    }

    /// Connects to the first available audio backend on the first pass,
    /// then handles its events.
    pub fn update(&mut self)
        ensures
            spec_events_rel(*old(self), *final(self)),
    {
        if self.service.is_none() {
            if let Some(pipewire) = PipewireDevice::new() {
                self.service = Some(Service::Pipewire(pipewire));
            }
            if self.service.is_none() {
                if let Some(pulse) = PulseDevice::new() {
                    self.service = Some(Service::Pulse(pulse));
                }
            }
            if self.service.is_none() {
                if let Some(alsa) = AlsaDevice::new(self.card.as_str()) {
                    self.service = Some(Service::Alsa(alsa));
                }
            }
            let idx = self.base.index();
            let svc = self.service.take();
            match svc {
                Some(mut service) => {
                    if let Some(plugged) = service.jack_plugged() {
                        self.jack_plugged = plugged;
                    }
                    let master = "Master".to_owned();
                    self.master_exists = service.mixer_exists(master.as_str());
                    service.listen(idx);
                    self.service = Some(service);
                },
                None => {
                },
            }
        }
        self.handle_events();
    }
}

impl block::Block for Block {
    open spec fn base_v(&self) -> BaseV {
        self.base@
    }

    fn set_value(&mut self, value: Value) {
        self.base.value = value;
    }

    fn set_name(&mut self, name: String) {
        self.base.set_name(name);
    }

    fn interval(&self) -> (r: u32) {
        self.base.interval()
    }

    fn signal(&self) -> (r: u32) {
        self.base.signal()
    }

    fn bgcolor(&self) -> (r: Option<u32>) {
        self.base.bg()
    }

    fn render(&self, prev_bg: Option<u32>, out: &mut String) {
        self.base.render(prev_bg, out)
    }

    fn set_index(&mut self, index: usize) {
        self.base.set_index(index);
    }
}

/// No jack icons unless configured.
pub fn empty_jack_icons() -> (r: Vec<String>)
    ensures
        r@ == Seq::<String>::empty(),
{
    Vec::new()
}

/// No always-plugged sink names unless configured.
pub fn empty_jack_only() -> (r: Vec<String>)
    ensures
        r@ == Seq::<String>::empty(),
{
    Vec::new()
}

/// The default sound card.
pub fn default_card() -> (r: String)
    ensures
        r@ == "default"@,
{
    "default".to_owned()
}

/// The default mixer.
pub fn default_mixer() -> (r: String)
    ensures
        r@ == "PCM"@,
{
    "PCM".to_owned()
}

/// No backend until the first update finds one.
pub fn default_service() -> (r: Option<Service>)
    ensures
        r is None,
{
    None
}

} // verus!
