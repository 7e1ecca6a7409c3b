//! The audio format object: an immutable wrapper around a stream
//! description, with absence exactly on the documented-invalid inputs —
//! in particular, more than two channels without an explicit channel
//! layout.

use vstd::prelude::*;

use crate::at::StreamBasicDescription;
use crate::ns::dictionary::Dictionary;

verus! {

/// The number of channels in a format.
pub type ChannelCount = u32;

/// The common sample layouts a format can name.
#[derive(Clone, Copy, PartialEq, Eq, Structural, Debug)]
pub enum CommonFormat {
    /// A format other than one of the common ones below.
    Other,
    /// Native-endian single-precision floats, the standard format.
    PCMFloat32,
    /// Native-endian double-precision floats.
    PCMFloat64,
    /// Signed 16-bit native-endian integers.
    PCMInt16,
    /// Signed 32-bit native-endian integers.
    PCMInt32,
}

/// An audio channel layout: a platform tag and the channel count it
/// implies.
#[derive(Clone, Copy, PartialEq, Eq, Structural, Debug)]
pub struct ChannelLayout {
    /// The platform layout tag.
    pub tag: u32,
    /// How many channels the tag lays out.
    pub channel_count: u32,
}

impl ChannelLayout {
    pub fn new(tag: u32, channel_count: u32) -> (r: ChannelLayout)
        ensures
            r.tag == tag,
            r.channel_count == channel_count,
    {
        ChannelLayout { tag, channel_count }
    }
}

/// A key of the settings dictionary a format can be built from. Each
/// platform key is a distinct global string constant; the model reduces
/// each to a distinct token.
#[derive(Clone, Copy, PartialEq, Eq, Structural, Debug)]
pub struct SettingsKey {
    /// The identity of the key constant.
    pub raw: u64,
}

impl SettingsKey {
    /// The key under which the sample rate stands.
    pub fn sample_rate() -> (r: SettingsKey)
        ensures
            r == spec_sample_rate_key(),
    {
        SettingsKey { raw: 1 }
    }

    /// The key under which the channel count stands.
    pub fn channel_count() -> (r: SettingsKey)
        ensures
            r == spec_channel_count_key(),
    {
        SettingsKey { raw: 2 }
    }
}

/// The sample-rate key, for contracts to name.
pub open spec fn spec_sample_rate_key() -> SettingsKey {
    SettingsKey { raw: 1 }
}

/// The channel-count key, for contracts to name.
pub open spec fn spec_channel_count_key() -> SettingsKey {
    SettingsKey { raw: 2 }
}

/// The first value a settings dictionary holds under a key.
pub open spec fn spec_lookup(entries: Seq<(SettingsKey, u64)>, key: SettingsKey) -> Option<u64>
    decreases entries.len(),
{
    if entries.len() == 0 {
        None
    } else if entries[0].0 == key {
        Some(entries[0].1)
    } else {
        spec_lookup(entries.drop_first(), key)
    }
}

/// The first match, when one exists, is what `spec_lookup` returns.
proof fn lemma_lookup_found(entries: Seq<(SettingsKey, u64)>, key: SettingsKey, i: int)
    requires
        0 <= i < entries.len(),
        entries[i].0 == key,
        forall|j: int| 0 <= j < i ==> (#[trigger] entries[j]).0 != key,
    ensures
        spec_lookup(entries, key) == Some(entries[i].1),
    decreases i,
{
    if i > 0 {
        lemma_lookup_found(entries.drop_first(), key, i - 1);
    }
}

/// Without a match, `spec_lookup` finds nothing.
proof fn lemma_lookup_missing(entries: Seq<(SettingsKey, u64)>, key: SettingsKey)
    requires
        forall|j: int| 0 <= j < entries.len() ==> (#[trigger] entries[j]).0 != key,
    ensures
        spec_lookup(entries, key) is None,
    decreases entries.len(),
{
    if entries.len() > 0 {
        lemma_lookup_missing(entries.drop_first(), key);
    }
}

/// The first value under a key, or absence when the key is missing.
fn lookup(settings: &Dictionary<SettingsKey, u64>, key: SettingsKey) -> (r: Option<u64>)
    ensures
        r == spec_lookup(settings@, key),
{
    let n = settings.len();
    let mut i: usize = 0;
    while i < n
        invariant
            n == settings@.len(),
            i <= n,
            forall|j: int| 0 <= j < i ==> (#[trigger] settings@[j]).0 != key,
        decreases n - i,
    {
        let entry = settings.get(i);
        if entry.0 == key {
            let v = entry.1;
            proof {
                lemma_lookup_found(settings@, key, i as int);
            }
            return Some(v);
        }
        i = i + 1;
    }
    proof {
        lemma_lookup_missing(settings@, key);
    }
    None
}

/// The format a settings dictionary describes: its sample rate and
/// channel count, when both are present and fit, with no explicit
/// layout.
pub open spec fn spec_format_from_settings(entries: Seq<(SettingsKey, u64)>) -> Option<Format> {
    match spec_lookup(entries, spec_sample_rate_key()) {
        Some(rate) => match spec_lookup(entries, spec_channel_count_key()) {
            Some(channels) => if rate <= u32::MAX && spec_plain_channels_wide(channels) {
                Some(
                    Format {
                        common_format: CommonFormat::Other,
                        sample_rate: rate as u32,
                        channel_count: channels as u32,
                        interleaved: true,
                        channel_layout: None,
                    },
                )
            } else {
                None
            },
            None => None,
        },
        None => None,
    }
}

/// Whether a wide channel count stands on its own.
pub open spec fn spec_plain_channels_wide(channels: u64) -> bool {
    1 <= channels <= 2
}

/// An immutable audio format.
#[derive(Clone, Copy, PartialEq, Eq, Structural, Debug)]
pub struct Format {
    /// The common layout the samples use.
    pub common_format: CommonFormat,
    /// Frames per second.
    pub sample_rate: u32,
    /// Channels in each frame.
    pub channel_count: u32,
    /// Whether channels are interleaved in one stream.
    pub interleaved: bool,
    /// The explicit channel layout, when one was given.
    pub channel_layout: Option<ChannelLayout>,
}

/// Whether a channel count stands on its own: one or two channels need no
/// explicit layout.
pub open spec fn spec_plain_channels(channels: u32) -> bool {
    1 <= channels <= 2
}

impl Format {
    /// A format over a stream description without a layout; absent
    /// exactly when the description's channel count needs one.
    pub fn with_asbd(asbd: &StreamBasicDescription) -> (r: Option<Format>)
        ensures
            r is Some <==> spec_plain_channels(asbd.channels_per_frame),
            r is Some ==> r->Some_0 == (Format {
                common_format: CommonFormat::Other,
                sample_rate: asbd.sample_rate,
                channel_count: asbd.channels_per_frame,
                interleaved: true,
                channel_layout: None,
            }),
    {
        if 1 <= asbd.channels_per_frame && asbd.channels_per_frame <= 2 {
            Some(
                Format {
                    common_format: CommonFormat::Other,
                    sample_rate: asbd.sample_rate,
                    channel_count: asbd.channels_per_frame,
                    interleaved: true,
                    channel_layout: None,
                },
            )
        } else {
            None
        }
    }

    /// A format over a stream description and an optional layout; the
    /// layout may be absent only when the channel count stands on its
    /// own.
    pub fn with_asbd_and_channel_layout(
        asbd: &StreamBasicDescription,
        layout: Option<&ChannelLayout>,
    ) -> (r: Option<Format>)
        ensures
            r is Some <==> layout is Some || spec_plain_channels(asbd.channels_per_frame),
            r is Some ==> r->Some_0.sample_rate == asbd.sample_rate
                && r->Some_0.channel_count == asbd.channels_per_frame
                && r->Some_0.channel_layout == (match layout {
                Some(l) => Some(*l),
                None => None::<ChannelLayout>,
            }),
    {
        match layout {
            Some(l) => Some(
                Format {
                    common_format: CommonFormat::Other,
                    sample_rate: asbd.sample_rate,
                    channel_count: asbd.channels_per_frame,
                    interleaved: true,
                    channel_layout: Some(*l),
                },
            ),
            None => Self::with_asbd(asbd),
        }
    }

    /// The standard format — deinterleaved single-precision floats — at a
    /// rate and channel count; absent exactly when the count needs a
    /// layout.
    pub fn standard_with_sample_rate_and_channels(
        sample_rate: u32,
        channels: ChannelCount,
    ) -> (r: Option<Format>)
        ensures
            r is Some <==> spec_plain_channels(channels),
            r is Some ==> r->Some_0 == (Format {
                common_format: CommonFormat::PCMFloat32,
                sample_rate,
                channel_count: channels,
                interleaved: false,
                channel_layout: None,
            }),
    {
        if 1 <= channels && channels <= 2 {
            Some(
                Format {
                    common_format: CommonFormat::PCMFloat32,
                    sample_rate,
                    channel_count: channels,
                    interleaved: false,
                    channel_layout: None,
                },
            )
        } else {
            None
        }
    }

    /// The standard format at a rate with an explicit layout; a layout
    /// always suffices.
    pub fn standard_with_sample_rate_and_channel_layout(
        sample_rate: u32,
        layout: &ChannelLayout,
    ) -> (r: Format)
        ensures
            r == (Format {
                common_format: CommonFormat::PCMFloat32,
                sample_rate,
                channel_count: layout.channel_count,
                interleaved: false,
                channel_layout: Some(*layout),
            }),
    {
        Format {
            common_format: CommonFormat::PCMFloat32,
            sample_rate,
            channel_count: layout.channel_count,
            interleaved: false,
            channel_layout: Some(*layout),
        }
    }

    /// A format from a settings dictionary; absent exactly when the
    /// dictionary does not describe one — a missing sample rate or
    /// channel count, a rate that does not fit, or a channel count that
    /// needs a layout.
    pub fn with_settings(settings: &Dictionary<SettingsKey, u64>) -> (r: Option<Format>)
        ensures
            r == spec_format_from_settings(settings@),
    {
        let rate = match lookup(settings, SettingsKey::sample_rate()) {
            Some(rate) => rate,
            None => {
                return None;
            },
        };
        let channels = match lookup(settings, SettingsKey::channel_count()) {
            Some(channels) => channels,
            None => {
                return None;
            },
        };
        if rate > 0xFFFFFFFF || channels < 1 || channels > 2 {
            return None;
        }
        Some(
            Format {
                common_format: CommonFormat::Other,
                sample_rate: rate as u32,
                channel_count: channels as u32,
                interleaved: true,
                channel_layout: None,
            },
        )
    }

    /// The format's settings dictionary: its sample rate and channel
    /// count under their keys.
    pub fn settings(&self) -> (r: Dictionary<SettingsKey, u64>)
        ensures
            r@.len() == 2,
            r@[0] == (spec_sample_rate_key(), self.sample_rate as u64),
            r@[1] == (spec_channel_count_key(), self.channel_count as u64),
    {
        let mut dict: Dictionary<SettingsKey, u64> = Dictionary::new();
        dict.push_entry(SettingsKey::sample_rate(), self.sample_rate as u64);
        dict.push_entry(SettingsKey::channel_count(), self.channel_count as u64);
        dict
    }

    /// A format with an explicit common layout, rate, interleaving and
    /// channel layout.
    pub fn with_common_format_sample_rate_interleaved_channel_layout(
        format: CommonFormat,
        sample_rate: u32,
        interleaved: bool,
        channel_layout: &ChannelLayout,
    ) -> (r: Format)
        ensures
            r == (Format {
                common_format: format,
                sample_rate,
                channel_count: channel_layout.channel_count,
                interleaved,
                channel_layout: Some(*channel_layout),
            }),
    {
        Format {
            common_format: format,
            sample_rate,
            channel_count: channel_layout.channel_count,
            interleaved,
            channel_layout: Some(*channel_layout),
        }
    }
}

} // verus!
