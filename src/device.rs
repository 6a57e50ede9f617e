use vstd::prelude::*;

verus! {

/// The machine's sound card: the entry point for looking at its devices.
pub struct SoundCard;

/// An audio device, identified by its ID or its readable name.
///
/// A snapshot taken from the device directory; sessions copy it at
/// construction and never refresh it.
#[derive(Debug, PartialEq, Eq)]
pub struct Device {
    /// The device ID, used to create a new `Speaker` or `Microphone`.
    pub id: u32,
    /// Human readable name of the device.
    pub name: String,
    /// Maximum number of channels in the device.
    pub channels: u32,
    /// Default sample rate of the device, in frames per second.
    pub sample_rate: u32,
}

/// The parameters requested for a stream on a `Device`.
///
/// A field left as `None` means "use the device's default".
#[derive(Debug)]
pub struct Config {
    /// The audio sample rate, e.g. 44100.
    pub sample_rate: Option<u32>,
    /// The number of channels to play or record.
    pub num_channels: Option<u32>,
    /// The size of each block of audio; advisory, the OS decides.
    pub block_size: Option<u32>,
}

impl Default for Config {
    fn default() -> (r: Config)
        ensures
            r.sample_rate is None,
            r.num_channels is None,
            r.block_size is None,
    {
        Config { sample_rate: None, num_channels: None, block_size: None }
    }
}

/// The name given to a device whose name cannot be read.
pub open spec fn unknown_name() -> Seq<char> {
    seq!['U', 'n', 'k', 'n', 'o', 'w', 'n']
}

/// The devices of `found` that have at least one channel, in their order.
pub open spec fn usable(found: Seq<Device>) -> Seq<Device> {
    found.filter(|d: Device| d.channels > 0)
}

impl SoundCard {
    /// Builds the snapshot of one device from what the directory reported of
    /// it; a name that could not be read becomes "Unknown".
    pub fn get_device(id: u32, name: Option<String>, channels: u32, sample_rate: u32) -> (r: Device)
        ensures
            r.id == id,
            r.channels == channels,
            r.sample_rate == sample_rate,
            name is Some ==> r.name@ == name->Some_0@,
            name is None ==> r.name@ == unknown_name(),
    {
        let name = match name {
            Some(n) => n,
            None => {
                let n = String::from_str("Unknown");
                proof {
                    reveal_strlit("Unknown");
                    assert(n@ =~= unknown_name());
                }
                n
            },
        };
        Device { id, name, channels, sample_rate }
    }

    /// Keeps the devices that can carry audio in the scope they were read
    /// for (at least one channel), in the order the directory listed them.
    pub fn usable_devices(found: Vec<Device>) -> (r: Vec<Device>)
        ensures
            r@ == usable(found@),
    {
        let mut kept: Vec<Device> = Vec::new();
        let mut rest = found;
        let ghost orig = found@;
        while rest.len() > 0
            invariant
                rest@.len() <= orig.len(),
                rest@ == orig.skip(orig.len() - rest@.len()),
                kept@ == usable(orig.take(orig.len() - rest@.len())),
            decreases rest@.len(),
        {
            let ghost i = orig.len() - rest@.len();
            let d = rest.remove(0);
            proof {
                assert(orig.take(i + 1).drop_last() =~= orig.take(i));
                assert(rest@ =~= orig.skip(i + 1));
                assert(orig.take(i + 1).last() == d);
                reveal_with_fuel(Seq::filter, 1);
            }
            if d.channels > 0 {
                kept.push(d);
            }
        }
        proof {
            assert(orig.take(orig.len() as int) =~= orig);
        }
        kept
    }
}

} // verus!
