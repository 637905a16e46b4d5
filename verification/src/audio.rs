//! Audio output devices: the list that the platform reports, turned into
//! what a menu shows, and what a switch of device asks of the pipeline.

use vstd::prelude::*;
use crate::playback::TargetState;
use crate::seek::SeekRequest;

verus! {

/// What the platform told of one audio device.
#[derive(Debug)]
pub struct FoundDevice {
    /// The name for people to read, if the platform gave one.
    pub friendly_name: Option<String>,
    /// The id that the pipeline's sink knows the device by, if the platform
    /// gave one.
    pub id: Option<String>,
}

/// Why the list of audio devices could not be made.
#[derive(Clone, Copy, Debug, PartialEq, Eq, Structural)]
pub enum AudioError {
    /// The platform has no list of devices.
    Unsupported,
    /// The platform could not list its devices.
    NoCollection,
    /// A device has no name to show.
    NoFriendlyName,
    /// A device has no id to pick it by.
    NoId,
}

impl AudioError {
    /// What went wrong, in words.
    pub open spec fn text(self) -> Seq<char> {
        match self {
            AudioError::Unsupported => "Audio devices are not supported on this platform"@,
            AudioError::NoCollection => "Couldn't get collection"@,
            AudioError::NoFriendlyName => "Couldn't get friendly name"@,
            AudioError::NoId => "Couldn't get friendly id"@,
        }
    }

    /// What went wrong, in words.
    pub fn message(&self) -> (m: &'static str)
        ensures
            m@ == self.text(),
    {
        match self {
            AudioError::Unsupported => "Audio devices are not supported on this platform",
            AudioError::NoCollection => "Couldn't get collection",
            AudioError::NoFriendlyName => "Couldn't get friendly name",
            AudioError::NoId => "Couldn't get friendly id",
        }
    }
}

/// What a switch to another audio device asks of the pipeline, in this
/// order: go to rest and let go of the old sink; take a sink for `device`;
/// enter `state`, where that is a state to enter, and wait until it is
/// reached; then `resume`.
#[derive(Debug)]
pub struct AudioDeviceSwitch {
    pub device: String,
    pub state: TargetState,
    pub resume: SeekRequest,
}

/// The list made of the first `n` entries that the platform gave: name and
/// id of each device, in order. Entries that the platform could not read
/// (`None`) are passed over; the first device without a name or without an
/// id fails the whole list.
pub open spec fn device_entries(found: Seq<Option<FoundDevice>>, n: nat) -> Result<
    Seq<(String, String)>,
    AudioError,
>
    decreases n,
{
    if n == 0 {
        Ok(Seq::empty())
    } else {
        match device_entries(found, (n - 1) as nat) {
            Err(e) => Err(e),
            Ok(before) => match found[n - 1] {
                None => Ok(before),
                Some(device) => if device.friendly_name is None {
                    Err(AudioError::NoFriendlyName)
                } else if device.id is None {
                    Err(AudioError::NoId)
                } else {
                    Ok(before.push((device.friendly_name->0, device.id->0)))
                },
            },
        }
    }
}

/// A list that failed on its first entries fails in the same way on more.
pub proof fn lemma_device_error_stays(found: Seq<Option<FoundDevice>>, n: nat, m: nat)
    requires
        n <= m,
        device_entries(found, n) is Err,
    ensures
        device_entries(found, m) == device_entries(found, n),
    decreases m,
{
    if n < m {
        lemma_device_error_stays(found, n, (m - 1) as nat);
    }
}

/// Turns what the platform gave into the list of names and ids.
pub fn collect_devices(found: &Vec<Option<FoundDevice>>) -> (r: Result<
    Vec<(String, String)>,
    AudioError,
>)
    ensures
        r matches Ok(list) ==> device_entries(found@, found@.len()) == Ok::<
            Seq<(String, String)>,
            AudioError,
        >(list@),
        r matches Err(e) ==> device_entries(found@, found@.len()) == Err::<
            Seq<(String, String)>,
            AudioError,
        >(e),
{
    let mut out: Vec<(String, String)> = Vec::new();
    let mut i: usize = 0;
    while i < found.len()
        invariant
            i <= found.len(),
            device_entries(found@, i as nat) == Ok::<Seq<(String, String)>, AudioError>(out@),
        decreases found.len() - i,
    {
        match &found[i] {
            None => {},
            Some(device) => {
                let name = match &device.friendly_name {
                    Some(name) => name.clone(),
                    None => {
                        proof {
                            lemma_device_error_stays(found@, (i + 1) as nat, found@.len());
                        }
                        return Err(AudioError::NoFriendlyName);
                    },
                };
                let id = match &device.id {
                    Some(id) => id.clone(),
                    None => {
                        proof {
                            lemma_device_error_stays(found@, (i + 1) as nat, found@.len());
                        }
                        return Err(AudioError::NoId);
                    },
                };
                out.push((name, id));
            },
        }
        i = i + 1;
    }
    Ok(out)
}

} // verus!
