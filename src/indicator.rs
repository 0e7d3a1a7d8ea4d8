use vstd::prelude::*;

verus! {

/// The process-wide signals that the status indicator reads.
#[derive(Debug, Clone, Copy, PartialEq, Eq, Structural)]
pub struct SystemFlags {
    pub network_ready: bool,
    pub client_mode: bool,
    pub upgrade_in_progress: bool,
    pub time_synced: bool,
}

#[derive(Debug, Clone, Copy, PartialEq, Eq, Structural)]
pub struct Rgb {
    pub r: u8,
    pub g: u8,
    pub b: u8,
}

pub open spec fn spec_indicator_color(flags: SystemFlags) -> Rgb {
    if flags.upgrade_in_progress {
        Rgb { r: 255, g: 140, b: 0 }
    } else if flags.network_ready && flags.client_mode {
        Rgb { r: 0, g: 255, b: 0 }
    } else if flags.network_ready {
        Rgb { r: 0, g: 0, b: 255 }
    } else {
        Rgb { r: 255, g: 0, b: 0 }
    }
}

impl SystemFlags {
    /// The state at power-on: nothing is up yet.
    pub fn new() -> (r: SystemFlags)
        ensures
            !r.network_ready && !r.client_mode && !r.upgrade_in_progress && !r.time_synced,
    {
        SystemFlags {
            network_ready: false,
            client_mode: false,
            upgrade_in_progress: false,
            time_synced: false,
        }
    }

    /// The indicator colour: orange while firmware is being upgraded, green
    /// for a ready client, blue for a ready access point, red while offline.
    pub fn indicator_color(&self) -> (r: Rgb)
        ensures
            r == spec_indicator_color(*self),
    {
        if self.upgrade_in_progress {
            Rgb { r: 255, g: 140, b: 0 }
        } else if self.network_ready && self.client_mode {
            Rgb { r: 0, g: 255, b: 0 }
        } else if self.network_ready {
            Rgb { r: 0, g: 0, b: 255 }
        } else {
            Rgb { r: 255, g: 0, b: 0 }
        }
    }
}

/// Brightness of the indicator for the two phases of its blink.
pub fn blink_brightness(on_phase: bool) -> (r: u8)
    ensures
        r == (if on_phase {
            2u8
        } else {
            1u8
        }),
{
    if on_phase {
        2
    } else {
        1
    }
}

} // verus!
