//! The external input a capture session starts from.

use vstd::prelude::*;

verus! {

/// Represents the input parameters for the library.
#[derive(Debug, Clone)]
pub struct Parameters {
    /// The 0-based device index to capture from.
    pub device_id: usize,
    /// The flush interval in seconds; zero keeps the default.
    pub timeout: u32,
    /// The path of the output file; empty keeps none configured.
    pub file_path: String,
    /// The capture filter in Berkeley Packet Filter syntax, if any.
    pub filter: Option<String>,
}

impl Parameters {
    /// Builds the default parameters: first device, five-second interval,
    /// no output file, no filter.
    pub fn new() -> (r: Parameters)
        ensures
            r.device_id == 0,
            r.timeout == 5,
            r.file_path@ == Seq::<char>::empty(),
            r.filter is None,
    {
        Parameters { device_id: 0, timeout: 5, file_path: String::new(), filter: None }
    }

    /// Sets the device index.
    pub fn set_device_id(&mut self, device_id: usize)
        ensures
            *final(self) == (Parameters { device_id, ..*old(self) }),
    {
        self.device_id = device_id;
    }

    /// Sets the flush interval.
    pub fn set_timeout(&mut self, timeout: u32)
        ensures
            *final(self) == (Parameters { timeout, ..*old(self) }),
    {
        self.timeout = timeout;
    }

    /// Sets the output file path.
    pub fn set_file_path(&mut self, file_path: String)
        ensures
            *final(self) == (Parameters { file_path, ..*old(self) }),
    {
        self.file_path = file_path;
    }

    /// Sets the capture filter expression.
    pub fn set_protocol(&mut self, filter: String)
        ensures
            *final(self) == (Parameters { filter: Some(filter), ..*old(self) }),
    {
        self.filter = Some(filter);
    }
}

} // verus!
