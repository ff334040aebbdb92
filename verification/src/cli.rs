//! What the command line hands to the deployer.

use crate::retry::RetryTimes;
use vstd::prelude::*;

verus! {

/// Where the coordination messages come from.
#[derive(Debug, PartialEq, Eq)]
#[allow(non_camel_case_types)]
pub struct MQTTconfig {
    /// Whether the listener for the hand-off message is wanted.
    pub enabled: bool,
    /// Host name or address of the broker.
    pub ip: String,
    /// Port of the broker.
    pub port: u16,
    /// Topic on which the hand-off message arrives.
    pub topic: String,
}

/// The arguments of the deployer.
#[derive(Debug, PartialEq, Eq)]
pub struct CliArgs {
    /// The directory that holds the manifests.
    pub manifests_path: String,
    /// The socket of the container management.
    pub socket_cm: String,
    /// Whether to keep running and watch the directory for changes.
    pub daemon: bool,
    pub mqtt: MQTTconfig,
}

impl CliArgs {
    /// The retry policy of the first pass over the directory: a daemon waits
    /// for the control plane as long as it takes, a single run tries once.
    pub fn retry_times(&self) -> (policy: RetryTimes)
        ensures
            policy == if self.daemon {
                RetryTimes::Forever
            } else {
                RetryTimes::Never
            },
    {
        if self.daemon {
            RetryTimes::Forever
        } else {
            RetryTimes::Never
        }
    }

    /// Whether the coordination listener is started: only a daemon that was
    /// asked for it has one.
    pub fn wants_listener(&self) -> (wanted: bool)
        ensures
            wanted == (self.daemon && self.mqtt.enabled),
    {
        self.daemon && self.mqtt.enabled
    }
}

} // verus!
