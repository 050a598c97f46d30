//! The settings a batch run is configured with.
//!
//! The caller loads these from its configuration document and hands them
//! over as plain values: mailbox identity and bearer token, the shared
//! registration password, the alias postfix, and the index range. The only
//! shape this crate itself rejects is a range that ends before it starts.

use vstd::prelude::*;

use crate::batch::BatchConfig;
use crate::bytes::copy_bytes;
use crate::errors::ConfigError;

verus! {

/// One batch run's settings, as plain values.
pub struct Settings {
    /// Mailbox user name, also the base of every alias.
    pub gmail_username: Vec<u8>,
    /// Bearer token for the mailbox's authentication exchange.
    pub gmail_oauth2: Vec<u8>,
    /// Password shared by all registrations of the batch.
    pub register_password: Vec<u8>,
    /// Alias infix between the `+` and the padded index.
    pub postfix: Vec<u8>,
    /// First index of the range.
    pub start_num: u32,
    /// Past-the-last index of the range.
    pub end_num: u32,
}

impl Settings {
    /// Rejects a malformed range before any cycle starts.
    pub fn validate(&self) -> (r: Result<(), ConfigError>)
        ensures
            r is Ok <==> self.start_num <= self.end_num,
            r is Err ==> r == Err::<(), ConfigError>(ConfigError::InvalidRange),
    {
        if self.start_num <= self.end_num {
            Ok(())
        } else {
            Err(ConfigError::InvalidRange)
        }
    }

    /// The batch these settings describe.
    pub fn batch_config(&self) -> (r: BatchConfig)
        ensures
            r.user@ == self.gmail_username@,
            r.postfix@ == self.postfix@,
            r.password@ == self.register_password@,
            r.start == self.start_num,
            r.end == self.end_num,
    {
        BatchConfig {
            user: copy_bytes(&self.gmail_username),
            postfix: copy_bytes(&self.postfix),
            password: copy_bytes(&self.register_password),
            start: self.start_num,
            end: self.end_num,
        }
    }
}

} // verus!
