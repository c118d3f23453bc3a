//! The service's configuration, as plain values. The surrounding process
//! fills it from prefixed environment variables.

use vstd::prelude::*;

use crate::restic::{Backend, Restic};

verus! {

/// Everything the service is configured with: repository location and
/// password, the storage backend's credentials, the volumes to back up in
/// order, the tag prefix, and the backup interval as duration text.
#[derive(Debug)]
pub struct Config {
    pub restic_repository: String,
    pub restic_password: String,
    pub aws_access_key_id: String,
    pub aws_secret_access_key: String,
    pub volumes_to_backup: Vec<String>,
    pub tag_prefix: String,
    pub backup_interval: String,
}

impl Config {
    /// The engine client this configuration describes: its repository,
    /// password, object-storage credentials and tag prefix.
    pub fn restic(&self) -> (r: Restic)
        ensures
            r.repository == self.restic_repository,
            r.password == self.restic_password,
            r.backend matches Backend::S3 { access_key_id, secret_access_key }
                && access_key_id == self.aws_access_key_id
                && secret_access_key == self.aws_secret_access_key,
            r.tag_prefix == self.tag_prefix,
    {
        let backend = Backend::S3 {
            access_key_id: self.aws_access_key_id.clone(),
            secret_access_key: self.aws_secret_access_key.clone(),
        };
        Restic::new(
            self.restic_repository.clone(),
            self.restic_password.clone(),
            backend,
            self.tag_prefix.clone(),
        )
    }
}

} // verus!
