//! One backup task: one run of the pipeline for one host, and the rule that
//! protects the ledger — the newly computed record may be persisted only
//! after the transfer phase has succeeded.

use vstd::prelude::*;
use vstd::string::StringExecFns;
use crate::config::{GlobalConfig, Host};
use crate::record::Record;

verus! {

/// One unit of work: back up one host under the global configuration.
#[derive(Debug)]
pub struct BackupTask {
    pub global_config: GlobalConfig,
    pub host: Host,
}

impl BackupTask {
    /// Where this host's durable record lives:
    /// `<destination>/<identifier>/.records/record.json`.
    pub fn record_path(&self) -> (r: String)
        ensures
            r@ == self.host.config.destination@ + "/"@ + self.host.config.identifier@
                + "/.records/record.json"@,
    {
        let mut r = self.host.config.destination.clone();
        r.append("/");
        r.append(self.host.config.identifier.as_str());
        r.append("/.records/record.json");
        proof {
            assert(r@ =~= self.host.config.destination@ + "/"@ + self.host.config.identifier@
                + "/.records/record.json"@);
        }
        r
    }
}

/// The record that may be written at the end of a run: the newly computed
/// one when the transfer phase reported success, the prior one — untouched —
/// otherwise. A failed run therefore never moves the ledger.
pub fn record_to_persist<'a>(prior: &'a Record, computed: &'a Record, transfer_ok: bool) -> (r:
    &'a Record)
    ensures
        transfer_ok ==> r == computed,
        !transfer_ok ==> r == prior,
{
    if transfer_ok {
        computed
    } else {
        prior
    }
}

} // verus!
